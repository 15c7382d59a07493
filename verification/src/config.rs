//! Where the tracker keeps its files.
//!
//! The directory follows the XDG convention: `$XDG_CONFIG_HOME/todo-rs`
//! where that variable is set, else `$HOME/.config/todo-rs`. The program
//! reads the two variables and looks at the file system; the rules for
//! what follows from what it found are here.

use vstd::prelude::*;
use vstd::string::StrSliceExecFns;
use vstd::string::StringExecFns;

verus! {

/// The name of the tracker's own directory inside the configuration
/// directory.
pub const APP_DIRECTORY: &'static str = "todo-rs";

/// The name of the configuration directory inside the home directory.
pub const HOME_CONFIG_DIRECTORY: &'static str = ".config";

/// The two environment variables that decide where the files are kept,
/// each as it was found: `None` for a variable that is not set.
#[derive(Debug, Clone, PartialEq, Eq)]
pub struct Environment {
    pub xdg_config_home: Option<String>,
    pub home: Option<String>,
}

/// Why the configuration directory cannot be used.
#[derive(Debug, Clone, PartialEq, Eq)]
pub enum ConfigError {
    /// Neither `XDG_CONFIG_HOME` nor `HOME` is set.
    HomeNotSet,
    /// The directory is missing and could not be created.
    CreateFailed { path: String, cause: String },
    /// The directory's metadata could not be read.
    MetadataUnreadable { path: String, cause: String },
    /// The directory does not allow writing.
    ReadOnly { path: String },
}

/// What the program found when it looked at the configuration directory,
/// or when it did what it was told to.
#[derive(Debug, Clone, PartialEq, Eq)]
pub enum DirectoryEvent {
    /// It looked whether the directory exists.
    Probed { exists: bool },
    /// It created the directory and every missing parent.
    Created,
    /// It tried to create the directory and failed.
    CreateFailed { cause: String },
}

/// What the program is to do next about the configuration directory.
#[derive(Debug, Clone, PartialEq, Eq)]
pub enum DirectoryAction {
    /// Create the directory and every missing parent, then report back.
    Create,
    /// The directory is there. Print the notice, if there is one.
    Finish { notice: Option<String> },
    /// Give up with this error.
    Fail { error: ConfigError },
}

/// `child` adjoined to `base` as a Unix path: a child that starts at the
/// root replaces the base, and a separator is put between the two unless
/// the base is empty or ends in one.
pub open spec fn joined(base: Seq<char>, child: Seq<char>) -> Seq<char> {
    if child.len() > 0 && child[0] == '/' {
        child
    } else if base.len() == 0 || base.last() == '/' {
        base + child
    } else {
        base + seq!['/'] + child
    }
}

/// The user's configuration directory: `XDG_CONFIG_HOME` where it is set,
/// else `.config` in the home directory, and none where neither variable
/// is set.
pub open spec fn config_dir(environment: Environment) -> Option<Seq<char>> {
    match environment.xdg_config_home {
        Some(directory) => Some(directory@),
        None => match environment.home {
            Some(home) => Some(joined(home@, HOME_CONFIG_DIRECTORY@)),
            None => None,
        },
    }
}

/// The tracker's own directory inside the configuration directory.
pub open spec fn app_config_dir(environment: Environment) -> Option<Seq<char>> {
    match config_dir(environment) {
        Some(directory) => Some(joined(directory, APP_DIRECTORY@)),
        None => None,
    }
}

/// The line that tells the user of a configuration error.
pub open spec fn config_error_text(error: ConfigError) -> Seq<char> {
    match error {
        ConfigError::HomeNotSet =>
            "Failed to get user home directory. HOME environment variable not set"@,
        ConfigError::CreateFailed { path, .. } => "Failed to create config directory: "@ + path@,
        ConfigError::MetadataUnreadable { path, .. } =>
            "Failed to read config directory metadata: "@ + path@,
        ConfigError::ReadOnly { path } => "Config directory is read-only: "@ + path@,
    }
}

impl ConfigError {
    /// The line to show the user.
    pub fn message(&self) -> (text: String)
        ensures
            text@ == config_error_text(*self),
    {
        match self {
            ConfigError::HomeNotSet => String::from_str(
                "Failed to get user home directory. HOME environment variable not set",
            ),
            ConfigError::CreateFailed { path, .. } => {
                let mut text = String::from_str("Failed to create config directory: ");
                text.append(path.as_str());
                text
            },
            ConfigError::MetadataUnreadable { path, .. } => {
                let mut text = String::from_str("Failed to read config directory metadata: ");
                text.append(path.as_str());
                text
            },
            ConfigError::ReadOnly { path } => {
                let mut text = String::from_str("Config directory is read-only: ");
                text.append(path.as_str());
                text
            },
        }
    }
}

/// Adjoins `child` to `base` as a Unix path.
pub fn join_path(base: &str, child: &str) -> (path: String)
    ensures
        path@ == joined(base@, child@),
{
    let child_length = child.unicode_len();
    if child_length > 0 && child.get_char(0) == '/' {
        return String::from_str(child);
    }
    let base_length = base.unicode_len();
    let mut path = String::from_str(base);
    if base_length > 0 && base.get_char(base_length - 1) != '/' {
        proof {
            reveal_strlit("/");
        }
        path.append("/");
    }
    path.append(child);
    path
}

/// The user's home directory, as `HOME` names it.
pub fn get_home_dir(environment: &Environment) -> (home: Result<String, ConfigError>)
    ensures
        match home {
            Ok(home) => environment.home matches Some(found) && home@ == found@,
            Err(error) => environment.home is None && error == ConfigError::HomeNotSet,
        },
{
    match &environment.home {
        Some(home) => Ok(home.clone()),
        None => Err(ConfigError::HomeNotSet),
    }
}

/// The user's configuration directory.
pub fn get_config_dir(environment: &Environment) -> (directory: Result<String, ConfigError>)
    ensures
        match directory {
            Ok(directory) => config_dir(*environment) == Some(directory@),
            Err(error) => config_dir(*environment) is None && error == ConfigError::HomeNotSet,
        },
{
    match &environment.xdg_config_home {
        Some(directory) => Ok(directory.clone()),
        None => match get_home_dir(environment) {
            Ok(home) => Ok(join_path(home.as_str(), HOME_CONFIG_DIRECTORY)),
            Err(error) => Err(error),
        },
    }
}

/// The tracker's own configuration directory.
pub fn get_app_config_dir(environment: &Environment) -> (directory: Result<String, ConfigError>)
    ensures
        match directory {
            Ok(directory) => app_config_dir(*environment) == Some(directory@),
            Err(error) => app_config_dir(*environment) is None && error
                == ConfigError::HomeNotSet,
        },
{
    match get_config_dir(environment) {
        Ok(directory) => Ok(join_path(directory.as_str(), APP_DIRECTORY)),
        Err(error) => Err(error),
    }
}

/// Decides what to do about the configuration directory at `config_dir`
/// after each thing the program found out: a directory that is there is
/// left alone, a missing one is created, a created one is announced, and
/// a failure to create it ends the run.
pub fn ensure_config_dir(config_dir: &str, event: DirectoryEvent) -> (action: DirectoryAction)
    ensures
        match event {
            DirectoryEvent::Probed { exists } => if exists {
                action == (DirectoryAction::Finish { notice: None })
            } else {
                action == DirectoryAction::Create
            },
            DirectoryEvent::Created => action matches DirectoryAction::Finish {
                notice: Some(notice),
            } && notice@ == "Created config directory: "@ + config_dir@,
            DirectoryEvent::CreateFailed { cause } => action matches DirectoryAction::Fail {
                error: ConfigError::CreateFailed { path, cause: reported },
            } && path@ == config_dir@ && reported@ == cause@,
        },
{
    match event {
        DirectoryEvent::Probed { exists } => {
            if exists {
                DirectoryAction::Finish { notice: None }
            } else {
                DirectoryAction::Create
            }
        },
        DirectoryEvent::Created => {
            let mut notice = String::from_str("Created config directory: ");
            notice.append(config_dir);
            DirectoryAction::Finish { notice: Some(notice) }
        },
        DirectoryEvent::CreateFailed { cause } => DirectoryAction::Fail {
            error: ConfigError::CreateFailed { path: String::from_str(config_dir), cause },
        },
    }
}

/// Judges whether the configuration directory at `config_dir` can be
/// written to, from what its metadata said: `Ok(true)` for a directory
/// marked read-only, `Ok(false)` for one that is not, and `Err` with the
/// cause where the metadata could not be read.
pub fn check_config_dir_writable(config_dir: &str, read_only: Result<bool, String>) -> (checked:
    Result<(), ConfigError>)
    ensures
        match read_only {
            Ok(false) => checked is Ok,
            Ok(true) => checked matches Err(ConfigError::ReadOnly { path }) && path@
                == config_dir@,
            Err(cause) => checked matches Err(
                ConfigError::MetadataUnreadable { path, cause: reported },
            ) && path@ == config_dir@ && reported@ == cause@,
        },
{
    match read_only {
        Ok(false) => Ok(()),
        Ok(true) => Err(ConfigError::ReadOnly { path: String::from_str(config_dir) }),
        Err(cause) => Err(
            ConfigError::MetadataUnreadable { path: String::from_str(config_dir), cause },
        ),
    }
}

} // verus!
