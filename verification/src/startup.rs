//! What happens between the start of the program and the command: the
//! database file is looked for, and the user is asked before one is
//! created.
//!
//! The program does the looking, the asking and the creating, and reports
//! each outcome as an event; the next step is decided here.

use vstd::prelude::*;
use vstd::string::StringExecFns;

verus! {

/// The question that is put to the user when there is no database yet.
pub const CREATE_PROMPT: &'static str = "Do you want to create it? (Y/N): ";

/// What the program found or did on the way to the command.
#[derive(Debug, Clone, Copy, PartialEq, Eq)]
pub enum StartupEvent {
    /// It looked whether the database file exists.
    DatabaseProbed { exists: bool },
    /// It asked whether to create the database, and the user answered.
    Answered { create: bool },
    /// It created the database file.
    DatabaseCreated,
}

/// What the program is to do next.
#[derive(Debug, Clone, PartialEq, Eq)]
pub enum StartupAction {
    /// Print the notice, then put the prompt to the user until there is an
    /// answer.
    Ask { notice: String, prompt: String },
    /// Create the database file.
    CreateDatabase,
    /// Print the announcement, if there is one, and carry out the command.
    Proceed { announcement: Option<String> },
    /// Print the farewell and end without carrying out the command. This
    /// is no failure.
    Quit { farewell: String },
}

/// The notice that there is no database at `db_path`.
pub open spec fn missing_text(db_path: Seq<char>) -> Seq<char> {
    "Database not found at "@ + db_path
}

/// The notice that a database was created at `db_path`.
pub open spec fn created_text(db_path: Seq<char>) -> Seq<char> {
    "Database created at "@ + db_path
}

/// Decides the next step on the way to the command. A database that is
/// there is used as it is. A missing one is created only if the user
/// agrees; if not, the program takes its leave and the command is not
/// carried out.
pub fn next_step(db_path: &str, event: StartupEvent) -> (action: StartupAction)
    ensures
        match event {
            StartupEvent::DatabaseProbed { exists } => if exists {
                action == (StartupAction::Proceed { announcement: None })
            } else {
                action matches StartupAction::Ask { notice, prompt } && notice@ == missing_text(
                    db_path@,
                ) && prompt@ == CREATE_PROMPT@
            },
            StartupEvent::Answered { create } => if create {
                action == StartupAction::CreateDatabase
            } else {
                action matches StartupAction::Quit { farewell } && farewell@ == "Goodbye!"@
            },
            StartupEvent::DatabaseCreated => action matches StartupAction::Proceed {
                announcement: Some(announcement),
            } && announcement@ == created_text(db_path@),
        },
{
    match event {
        StartupEvent::DatabaseProbed { exists } => {
            if exists {
                StartupAction::Proceed { announcement: None }
            } else {
                let mut notice = String::from_str("Database not found at ");
                notice.append(db_path);
                StartupAction::Ask { notice, prompt: String::from_str(CREATE_PROMPT) }
            }
        },
        StartupEvent::Answered { create } => {
            if create {
                StartupAction::CreateDatabase
            } else {
                StartupAction::Quit { farewell: String::from_str("Goodbye!") }
            }
        },
        StartupEvent::DatabaseCreated => {
            let mut announcement = String::from_str("Database created at ");
            announcement.append(db_path);
            StartupAction::Proceed { announcement: Some(announcement) }
        },
    }
}

} // verus!
