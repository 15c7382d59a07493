//! The statements the tracker sends to the store, and the dispatcher that
//! turns one command into one store operation and a report for the user.

use crate::args::Commands;
use crate::config::get_app_config_dir;
use crate::config::join_path;
use crate::config::joined;
use crate::config::ConfigError;
use crate::config::Environment;
use crate::error::StorageFailure;
use crate::models::listed_tasks;
use crate::models::task_views;
use crate::models::Task;
use crate::models::TaskView;
use crate::store::failure_of;
use crate::store::is_storage_report;
use crate::store::open_connection;
use crate::store::Cell;
use crate::store::Param;
use crate::store::Statement;
use crate::text::integer_text;
use crate::text::integer_to_text;
use crate::text::pad_right;
use crate::text::padded;
use crate::text::repeat_text;
use crate::text::repeated;
use crate::timestamp::display_text;
use vstd::prelude::*;
use vstd::string::StringExecFns;

verus! {

/// Creates the table of tasks unless it is there already.
pub const CREATE_TASK_TABLE: &'static str = "CREATE TABLE IF NOT EXISTS tasks (
    id INTEGER PRIMARY KEY AUTOINCREMENT,
    description TEXT NOT NULL,
    done BOOLEAN NOT NULL DEFAULT 0,
    birth TEXT NOT NULL
)";

/// Inserts a task that is not done. Parameters: the description, then the
/// creation time as text.
pub const INSERT_TASK: &'static str =
    "INSERT INTO tasks (description, done, birth) VALUES (?1, 0, ?2)";

/// Selects every column of every task.
pub const SELECT_ALL_TASKS: &'static str = "SELECT id, description, done, birth FROM tasks";

/// Deletes the task with the id given as the one parameter.
pub const DELETE_TASK: &'static str = "DELETE FROM tasks WHERE id = ?1";

/// Marks the task with the id given as the one parameter as done, unless
/// it is done already.
pub const UPDATE_TASK_DONE: &'static str = "UPDATE tasks SET done = 1 WHERE id = ?1 AND done = 0";

/// The name of the database file inside the configuration directory.
pub const DATABASE_FILE: &'static str = "tasks.db";

/// The width of the id and done columns of a listing.
pub const NARROW_COLUMN: usize = 8;

/// The width of the creation-time column of a listing.
pub const BIRTH_COLUMN: usize = 19;

/// The length of the rule under the header of a listing.
pub const RULE_LENGTH: usize = 60;

/// The statement that sets up the table: [`CREATE_TASK_TABLE`], without
/// parameters.
pub fn create_table_statement() -> (statement: Statement)
    ensures
        statement.sql@ == CREATE_TASK_TABLE@,
        statement.params@ == Seq::<Param>::empty(),
{
    Statement { sql: String::from_str(CREATE_TASK_TABLE), params: Vec::new() }
}

/// The statement that adds a task: [`INSERT_TASK`] with the description
/// and the creation time as text.
pub fn insert_statement(description: String, birth: String) -> (statement: Statement)
    ensures
        statement.sql@ == INSERT_TASK@,
        statement.params@ == seq![Param::Text(description), Param::Text(birth)],
{
    let mut params: Vec<Param> = Vec::new();
    params.push(Param::Text(description));
    params.push(Param::Text(birth));
    Statement { sql: String::from_str(INSERT_TASK), params }
}

/// The statement that removes the task with this id: [`DELETE_TASK`] with
/// the id.
pub fn delete_statement(id: i64) -> (statement: Statement)
    ensures
        statement.sql@ == DELETE_TASK@,
        statement.params@ == seq![Param::Integer(id)],
{
    let mut params: Vec<Param> = Vec::new();
    params.push(Param::Integer(id));
    Statement { sql: String::from_str(DELETE_TASK), params }
}

/// The statement that completes the task with this id:
/// [`UPDATE_TASK_DONE`] with the id.
pub fn mark_done_statement(id: i64) -> (statement: Statement)
    ensures
        statement.sql@ == UPDATE_TASK_DONE@,
        statement.params@ == seq![Param::Integer(id)],
{
    let mut params: Vec<Param> = Vec::new();
    params.push(Param::Integer(id));
    Statement { sql: String::from_str(UPDATE_TASK_DONE), params }
}

/// The path of the database file: `tasks.db` in the tracker's
/// configuration directory.
pub fn get_db_path(environment: &Environment) -> (path: Result<String, ConfigError>)
    ensures
        match path {
            Ok(path) => crate::config::app_config_dir(*environment) is Some && path@ == joined(
                crate::config::app_config_dir(*environment)->0,
                DATABASE_FILE@,
            ),
            Err(error) => crate::config::app_config_dir(*environment) is None && error
                == ConfigError::HomeNotSet,
        },
{
    match get_app_config_dir(environment) {
        Ok(directory) => Ok(join_path(directory.as_str(), DATABASE_FILE)),
        Err(error) => Err(error),
    }
}

/// What the program reports after it tried to create the database file:
/// success as it is, and a failure as a storage failure that names the
/// path.
pub fn create_database(db_path: &str, created: Result<(), String>) -> (outcome: Result<
    (),
    StorageFailure,
>)
    ensures
        match created {
            Ok(_) => outcome is Ok,
            Err(cause) => outcome matches Err(failure) && failure@.context == Some(
                "Failed to create database at "@ + db_path@,
            ) && failure@.detail == cause@,
        },
{
    match created {
        Ok(_) => Ok(()),
        Err(cause) => {
            let mut context = String::from_str("Failed to create database at ");
            context.append(db_path);
            Err(StorageFailure::new(cause).in_context(context))
        },
    }
}

/// The views of a sequence of lines, in the same order.
pub open spec fn texts(lines: Seq<String>) -> Seq<Seq<char>> {
    lines.map_values(|line: String| line@)
}

/// The report of an addition.
pub open spec fn added_text(id: int) -> Seq<char> {
    "Task added successfully with id: "@ + integer_text(id)
}

/// The report of a removal that hit a task, or of one that found none.
pub open spec fn removed_text(id: int, removed: bool) -> Seq<char> {
    if removed {
        "Task "@ + integer_text(id) + " removed!"@
    } else {
        "No task found with id: "@ + integer_text(id)
    }
}

/// The report of a completion that hit a task, or of one that changed
/// nothing.
pub open spec fn done_text(id: int, updated: bool) -> Seq<char> {
    if updated {
        "Task "@ + integer_text(id) + " marked as done!"@
    } else {
        "Task "@ + integer_text(id) + " already completed or doesn't exist."@
    }
}

/// The header of a listing.
pub open spec fn header_text() -> Seq<char> {
    padded("ID"@, NARROW_COLUMN as nat) + " | "@ + padded("DONE"@, NARROW_COLUMN as nat) + " | "@
        + padded("BIRTH"@, BIRTH_COLUMN as nat) + " | "@ + "DESCRIPTION"@
}

/// The rule under the header of a listing.
pub open spec fn rule_text() -> Seq<char> {
    repeated("-"@, RULE_LENGTH as nat)
}

/// How the done flag is shown.
pub open spec fn flag_text(done: bool) -> Seq<char> {
    if done {
        "true"@
    } else {
        "false"@
    }
}

/// The line of a listing for a task with these values, its creation time
/// already written out: three left-aligned columns and the description,
/// with ` | ` between them.
pub open spec fn row_text_of(id: int, done: bool, birth: Seq<char>, description: Seq<char>) -> Seq<
    char,
> {
    padded(integer_text(id), NARROW_COLUMN as nat) + " | "@ + padded(
        flag_text(done),
        NARROW_COLUMN as nat,
    ) + " | "@ + padded(birth, BIRTH_COLUMN as nat) + " | "@ + description
}

/// The line of a listing that shows one task.
pub open spec fn row_text(task: TaskView) -> Seq<char> {
    row_text_of(task.id, task.done, display_text(task.birth), task.description)
}

/// The lines of a listing: a single note where there are no tasks, else
/// the header, the rule and one line for each task, in order.
pub open spec fn listing_text(tasks: Seq<TaskView>) -> Seq<Seq<char>> {
    if tasks.len() == 0 {
        seq!["No tasks found"@]
    } else {
        seq![header_text(), rule_text()] + tasks.map_values(|task: TaskView| row_text(task))
    }
}

/// What the tracker was doing when a command failed.
pub open spec fn command_context(command: Commands) -> Seq<char> {
    match command {
        Commands::Add { .. } => "Failed to add task"@,
        Commands::List => "Failed to list tasks"@,
        Commands::Remove { .. } => "Failed to remove task"@,
        Commands::Done { .. } => "Failed to mark task as done"@,
    }
}

/// Whether `lines` is a report that the command can end in: which of them
/// it is lies with the store.
pub open spec fn can_report(command: Commands, lines: Seq<Seq<char>>) -> bool {
    match command {
        Commands::Add { .. } => exists|id: i64| lines == seq![#[trigger] added_text(id as int)],
        Commands::List => exists|rows: Seq<Vec<Cell>>|
            lines == listing_text(#[trigger] listed_tasks(rows)),
        Commands::Remove { id } => lines == seq![removed_text(id as int, true)] || lines
            == seq![removed_text(id as int, false)],
        Commands::Done { id } => lines == seq![done_text(id as int, true)] || lines
            == seq![done_text(id as int, false)],
    }
}

/// A store without rows is reported by the one note that there are no
/// tasks. A store with tasks is reported by a table: the header, the rule,
/// and one line for each task.
pub proof fn lemma_empty_listing_is_a_note(tasks: Seq<TaskView>)
    ensures
        listed_tasks(Seq::empty()) == Seq::<TaskView>::empty(),
        tasks.len() == 0 ==> listing_text(tasks) == seq!["No tasks found"@],
        tasks.len() > 0 ==> listing_text(tasks).len() == tasks.len() + 2 && listing_text(tasks)[0]
            == header_text() && listing_text(tasks)[1] == rule_text(),
{
}

/// Puts a single line into a report.
fn single_line(line: String) -> (lines: Vec<String>)
    ensures
        texts(lines@) == seq![line@],
{
    let mut lines: Vec<String> = Vec::new();
    lines.push(line);
    lines
}

/// The report of an addition that the store answered with `id`.
pub fn report_added(id: i64) -> (lines: Vec<String>)
    ensures
        texts(lines@) == seq![added_text(id as int)],
{
    let mut line = String::from_str("Task added successfully with id: ");
    line.append(integer_to_text(id).as_str());
    single_line(line)
}

/// The report of a removal, given whether the store removed a row.
pub fn report_removed(id: i64, removed: bool) -> (lines: Vec<String>)
    ensures
        texts(lines@) == seq![removed_text(id as int, removed)],
{
    let number = integer_to_text(id);
    if removed {
        let mut line = String::from_str("Task ");
        line.append(number.as_str());
        line.append(" removed!");
        single_line(line)
    } else {
        let mut line = String::from_str("No task found with id: ");
        line.append(number.as_str());
        single_line(line)
    }
}

/// The report of a completion, given whether the store updated a row.
pub fn report_done(id: i64, updated: bool) -> (lines: Vec<String>)
    ensures
        texts(lines@) == seq![done_text(id as int, updated)],
{
    let number = integer_to_text(id);
    let mut line = String::from_str("Task ");
    line.append(number.as_str());
    if updated {
        line.append(" marked as done!");
    } else {
        line.append(" already completed or doesn't exist.");
    }
    single_line(line)
}

fn header_line() -> (line: String)
    ensures
        line@ == header_text(),
{
    let mut line = pad_right("ID", NARROW_COLUMN);
    line.append(" | ");
    line.append(pad_right("DONE", NARROW_COLUMN).as_str());
    line.append(" | ");
    line.append(pad_right("BIRTH", BIRTH_COLUMN).as_str());
    line.append(" | ");
    line.append("DESCRIPTION");
    line
}

/// Writes the line of a listing for a task with these values, its
/// creation time already written out.
pub fn format_row(id: i64, done: bool, birth: &str, description: &str) -> (line: String)
    ensures
        line@ == row_text_of(id as int, done, birth@, description@),
{
    let flag = if done {
        "true"
    } else {
        "false"
    };
    let mut line = pad_right(integer_to_text(id).as_str(), NARROW_COLUMN);
    line.append(" | ");
    line.append(pad_right(flag, NARROW_COLUMN).as_str());
    line.append(" | ");
    line.append(pad_right(birth, BIRTH_COLUMN).as_str());
    line.append(" | ");
    line.append(description);
    line
}

fn row_line(task: &Task) -> (line: String)
    ensures
        line@ == row_text(task@),
{
    let birth = task.birth.to_display_text();
    format_row(task.id, task.done, birth.as_str(), task.description.as_str())
}

/// The report of a listing: what is shown for the tasks that the store
/// yielded.
pub fn report_listing(tasks: &Vec<Task>) -> (lines: Vec<String>)
    ensures
        texts(lines@) == listing_text(task_views(tasks@)),
{
    if tasks.len() == 0 {
        return single_line(String::from_str("No tasks found"));
    }
    let mut lines: Vec<String> = Vec::new();
    lines.push(header_line());
    lines.push(repeat_text("-", RULE_LENGTH));
    let ghost views = task_views(tasks@);
    let mut next: usize = 0;
    assert(texts(lines@) =~= seq![header_text(), rule_text()] + views.subrange(0, 0).map_values(
        |task: TaskView| row_text(task),
    ));
    while next < tasks.len()
        invariant
            next <= tasks.len(),
            views == task_views(tasks@),
            texts(lines@) == seq![header_text(), rule_text()] + views.subrange(
                0,
                next as int,
            ).map_values(|task: TaskView| row_text(task)),
        decreases tasks.len() - next,
    {
        let ghost shown = texts(lines@);
        let line = row_line(&tasks[next]);
        lines.push(line);
        assert(texts(lines@) =~= shown.push(row_text(views[next as int])));
        assert(views.subrange(0, next + 1).map_values(|task: TaskView| row_text(task))
            =~= views.subrange(0, next as int).map_values(|task: TaskView| row_text(task)).push(
            row_text(views[next as int]),
        ));
        next = next + 1;
    }
    assert(views.subrange(0, tasks.len() as int) =~= views);
    lines
}

/// The context of a command's failure, as text.
fn context_of(command: &Commands) -> (context: String)
    ensures
        context@ == command_context(*command),
{
    match command {
        Commands::Add { .. } => String::from_str("Failed to add task"),
        Commands::List => String::from_str("Failed to list tasks"),
        Commands::Remove { .. } => String::from_str("Failed to remove task"),
        Commands::Done { .. } => String::from_str("Failed to mark task as done"),
    }
}

/// Carries out one command on an open store: exactly one store operation,
/// then the report of its answer. A failure of the store comes back with
/// the command's context and is not retried.
///
/// # Panics
///
/// An addition panics where [`Task::add`] does.
pub fn execute_command(conn: &rusqlite::Connection, command: Commands) -> (outcome: Result<
    Vec<String>,
    StorageFailure,
>)
    ensures
        match outcome {
            Ok(lines) => can_report(command, texts(lines@)),
            Err(failure) => failure@.context == Some(command_context(command))
                && is_storage_report(failure.detail),
        },
{
    let context = context_of(&command);
    match command {
        Commands::Add { description } => match Task::add(conn, description) {
            Ok(id) => Ok(report_added(id)),
            Err(failure) => Err(failure.in_context(context)),
        },
        Commands::List => match Task::list(conn) {
            Ok(tasks) => Ok(report_listing(&tasks)),
            Err(failure) => Err(failure.in_context(context)),
        },
        Commands::Remove { id } => match Task::remove(conn, id) {
            Ok(removed) => Ok(report_removed(id, removed)),
            Err(failure) => Err(failure.in_context(context)),
        },
        Commands::Done { id } => match Task::mark_done(conn, id) {
            Ok(updated) => Ok(report_done(id, updated)),
            Err(failure) => Err(failure.in_context(context)),
        },
    }
}

/// Opens the store at `db_path`, makes sure that its table exists, and
/// carries out the command. The lines of the report are for standard
/// output; a failure names the step that failed.
///
/// # Panics
///
/// An addition panics where [`Task::add`] does.
pub fn handle_db_operations(db_path: &str, command: Commands) -> (outcome: Result<
    Vec<String>,
    StorageFailure,
>)
    ensures
        match outcome {
            Ok(lines) => can_report(command, texts(lines@)),
            Err(failure) => (failure@.context == Some("Failed to open database at "@ + db_path@)
                || failure@.context == Some("Failed to create tasks table"@) || failure@.context
                == Some(command_context(command))) && is_storage_report(failure.detail),
        },
{
    let conn = match open_connection(db_path) {
        Ok(conn) => conn,
        Err(error) => {
            let mut context = String::from_str("Failed to open database at ");
            context.append(db_path);
            return Err(failure_of(&error).in_context(context));
        },
    };
    match Task::create_default(&conn) {
        Ok(_) => {},
        Err(failure) => {
            return Err(failure.in_context(String::from_str("Failed to create tasks table")));
        },
    }
    execute_command(&conn, command)
}

} // verus!
