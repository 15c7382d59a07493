//! Tasks, and how they get into the store and out of it again.

use crate::database::create_table_statement;
use crate::database::delete_statement;
use crate::database::insert_statement;
use crate::database::mark_done_statement;
use crate::database::SELECT_ALL_TASKS;
use crate::error::StorageFailure;
use crate::store::execute;
use crate::store::failure_of;
use crate::store::fetch_rows;
use crate::store::is_storage_report;
use crate::store::last_insert_rowid;
use crate::store::Cell;
use crate::timestamp::moment_of;
use crate::timestamp::parsed_datetime;
use crate::timestamp::stored_text;
use crate::timestamp::valid_moment;
use crate::timestamp::whole_second;
use crate::timestamp::Moment;
use crate::timestamp::Timestamp;
use crate::timestamp::STORED_FORMAT;
use vstd::prelude::*;
use vstd::utf8::decode_utf8;
use vstd::utf8::valid_utf8;

verus! {

/// One entry of the to-do list.
#[derive(Debug, Clone, PartialEq, Eq)]
pub struct Task {
    /// The id the store gave the task when it was added.
    pub id: i64,
    /// What is to be done.
    pub description: String,
    /// Whether it has been done.
    pub done: bool,
    /// When the task was added, in local time.
    pub birth: Timestamp,
}

/// A task as plain values.
pub struct TaskView {
    pub id: int,
    pub description: Seq<char>,
    pub done: bool,
    pub birth: Moment,
}

impl View for Task {
    type V = TaskView;

    open spec fn view(&self) -> TaskView {
        TaskView {
            id: self.id as int,
            description: self.description@,
            done: self.done,
            birth: self.birth@,
        }
    }
}

/// A row of the table with its columns read, the creation time still as
/// the text that the store holds.
#[derive(Debug, Clone, PartialEq, Eq)]
pub struct StoredTask {
    pub id: i64,
    pub description: String,
    pub done: bool,
    pub birth: String,
}

/// The columns of a row as plain values.
pub struct StoredTaskView {
    pub id: int,
    pub description: Seq<char>,
    pub done: bool,
    pub birth: Seq<char>,
}

impl View for StoredTask {
    type V = StoredTaskView;

    open spec fn view(&self) -> StoredTaskView {
        StoredTaskView {
            id: self.id as int,
            description: self.description@,
            done: self.done,
            birth: self.birth@,
        }
    }
}

/// The views of a sequence of tasks, in the same order.
pub open spec fn task_views(tasks: Seq<Task>) -> Seq<TaskView> {
    tasks.map_values(|task: Task| task@)
}

/// The view of a task that may be absent.
pub open spec fn task_view_of(task: Option<Task>) -> Option<TaskView> {
    match task {
        Some(task) => Some(task@),
        None => None,
    }
}

/// The integer in a cell; `None` for a cell of any other kind.
pub open spec fn integer_in(cell: Cell) -> Option<i64> {
    match cell {
        Cell::Integer(number) => Some(number),
        _ => None,
    }
}

/// The truth value in a cell: an integer other than zero is true, zero is
/// false, and a cell of any other kind holds none.
pub open spec fn flag_in(cell: Cell) -> Option<bool> {
    match cell {
        Cell::Integer(number) => Some(number != 0),
        _ => None,
    }
}

/// The text in a cell; `None` for a cell of any other kind and for text
/// that is not valid UTF-8.
pub open spec fn text_in(cell: Cell) -> Option<Seq<char>> {
    match cell {
        Cell::Text(bytes) => if valid_utf8(bytes@) {
            Some(decode_utf8(bytes@))
        } else {
            None
        },
        _ => None,
    }
}

/// The columns of a row of the table: the id, the description, the done
/// flag and the creation time as text, in this order. `None` where one of
/// the four is missing or of the wrong kind. Columns after the fourth are
/// not looked at.
pub open spec fn stored_task(row: Seq<Cell>) -> Option<StoredTaskView> {
    if row.len() < 4 {
        None
    } else {
        match (integer_in(row[0]), text_in(row[1]), flag_in(row[2]), text_in(row[3])) {
            (Some(id), Some(description), Some(done), Some(birth)) => Some(
                StoredTaskView { id: id as int, description, done, birth },
            ),
            _ => None,
        }
    }
}

/// The task that stored columns stand for, given what reading the creation
/// time gave: none where the time could not be read.
pub open spec fn task_of(stored: StoredTaskView, birth: Option<Moment>) -> Option<TaskView> {
    match birth {
        Some(birth) => Some(
            TaskView { id: stored.id, description: stored.description, done: stored.done, birth },
        ),
        None => None,
    }
}

/// The task that a row of the table stands for. `None` where a column is
/// missing or of the wrong kind, or where the creation time cannot be read
/// in the stored format.
pub open spec fn decoded_row(row: Seq<Cell>) -> Option<TaskView> {
    match stored_task(row) {
        Some(stored) => task_of(stored, parsed_datetime(stored.birth, STORED_FORMAT@)),
        None => None,
    }
}

/// Whether `row` is a row as an insertion at `moment` writes it: its
/// columns are all there, and its creation time is the stored text of the
/// moment.
pub open spec fn written_at(row: Seq<Cell>, moment: Moment) -> bool {
    stored_task(row) matches Some(stored) && stored.birth == stored_text(moment)
}

/// Whether `task` is what a listing has to show for `row` if the row was
/// written by an insertion: the task of its columns, born at the second of
/// the insertion. Of any other row this says nothing.
pub open spec fn lists_what_was_written(row: Seq<Cell>, task: Option<TaskView>) -> bool {
    forall|moment: Moment|
        valid_moment(moment) && #[trigger] written_at(row, moment) ==> task == task_of(
            stored_task(row)->0,
            Some(whole_second(moment)),
        )
}

/// The tasks that a listing shows for the rows of a query: a row that
/// does not decode is passed over, and the others keep their order.
pub open spec fn listed_tasks(rows: Seq<Vec<Cell>>) -> Seq<TaskView>
    decreases rows.len(),
{
    if rows.len() == 0 {
        Seq::empty()
    } else {
        let earlier = listed_tasks(rows.drop_last());
        match decoded_row(rows.last()@) {
            Some(task) => earlier.push(task),
            None => earlier,
        }
    }
}

/// Listing two runs of rows one after the other gives the tasks of the
/// first run followed by those of the second.
pub proof fn lemma_listing_of_concatenation(first: Seq<Vec<Cell>>, second: Seq<Vec<Cell>>)
    ensures
        listed_tasks(first + second) == listed_tasks(first) + listed_tasks(second),
    decreases second.len(),
{
    if second.len() == 0 {
        assert(first + second =~= first);
        assert(listed_tasks(first) + listed_tasks(second) =~= listed_tasks(first));
    } else {
        assert((first + second).drop_last() =~= first + second.drop_last());
        assert((first + second).last() == second.last());
        lemma_listing_of_concatenation(first, second.drop_last());
        assert(listed_tasks(first + second) =~= listed_tasks(first) + listed_tasks(second));
    }
}

/// A row whose creation time cannot be read in the stored format does not
/// decode, whatever its other columns hold.
pub proof fn lemma_unreadable_birth_is_corrupt(row: Seq<Cell>)
    requires
        stored_task(row) matches Some(stored) ==> parsed_datetime(stored.birth, STORED_FORMAT@)
            is None,
    ensures
        decoded_row(row) is None,
{
}

/// One corrupt row does not spoil a listing: a row that does not decode is
/// left out, and every row before and after it is listed as if the corrupt
/// row were not there.
pub proof fn lemma_corrupt_row_is_skipped(
    before: Seq<Vec<Cell>>,
    row: Vec<Cell>,
    after: Seq<Vec<Cell>>,
)
    requires
        decoded_row(row@) is None,
    ensures
        listed_tasks(before + seq![row] + after) == listed_tasks(before) + listed_tasks(after),
{
    let middle = seq![row];
    assert(middle.drop_last() =~= Seq::<Vec<Cell>>::empty());
    assert(listed_tasks(middle.drop_last()) =~= Seq::<TaskView>::empty());
    assert(middle.last() == row);
    assert(listed_tasks(middle) =~= Seq::<TaskView>::empty());
    lemma_listing_of_concatenation(before, middle);
    lemma_listing_of_concatenation(before + middle, after);
    assert(listed_tasks(before) + listed_tasks(middle) =~= listed_tasks(before));
}

/// A row that decodes is listed, once, between the tasks of the rows before
/// it and those of the rows after it.
pub proof fn lemma_sound_row_is_listed(
    before: Seq<Vec<Cell>>,
    row: Vec<Cell>,
    after: Seq<Vec<Cell>>,
)
    requires
        decoded_row(row@) is Some,
    ensures
        listed_tasks(before + seq![row] + after) == listed_tasks(before).push(
            decoded_row(row@)->0,
        ) + listed_tasks(after),
{
    let middle = seq![row];
    assert(middle.drop_last() =~= Seq::<Vec<Cell>>::empty());
    assert(listed_tasks(middle.drop_last()) =~= Seq::<TaskView>::empty());
    assert(middle.last() == row);
    assert(listed_tasks(middle) =~= seq![decoded_row(row@)->0]);
    lemma_listing_of_concatenation(before, middle);
    lemma_listing_of_concatenation(before + middle, after);
    assert(listed_tasks(before) + listed_tasks(middle) =~= listed_tasks(before).push(
        decoded_row(row@)->0,
    ));
}

/// Decodes bytes as UTF-8 with `String::from_utf8`, which accepts exactly
/// the byte sequences that are valid UTF-8 and yields the characters they
/// encode.
#[verifier::external_body]
fn text_of_bytes(bytes: &Vec<u8>) -> (text: Option<String>)
    ensures
        text is Some == valid_utf8(bytes@),
        text matches Some(decoded) ==> decoded@ == decode_utf8(bytes@),
{
    String::from_utf8(bytes.clone()).ok()
}

fn read_integer(cell: &Cell) -> (number: Option<i64>)
    ensures
        number == integer_in(*cell),
{
    match cell {
        Cell::Integer(number) => Some(*number),
        _ => None,
    }
}

fn read_flag(cell: &Cell) -> (flag: Option<bool>)
    ensures
        flag == flag_in(*cell),
{
    match cell {
        Cell::Integer(number) => Some(*number != 0),
        _ => None,
    }
}

fn read_text(cell: &Cell) -> (text: Option<String>)
    ensures
        match text {
            Some(text) => text_in(*cell) == Some(text@),
            None => text_in(*cell) is None,
        },
{
    match cell {
        Cell::Text(bytes) => text_of_bytes(bytes),
        _ => None,
    }
}

/// What a count of changed rows says of a removal or a completion: the
/// task was hit if and only if a row changed.
pub fn was_changed(changed: usize) -> (hit: bool)
    ensures
        hit == (changed > 0),
{
    changed > 0
}

impl StoredTask {
    /// Reads the columns of one row of the table.
    pub fn from_row(row: &Vec<Cell>) -> (stored: Option<StoredTask>)
        ensures
            match stored {
                Some(stored) => stored_task(row@) == Some(stored@),
                None => stored_task(row@) is None,
            },
    {
        if row.len() < 4 {
            return None;
        }
        let id = match read_integer(&row[0]) {
            Some(id) => id,
            None => return None,
        };
        let description = match read_text(&row[1]) {
            Some(description) => description,
            None => return None,
        };
        let done = match read_flag(&row[2]) {
            Some(done) => done,
            None => return None,
        };
        let birth = match read_text(&row[3]) {
            Some(birth) => birth,
            None => return None,
        };
        Some(StoredTask { id, description, done, birth })
    }
}

impl Task {
    /// The task of stored columns whose creation time was read as `birth`;
    /// none where it could not be read.
    pub fn from_stored(stored: StoredTask, birth: Option<Timestamp>) -> (task: Option<Task>)
        ensures
            task_view_of(task) == task_of(stored@, moment_of(birth)),
    {
        match birth {
            Some(birth) => Some(
                Task { id: stored.id, description: stored.description, done: stored.done, birth },
            ),
            None => None,
        }
    }

    /// Decodes one row of the table. `None` marks a row that is passed
    /// over. A row that an insertion wrote is never passed over: it decodes
    /// to the task of its columns, born at the second of the insertion.
    pub fn from_row(row: &Vec<Cell>) -> (task: Option<Task>)
        ensures
            task_view_of(task) == decoded_row(row@),
            lists_what_was_written(row@, task_view_of(task)),
    {
        match StoredTask::from_row(row) {
            Some(stored) => {
                let birth = Timestamp::parse(stored.birth.as_str());
                let ghost read = moment_of(birth);
                let task = Task::from_stored(stored, birth);
                assert forall|moment: Moment|
                    valid_moment(moment) && #[trigger] written_at(row@, moment) implies task_view_of(
                    task,
                ) == task_of(stored_task(row@)->0, Some(whole_second(moment))) by {
                    assert(stored@.birth == stored_text(moment));
                    assert(read == Some(whole_second(moment)));
                }
                task
            },
            None => None,
        }
    }

    /// Decodes the rows of a query and keeps the tasks of those that
    /// decode, in the order of the rows.
    pub fn from_rows(rows: &Vec<Vec<Cell>>) -> (tasks: Vec<Task>)
        ensures
            task_views(tasks@) == listed_tasks(rows@),
    {
        let mut tasks: Vec<Task> = Vec::new();
        let mut next: usize = 0;
        assert(rows@.subrange(0, 0) =~= Seq::<Vec<Cell>>::empty());
        assert(task_views(tasks@) =~= Seq::<TaskView>::empty());
        while next < rows.len()
            invariant
                next <= rows.len(),
                task_views(tasks@) == listed_tasks(rows@.subrange(0, next as int)),
            decreases rows.len() - next,
        {
            let ghost shown = task_views(tasks@);
            proof {
                let longer = rows@.subrange(0, next + 1);
                assert(longer.drop_last() =~= rows@.subrange(0, next as int));
                assert(longer.last() == rows@[next as int]);
            }
            match Task::from_row(&rows[next]) {
                Some(task) => {
                    tasks.push(task);
                    assert(task_views(tasks@) =~= shown.push(task@));
                },
                None => {},
            }
            next = next + 1;
        }
        assert(rows@.subrange(0, rows.len() as int) =~= rows@);
        tasks
    }

    /// Makes sure that the table of tasks exists. Safe to call on every
    /// start: a table that is already there is left as it is.
    pub fn create_default(conn: &rusqlite::Connection) -> (created: Result<(), StorageFailure>)
        ensures
            created matches Err(failure) ==> failure@.context is None && is_storage_report(
                failure.detail,
            ),
    {
        match execute(conn, &create_table_statement()) {
            Ok(_) => Ok(()),
            Err(error) => Err(failure_of(&error)),
        }
    }

    /// Adds a task that is not done, born now, and returns the id that the
    /// store gave it.
    ///
    /// # Panics
    ///
    /// Panics where [`Timestamp::now`] does: the clock is read before the
    /// store is asked.
    pub fn add(conn: &rusqlite::Connection, description: String) -> (added: Result<
        i64,
        StorageFailure,
    >)
        ensures
            added matches Err(failure) ==> failure@.context is None && is_storage_report(
                failure.detail,
            ),
    {
        let birth = Timestamp::now().to_stored_text();
        match execute(conn, &insert_statement(description, birth)) {
            Ok(_) => Ok(last_insert_rowid(conn)),
            Err(error) => Err(failure_of(&error)),
        }
    }

    /// Every task in the store, done or not, in the order in which the
    /// store yields the rows. Rows that do not decode are passed over; a
    /// failure of the store, also one in the middle of the rows, fails the
    /// whole call.
    pub fn list(conn: &rusqlite::Connection) -> (listed: Result<Vec<Task>, StorageFailure>)
        ensures
            match listed {
                Ok(tasks) => exists|rows: Seq<Vec<Cell>>|
                    task_views(tasks@) == #[trigger] listed_tasks(rows),
                Err(failure) => failure@.context is None && is_storage_report(failure.detail),
            },
    {
        match fetch_rows(conn, SELECT_ALL_TASKS) {
            Ok(rows) => {
                let tasks = Task::from_rows(&rows);
                Ok(tasks)
            },
            Err(error) => Err(failure_of(&error)),
        }
    }

    /// Deletes the task with this id. `Ok(false)` says that there was no
    /// such task.
    pub fn remove(conn: &rusqlite::Connection, id: i64) -> (removed: Result<bool, StorageFailure>)
        ensures
            removed matches Err(failure) ==> failure@.context is None && is_storage_report(
                failure.detail,
            ),
    {
        match execute(conn, &delete_statement(id)) {
            Ok(changed) => Ok(was_changed(changed)),
            Err(error) => Err(failure_of(&error)),
        }
    }

    /// Marks the task with this id as done. `Ok(false)` says that there is
    /// no such task or that it was done already.
    pub fn mark_done(conn: &rusqlite::Connection, id: i64) -> (updated: Result<
        bool,
        StorageFailure,
    >)
        ensures
            updated matches Err(failure) ==> failure@.context is None && is_storage_report(
                failure.detail,
            ),
    {
        match execute(conn, &mark_done_statement(id)) {
            Ok(changed) => Ok(was_changed(changed)),
            Err(error) => Err(failure_of(&error)),
        }
    }
}

} // verus!
