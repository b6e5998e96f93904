//! Notes kept in one table of an SQLite database.

use vstd::prelude::*;
use crate::note::Note;
use crate::persistence::{NoteIterator, Search, Store};
use crate::rows::{
    advance, all_bindable, assigned_id, bindable, can_bind, id_args, insert_args, inserted_id,
    like_pattern_of, note_with_id, search_args, text_fits, update_args, wrote_one_row, Advance,
    BindArg, Column, Fetched, RowGetter, WriteReport,
};

verus! {

/// `sqlite3::Connection`: an open database. Nothing of it is visible here.
#[verifier::external_type_specification]
#[verifier::external_body]
pub struct ExConnection(sqlite3::Connection);

/// `sqlite3::Statement`: a compiled statement, which borrows its connection.
#[verifier::external_type_specification]
#[verifier::external_body]
pub struct ExStatement<'l>(sqlite3::Statement<'l>);

/// `sqlite3::Error`: what the engine reports when it fails. It is not read.
#[verifier::external_type_specification]
#[verifier::external_body]
pub struct ExError(sqlite3::Error);

pub const INIT_DB_SQL: &'static str =
    "CREATE TABLE IF NOT EXISTS notes(id INTEGER PRIMARY KEY, name TEXT, content TEXT, created DATETIME DEFAULT CURRENT_TIMESTAMP, last_updated DATETIME DEFAULT CURRENT_TIMESTAMP);";

pub const ALL_NOTES_SQL: &'static str =
    "SELECT id, name, content, created, last_updated FROM notes ORDER BY id;";

pub const NOTE_INSERT_SQL: &'static str = "INSERT INTO notes(name, content) VALUES(?, ?);";

pub const NOTE_UPDATE_SQL: &'static str = "UPDATE notes SET name=?, content=? WHERE id=?;";

pub const NOTE_BY_ID_SQL: &'static str =
    "SELECT id, name, content, created, last_updated FROM notes WHERE id=?;";

pub const NOTE_DELETE_SQL: &'static str = "DELETE FROM notes WHERE id = ?;";

pub const NOTE_SEARCH_SQL: &'static str =
    "SELECT id, name, content, created, last_updated FROM notes WHERE name LIKE ? OR content LIKE ? ORDER BY id;";

pub const CHANGES_SQL: &'static str = "SELECT changes();";

pub const LAST_ROWID_SQL: &'static str = "SELECT last_insert_rowid();";

/// The number of rows without a note that one call for the next note passes
/// over at most. A table has fewer rows than this.
pub const SKIP_LIMIT: u64 = 0xffff_ffff_ffff_ffff;

/// `sqlite3::open`: opens the database file at `path`, or makes it. It hands
/// the path on as a string that a zero character ends, and fails before it
/// asks the engine where the path holds one. Nothing else is claimed of the
/// outcome.
#[verifier::external_body]
fn open_connection(path: &str) -> (r: Result<sqlite3::Connection, sqlite3::Error>)
    ensures
        path@.contains('\0') ==> r is Err,
{
    sqlite3::open(path)
}

/// `sqlite3::Connection::execute`: runs `sql` and passes over its rows.
/// Nothing is claimed of the outcome.
#[verifier::external_body]
fn execute(db: &sqlite3::Connection, sql: &str) -> Result<(), sqlite3::Error> {
    db.execute(sql)
}

/// `sqlite3::Connection::prepare`: compiles `sql`. Nothing is claimed of the
/// outcome.
#[verifier::external_body]
fn prepare<'l>(db: &'l sqlite3::Connection, sql: &str) -> Result<
    sqlite3::Statement<'l>,
    sqlite3::Error,
> {
    db.prepare(sql)
}

/// `sqlite3::Statement::bind`: binds `arg` to parameter `i` of the statement.
/// Parameters are counted from 1, and the engine is told the length of a
/// text as a signed integer of 32 bits, so a text must be short enough for
/// that. Nothing is claimed of the outcome.
#[verifier::external_body]
fn bind_arg(statement: &mut sqlite3::Statement, i: usize, arg: &BindArg) -> Result<
    (),
    sqlite3::Error,
>
    requires
        i >= 1,
        bindable(*arg),
{
    match arg {
        BindArg::Integer(value) => statement.bind(i, *value),
        BindArg::Text(value) => statement.bind(i, value.as_str()),
    }
}

/// Where a statement stands after a step.
#[derive(Debug, Clone, Copy, PartialEq, Eq, Structural)]
pub enum StepState {
    /// At a row, which can be read.
    Row,
    /// At its end.
    Done,
}

/// `sqlite3::Statement::next`: steps the statement once. Nothing is claimed
/// of the outcome.
#[verifier::external_body]
fn step(statement: &mut sqlite3::Statement) -> Result<StepState, sqlite3::Error> {
    match statement.next()? {
        sqlite3::State::Row => Ok(StepState::Row),
        sqlite3::State::Done => Ok(StepState::Done),
    }
}

/// `sqlite3::Statement::columns`: the number of columns that the statement
/// selects. Nothing is claimed of it.
pub assume_specification<'l>[ sqlite3::Statement::<'l>::columns ](
    statement: &sqlite3::Statement<'l>,
) -> usize
;

/// `sqlite3::Statement::read` of a `sqlite3::Value`: the value in column `i`
/// of the row that the statement is at, by the kind that it has in that row.
/// Nothing is claimed of the outcome.
#[verifier::external_body]
fn read_column(statement: &sqlite3::Statement, i: usize) -> Result<Column, sqlite3::Error> {
    Ok(match statement.read::<sqlite3::Value>(i)? {
        sqlite3::Value::Binary(bytes) => Column::Blob(bytes),
        sqlite3::Value::Float(_) => Column::Real,
        sqlite3::Value::Integer(number) => Column::Integer(number),
        sqlite3::Value::String(text) => Column::Text(text),
        sqlite3::Value::Null => Column::Null,
    })
}

/// Why a store could not be opened.
#[derive(Debug, Clone, Copy, PartialEq, Eq, Structural)]
pub enum StoreFault {
    /// The database could not be opened.
    Open,
    /// The table of notes could not be made.
    CreateTable,
}

/// A statement and the values for its parameters, as the engine is to get
/// them.
#[derive(Debug)]
pub struct Request {
    /// The text of the statement.
    pub sql: &'static str,
    /// The values, in the order of the parameters.
    pub args: Vec<BindArg>,
}

/// What the engine is asked for the note under `id`.
pub fn get_request(id: isize) -> (request: Request)
    ensures
        request.sql@ == NOTE_BY_ID_SQL@,
        request.args@.len() == 1,
        request.args@[0] == BindArg::Integer(id as i64),
{
    Request { sql: NOTE_BY_ID_SQL, args: id_args(id) }
}

/// What the engine is asked to remove the note under `id`.
pub fn del_request(id: isize) -> (request: Request)
    ensures
        request.sql@ == NOTE_DELETE_SQL@,
        request.args@.len() == 1,
        request.args@[0] == BindArg::Integer(id as i64),
{
    Request { sql: NOTE_DELETE_SQL, args: id_args(id) }
}

/// What the engine is asked to keep `note`: to insert its name and content
/// if it has no id, and to update the name and content of the row under its
/// id if it has one.
pub fn put_request(note: &Note) -> (request: Request)
    ensures
        match note.id {
            Some(id) => {
                &&& request.sql@ == NOTE_UPDATE_SQL@
                &&& request.args@.len() == 3
                &&& request.args@[2] == BindArg::Integer(id as i64)
            },
            None => {
                &&& request.sql@ == NOTE_INSERT_SQL@
                &&& request.args@.len() == 2
            },
        },
        request.args@[0] matches BindArg::Text(t) && t@ == note@.name,
        request.args@[1] matches BindArg::Text(t) && t@ == note@.content,
{
    match note.id {
        Some(id) => Request {
            sql: NOTE_UPDATE_SQL,
            args: update_args(note.name.as_str(), note.content.as_str(), id),
        },
        None => Request {
            sql: NOTE_INSERT_SQL,
            args: insert_args(note.name.as_str(), note.content.as_str()),
        },
    }
}

/// What the engine is asked for the notes in whose name or content `pattern`
/// occurs.
pub fn search_request(pattern: &str) -> (request: Request)
    ensures
        request.sql@ == NOTE_SEARCH_SQL@,
        request.args@.len() == 2,
        request.args@[0] matches BindArg::Text(t) && t@ == like_pattern_of(pattern@),
        request.args@[1] matches BindArg::Text(t) && t@ == like_pattern_of(pattern@),
{
    Request { sql: NOTE_SEARCH_SQL, args: search_args(pattern) }
}

/// What the engine is asked for all notes.
pub fn all_request() -> (request: Request)
    ensures
        request.sql@ == ALL_NOTES_SQL@,
        request.args@.len() == 0,
{
    Request { sql: ALL_NOTES_SQL, args: Vec::new() }
}

/// Binds `args`, in their order, to the parameters of `statement`, and says
/// whether the engine took them all. Where there is none to bind the engine
/// is not asked.
fn bind_all(statement: &mut sqlite3::Statement, args: &Vec<BindArg>) -> (ok: bool)
    requires
        all_bindable(args@),
    ensures
        args@.len() == 0 ==> ok,
{
    let mut i: usize = 0;
    while i < args.len()
        invariant
            i <= args.len(),
            all_bindable(args@),
        decreases args.len() - i,
    {
        assert(bindable(args@[i as int]));
        match bind_arg(statement, i + 1, &args[i]) {
            Ok(()) => {},
            Err(_) => {
                return false;
            },
        }
        i = i + 1;
    }
    true
}

/// The statement `sql` with `args` bound to its parameters, unless one of
/// them cannot be bound or the engine refuses the statement or a value.
fn bound_statement<'l>(db: &'l sqlite3::Connection, sql: &str, args: &Vec<BindArg>) -> (r: Option<
    sqlite3::Statement<'l>,
>)
    ensures
        !all_bindable(args@) ==> r is None,
{
    if !can_bind(args) {
        return None;
    }
    match prepare(db, sql) {
        Ok(statement) => {
            let mut statement = statement;
            if bind_all(&mut statement, args) {
                Some(statement)
            } else {
                None
            }
        },
        Err(_) => None,
    }
}

/// The columns of the row that `statement` is at, each read by the kind
/// that it has in this row.
fn read_row(statement: &sqlite3::Statement) -> Option<Vec<Column>> {
    let count = statement.columns();
    let mut row: Vec<Column> = Vec::new();
    let mut i: usize = 0;
    while i < count
        invariant
            i <= count,
        decreases count - i,
    {
        match read_column(statement, i) {
            Ok(column) => {
                row.push(column);
            },
            Err(_) => {
                return None;
            },
        }
        i = i + 1;
    }
    Some(row)
}

/// Steps `statement` once and reads the row that it comes to, if any.
fn next_row(statement: &mut sqlite3::Statement) -> Fetched {
    match step(statement) {
        Ok(StepState::Row) => match read_row(statement) {
            Some(row) => Fetched::Row(row),
            None => Fetched::Fault,
        },
        Ok(StepState::Done) => Fetched::End,
        Err(_) => Fetched::Fault,
    }
}

/// The first row of `sql` with `args`, if the engine gives one.
fn first_row(db: &sqlite3::Connection, sql: &str, args: &Vec<BindArg>) -> Option<Vec<Column>> {
    match bound_statement(db, sql, args) {
        Some(statement) => {
            let mut statement = statement;
            match next_row(&mut statement) {
                Fetched::Row(row) => Some(row),
                _ => None,
            }
        },
        None => None,
    }
}

/// The integer that `sql` computes, if the engine gives it.
fn query_integer(db: &sqlite3::Connection, sql: &str) -> Option<i64> {
    let args: Vec<BindArg> = Vec::new();
    match first_row(db, sql, &args) {
        Some(row) => RowGetter::new(row).get_int(0),
        None => None,
    }
}

/// Whether `sql` with `args` ran to its end without giving a row.
fn run_to_end(db: &sqlite3::Connection, sql: &str, args: &Vec<BindArg>) -> (ok: bool)
    ensures
        !all_bindable(args@) ==> !ok,
{
    match bound_statement(db, sql, args) {
        Some(statement) => {
            let mut statement = statement;
            match step(&mut statement) {
                Ok(StepState::Done) => true,
                _ => false,
            }
        },
        None => false,
    }
}

/// Runs a statement that writes, and asks the engine how many rows it
/// changed.
fn run_write(db: &sqlite3::Connection, sql: &str, args: &Vec<BindArg>) -> (report: WriteReport)
    ensures
        !all_bindable(args@) ==> report == WriteReport::Fault,
{
    if run_to_end(db, sql, args) {
        match query_integer(db, CHANGES_SQL) {
            Some(changed) => WriteReport::Changed(changed),
            None => WriteReport::Fault,
        }
    } else {
        WriteReport::Fault
    }
}

/// Values that begin with two texts can all be bound only if both texts are
/// short enough.
proof fn lemma_texts_bound(args: Seq<BindArg>, name: Seq<char>, content: Seq<char>)
    requires
        args.len() >= 2,
        args[0] matches BindArg::Text(first) && first@ == name,
        args[1] matches BindArg::Text(second) && second@ == content,
    ensures
        all_bindable(args) ==> text_fits(name) && text_fits(content),
{
    if all_bindable(args) {
        assert(bindable(args[0]));
        assert(bindable(args[1]));
    }
}

/// The next row of `statement` that holds a note, as that note. Rows that
/// hold none are passed over. A fault of the engine ends the rows.
fn next_note_from_cursor(statement: &mut sqlite3::Statement) -> (r: Option<Note>)
    ensures
        r matches Some(note) ==> note@.id is Some,
{
    let mut skipped: u64 = 0;
    while skipped < SKIP_LIMIT
        invariant
            skipped <= SKIP_LIMIT,
        decreases SKIP_LIMIT - skipped,
    {
        match advance(next_row(statement)) {
            Advance::Yield(note) => {
                return Some(note);
            },
            Advance::Skip => {
                skipped = skipped + 1;
            },
            Advance::Stop => {
                return None;
            },
        }
    }
    None
}

/// The notes that a statement selects, one at a time.
pub struct SQLiteStoreIterator<'a> {
    cursor: Option<sqlite3::Statement<'a>>,
}

impl<'a> NoteIterator for SQLiteStoreIterator<'a> {
    /// The notes have come to their end once the statement is given up.
    closed spec fn ended(&self) -> bool {
        self.cursor is None
    }

    /// The next note that the statement selects. Rows that hold no note are
    /// passed over. After the last row, and after a fault of the engine,
    /// there is no next note, now or later.
    fn next(&mut self) -> (r: Option<Note>) {
        let found = match &mut self.cursor {
            Some(cursor) => next_note_from_cursor(cursor),
            None => None,
        };
        if found.is_none() {
            self.cursor = None;
        }
        found
    }
}

/// A store of notes in an SQLite database. It keeps what the engine reported
/// of its last write, so that what a write answers can be held against it.
pub struct SQLiteStore {
    db: sqlite3::Connection,
    last_report: WriteReport,
    last_rowid: Option<i64>,
}

impl SQLiteStore {
    /// What the last write came to, as the engine reported it. A store that
    /// has written nothing has changed no row.
    pub closed spec fn last_report(&self) -> WriteReport {
        self.last_report
    }

    /// The row id that the engine reported for the last insert, if that
    /// insert changed one row and the engine gave its row id.
    pub closed spec fn last_rowid(&self) -> Option<i64> {
        self.last_rowid
    }

    /// What the last write came to. It tells a fault of the engine from a
    /// write that found no row to change.
    pub fn last_write(&self) -> (report: WriteReport)
        ensures
            report == self.last_report(),
    {
        self.last_report
    }

    /// The row id that the engine reported for the last insert.
    pub fn last_insert_rowid(&self) -> (rowid: Option<i64>)
        ensures
            rowid == self.last_rowid(),
    {
        self.last_rowid
    }

    /// Opens the database at `path`, or makes it, and makes the table of
    /// notes if it is not there yet. A path that holds a zero character names
    /// no file, and no database is opened for it.
    pub fn open(path: &str) -> (r: Result<SQLiteStore, StoreFault>)
        ensures
            path@.contains('\0') ==> r == Err::<SQLiteStore, StoreFault>(StoreFault::Open),
            r matches Ok(store) ==> store.last_report() == WriteReport::Changed(0)
                && store.last_rowid() is None,
    {
        match open_connection(path) {
            Ok(db) => match execute(&db, INIT_DB_SQL) {
                Ok(()) => Ok(
                    SQLiteStore { db: db, last_report: WriteReport::Changed(0), last_rowid: None },
                ),
                Err(_) => Err(StoreFault::CreateTable),
            },
            Err(_) => Err(StoreFault::Open),
        }
    }

    /// Removes a note that is kept, and takes its id from it. A note without
    /// an id is not kept: nothing is removed and the engine is not asked. A
    /// note with an id was removed if the engine reports one changed row.
    pub fn del_note(&mut self, note: &mut Note) -> (removed: bool)
        ensures
            final(note)@.id is None,
            final(note)@.name == old(note)@.name,
            final(note)@.content == old(note)@.content,
            old(note)@.id is None ==> !removed,
            old(note)@.id is None ==> final(self).last_report() == old(self).last_report(),
            old(note)@.id is Some ==> removed == (final(self).last_report()
                == WriteReport::Changed(1)),
            final(self).last_rowid() == old(self).last_rowid(),
    {
        match note.id {
            Some(id) => {
                note.id = None;
                self.del(id)
            },
            None => false,
        }
    }
}

impl<'a> Search<'a> for SQLiteStore {
    type OutputIter = SQLiteStoreIterator<'a>;

    /// A pattern that is too long to be bound, once it is wrapped in its
    /// wildcards, finds nothing.
    fn search(&'a mut self, pattern: &str) -> (r: SQLiteStoreIterator<'a>)
        ensures
            !text_fits(like_pattern_of(pattern@)) ==> r.ended(),
    {
        let request = search_request(pattern);
        proof {
            lemma_texts_bound(
                request.args@,
                like_pattern_of(pattern@),
                like_pattern_of(pattern@),
            );
        }
        SQLiteStoreIterator { cursor: bound_statement(&self.db, request.sql, &request.args) }
    }
}

impl<'a> Store<'a> for SQLiteStore {
    type OutputIter = SQLiteStoreIterator<'a>;

    /// Asking for a note is no write: what the last write came to stays.
    fn get(&mut self, id: isize) -> (r: Option<Note>)
        ensures
            final(self).last_report() == old(self).last_report(),
            final(self).last_rowid() == old(self).last_rowid(),
    {
        let request = get_request(id);
        match first_row(&self.db, request.sql, &request.args) {
            Some(row) => note_with_id(id, row),
            None => None,
        }
    }

    /// A note whose name or content is too long to be bound is not kept.
    /// A note that has an id was kept if the engine reports one changed row.
    /// A note that has none was kept if the engine reports one changed row
    /// and gives a row id that an id can hold, and that row id is then its id.
    fn put(&mut self, note: &mut Note) -> (ok: bool)
        ensures
            !(text_fits(old(note)@.name) && text_fits(old(note)@.content)) ==> !ok,
            !(text_fits(old(note)@.name) && text_fits(old(note)@.content))
                ==> final(self).last_report() == WriteReport::Fault,
            old(note)@.id is Some ==> ok == (final(self).last_report() == WriteReport::Changed(1)),
            old(note)@.id is Some ==> final(self).last_rowid() == old(self).last_rowid(),
            old(note)@.id is None ==> match assigned_id(
                final(self).last_report(),
                final(self).last_rowid(),
            ) {
                Some(id) => ok && final(note)@.id == Some(id),
                None => !ok,
            },
    {
        let request = put_request(note);
        proof {
            lemma_texts_bound(request.args@, note@.name, note@.content);
        }
        let report = run_write(&self.db, request.sql, &request.args);
        self.last_report = report;
        match note.id {
            Some(_) => wrote_one_row(report),
            None => {
                let rowid = if wrote_one_row(report) {
                    query_integer(&self.db, LAST_ROWID_SQL)
                } else {
                    None
                };
                self.last_rowid = rowid;
                match inserted_id(report, rowid) {
                    Some(id) => {
                        note.id = Some(id);
                        true
                    },
                    None => false,
                }
            },
        }
    }

    /// A note was removed if the engine reports one changed row.
    fn del(&mut self, id: isize) -> (ok: bool)
        ensures
            ok == (final(self).last_report() == WriteReport::Changed(1)),
            final(self).last_rowid() == old(self).last_rowid(),
    {
        let request = del_request(id);
        let report = run_write(&self.db, request.sql, &request.args);
        self.last_report = report;
        wrote_one_row(report)
    }

    fn all(&'a mut self) -> SQLiteStoreIterator<'a> {
        let request = all_request();
        SQLiteStoreIterator { cursor: bound_statement(&self.db, request.sql, &request.args) }
    }
}

} // verus!
