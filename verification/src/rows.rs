//! Rows of the notes table as plain values, and what the store concludes
//! from what the database engine reports.

use vstd::prelude::*;
use vstd::string::*;
use vstd::utf8::encode_utf8;
use crate::note::Note;

verus! {

/// A value that is bound to a parameter of a statement.
#[derive(Debug)]
pub enum BindArg {
    Integer(i64),
    Text(String),
}

/// The most bytes that a text bound to a statement may have: the engine is
/// told the length of a text as a signed integer of 32 bits.
pub const MAX_TEXT_BYTES: usize = 0x7fff_ffff;

/// A text that is short enough to be bound.
pub open spec fn text_fits(text: Seq<char>) -> bool {
    encode_utf8(text).len() <= MAX_TEXT_BYTES
}

/// A value that can be bound: an integer, or a text that is short enough.
pub open spec fn bindable(arg: BindArg) -> bool {
    match arg {
        BindArg::Integer(_) => true,
        BindArg::Text(text) => text_fits(text@),
    }
}

/// Every one of `args` can be bound.
pub open spec fn all_bindable(args: Seq<BindArg>) -> bool {
    forall|i: int| 0 <= i < args.len() ==> bindable(#[trigger] args[i])
}

/// Whether every one of `args` can be bound.
pub fn can_bind(args: &Vec<BindArg>) -> (ok: bool)
    ensures
        ok == all_bindable(args@),
{
    let mut i: usize = 0;
    while i < args.len()
        invariant
            i <= args.len(),
            forall|j: int| 0 <= j < i ==> bindable(#[trigger] args@[j]),
        decreases args.len() - i,
    {
        match &args[i] {
            BindArg::Integer(_) => {},
            BindArg::Text(text) => {
                if text.as_str().as_bytes().len() > MAX_TEXT_BYTES {
                    assert(!bindable(args@[i as int]));
                    return false;
                }
            },
        }
        i = i + 1;
    }
    true
}

/// A value that was read from a column of a row. Of a floating-point value
/// only its kind is kept: no column of a note holds one.
#[derive(Debug)]
pub enum Column {
    Null,
    Integer(i64),
    Real,
    Text(String),
    Blob(Vec<u8>),
}

/// The position of the id among the columns that the store selects.
pub const ID_COLUMN: usize = 0;

/// The position of the name.
pub const NAME_COLUMN: usize = 1;

/// The position of the content.
pub const CONTENT_COLUMN: usize = 2;

/// The integer in column `i` of `row`, if the row has that column and it
/// holds an integer.
pub open spec fn int_at(row: Seq<Column>, i: int) -> Option<int> {
    if 0 <= i < row.len() {
        match row[i] {
            Column::Integer(v) => Some(v as int),
            _ => None,
        }
    } else {
        None
    }
}

/// The text in column `i` of `row`, if the row has that column and it holds
/// text.
pub open spec fn text_at(row: Seq<Column>, i: int) -> Option<Seq<char>> {
    if 0 <= i < row.len() {
        match row[i] {
            Column::Text(s) => Some(s@),
            _ => None,
        }
    } else {
        None
    }
}

/// The bytes in column `i` of `row`, if the row has that column and it holds
/// a blob.
pub open spec fn blob_at(row: Seq<Column>, i: int) -> Option<Seq<u8>> {
    if 0 <= i < row.len() {
        match row[i] {
            Column::Blob(b) => Some(b@),
            _ => None,
        }
    } else {
        None
    }
}

/// An integer of the database as an id, if an id can hold it.
pub open spec fn id_of(v: int) -> Option<int> {
    if isize::MIN <= v <= isize::MAX {
        Some(v)
    } else {
        None
    }
}

/// The id, name and content of the note that `row` holds, if it holds one: an
/// integer that an id can hold, then two texts.
pub open spec fn note_in_row(row: Seq<Column>) -> Option<(int, Seq<char>, Seq<char>)> {
    match (int_at(row, ID_COLUMN as int), text_at(row, NAME_COLUMN as int), text_at(
        row,
        CONTENT_COLUMN as int,
    )) {
        (Some(v), Some(name), Some(content)) => match id_of(v) {
            Some(id) => Some((id, name, content)),
            None => None,
        },
        _ => None,
    }
}

/// An integer of the database as an id, if an id can hold it.
pub fn row_id(v: i64) -> (id: Option<isize>)
    ensures
        match id_of(v as int) {
            Some(i) => id is Some && id->0 == i,
            None => id is None,
        },
{
    if v >= isize::MIN as i64 && v <= isize::MAX as i64 {
        Some(v as isize)
    } else {
        None
    }
}

/// Reads the columns of one row by their position.
pub struct RowGetter {
    row: Vec<Column>,
}

impl View for RowGetter {
    type V = Seq<Column>;

    closed spec fn view(&self) -> Seq<Column> {
        self.row@
    }
}

impl RowGetter {
    /// Takes the row to read from.
    pub fn new(row: Vec<Column>) -> (getter: RowGetter)
        ensures
            getter@ == row@,
    {
        RowGetter { row: row }
    }

    /// The integer in column `i`.
    pub fn get_int(&self, i: usize) -> (r: Option<i64>)
        ensures
            match int_at(self@, i as int) {
                Some(v) => r is Some && r->0 == v,
                None => r is None,
            },
    {
        if i < self.row.len() {
            match &self.row[i] {
                Column::Integer(val) => Some(*val),
                _ => None,
            }
        } else {
            None
        }
    }

    /// The text in column `i`.
    pub fn get_text(&self, i: usize) -> (r: Option<String>)
        ensures
            match text_at(self@, i as int) {
                Some(s) => r is Some && r->0@ == s,
                None => r is None,
            },
    {
        if i < self.row.len() {
            match &self.row[i] {
                Column::Text(val) => Some(val.clone()),
                _ => None,
            }
        } else {
            None
        }
    }

    /// The bytes in column `i`.
    pub fn get_blob(&self, i: usize) -> (r: Option<Vec<u8>>)
        ensures
            match blob_at(self@, i as int) {
                Some(b) => r is Some && r->0@ == b,
                None => r is None,
            },
    {
        if i < self.row.len() {
            match &self.row[i] {
                Column::Blob(blob) => Some(blob.clone()),
                _ => None,
            }
        } else {
            None
        }
    }
}

/// The note that a row of the notes table holds. A row that lacks one of the
/// three columns, or holds another kind of value in one, holds no note.
pub fn note_from_row(row: Vec<Column>) -> (r: Option<Note>)
    ensures
        match note_in_row(row@) {
            Some((id, name, content)) => r matches Some(note) && note@.id == Some(id)
                && note@.name == name && note@.content == content,
            None => r is None,
        },
{
    let getter = RowGetter::new(row);
    let id = match getter.get_int(ID_COLUMN) {
        Some(v) => match row_id(v) {
            Some(id) => id,
            None => {
                return None;
            },
        },
        None => {
            return None;
        },
    };
    let name = match getter.get_text(NAME_COLUMN) {
        Some(name) => name,
        None => {
            return None;
        },
    };
    let content = match getter.get_text(CONTENT_COLUMN) {
        Some(content) => content,
        None => {
            return None;
        },
    };
    Some(Note { id: Some(id), name: name, content: content })
}

/// The note of `row` if it is the one that was asked for by `id`.
pub fn note_with_id(id: isize, row: Vec<Column>) -> (r: Option<Note>)
    ensures
        match note_in_row(row@) {
            Some((found, name, content)) => if found == id {
                r matches Some(note) && note@.id == Some(id as int) && note@.name == name
                    && note@.content == content
            } else {
                r is None
            },
            None => r is None,
        },
{
    match note_from_row(row) {
        Some(note) => {
            let same = match note.id {
                Some(found) => found == id,
                None => false,
            };
            if same {
                Some(note)
            } else {
                None
            }
        },
        None => None,
    }
}

/// What running a statement that writes came to.
#[derive(Debug, Clone, Copy, PartialEq, Eq, Structural)]
pub enum WriteReport {
    /// The engine refused the statement or failed while running it.
    Fault,
    /// The statement ran and changed this many rows.
    Changed(i64),
}

/// A write of one note succeeded if it ran and changed exactly one row.
pub fn wrote_one_row(report: WriteReport) -> (ok: bool)
    ensures
        ok == (report == WriteReport::Changed(1)),
{
    match report {
        WriteReport::Changed(n) => n == 1,
        WriteReport::Fault => false,
    }
}

/// The id that an insert gave to a note, from what the write came to and
/// from the row id that the engine reports for it: the write must have
/// changed one row, and the row id must be one that an id can hold.
pub open spec fn assigned_id(report: WriteReport, rowid: Option<i64>) -> Option<int> {
    if report == WriteReport::Changed(1) && rowid is Some {
        id_of(rowid->0 as int)
    } else {
        None
    }
}

/// The id that an insert gave to a note, if it gave one.
pub fn inserted_id(report: WriteReport, rowid: Option<i64>) -> (id: Option<isize>)
    ensures
        match assigned_id(report, rowid) {
            Some(i) => id is Some && id->0 == i,
            None => id is None,
        },
{
    if wrote_one_row(report) {
        match rowid {
            Some(v) => row_id(v),
            None => None,
        }
    } else {
        None
    }
}

/// The pattern that matches every text in which `pattern` occurs: `pattern`
/// between two percent signs.
pub open spec fn like_pattern_of(pattern: Seq<char>) -> Seq<char> {
    seq!['%'] + pattern + seq!['%']
}

/// Wraps `pattern` in the wildcards that let it match anywhere in a text.
pub fn like_pattern(pattern: &str) -> (wrapped: String)
    ensures
        wrapped@ == like_pattern_of(pattern@),
{
    let mut pattern_string = String::new();
    pattern_string.push('%');
    pattern_string.append(pattern);
    pattern_string.push('%');
    assert(pattern_string@ == like_pattern_of(pattern@));
    pattern_string
}

/// The value for a statement that finds a note by its id.
pub fn id_args(id: isize) -> (args: Vec<BindArg>)
    ensures
        args@.len() == 1,
        args@[0] == BindArg::Integer(id as i64),
{
    let mut args: Vec<BindArg> = Vec::new();
    args.push(BindArg::Integer(id as i64));
    args
}

/// The values for a statement that keeps a new note: its name, then its
/// content.
pub fn insert_args(name: &str, content: &str) -> (args: Vec<BindArg>)
    ensures
        args@.len() == 2,
        args@[0] matches BindArg::Text(t) && t@ == name@,
        args@[1] matches BindArg::Text(t) && t@ == content@,
{
    let mut args: Vec<BindArg> = Vec::new();
    args.push(BindArg::Text(name.to_owned()));
    args.push(BindArg::Text(content.to_owned()));
    args
}

/// The values for a statement that keeps a note in place of the one under
/// `id`: the name, then the content, then the id.
pub fn update_args(name: &str, content: &str, id: isize) -> (args: Vec<BindArg>)
    ensures
        args@.len() == 3,
        args@[0] matches BindArg::Text(t) && t@ == name@,
        args@[1] matches BindArg::Text(t) && t@ == content@,
        args@[2] == BindArg::Integer(id as i64),
{
    let mut args: Vec<BindArg> = Vec::new();
    args.push(BindArg::Text(name.to_owned()));
    args.push(BindArg::Text(content.to_owned()));
    args.push(BindArg::Integer(id as i64));
    args
}

/// The values for a statement that finds notes by `pattern`: the pattern in
/// its wildcards, once for the name and once for the content.
pub fn search_args(pattern: &str) -> (args: Vec<BindArg>)
    ensures
        args@.len() == 2,
        args@[0] matches BindArg::Text(t) && t@ == like_pattern_of(pattern@),
        args@[1] matches BindArg::Text(t) && t@ == like_pattern_of(pattern@),
{
    let mut args: Vec<BindArg> = Vec::new();
    args.push(BindArg::Text(like_pattern(pattern)));
    args.push(BindArg::Text(like_pattern(pattern)));
    args
}

/// What a step of a statement that selects came to.
#[derive(Debug)]
pub enum Fetched {
    /// The next row.
    Row(Vec<Column>),
    /// There is no further row.
    End,
    /// The engine failed.
    Fault,
}

/// What a store does with what a step came to, when it is asked for the next
/// note.
#[derive(Debug)]
pub enum Advance {
    /// This note is the next one.
    Yield(Note),
    /// The row holds no note: it is passed over and the next row is tried.
    Skip,
    /// There is no next note.
    Stop,
}

/// Decides what to do with what a step came to. A row that holds a note
/// gives that note. A row that holds none is passed over, so that the notes
/// after it still come. The end of the rows, and a fault of the engine, end
/// the notes.
pub fn advance(fetched: Fetched) -> (a: Advance)
    ensures
        match fetched {
            Fetched::Row(row) => match note_in_row(row@) {
                Some((id, name, content)) => a matches Advance::Yield(note) && note@.id == Some(id)
                    && note@.name == name && note@.content == content,
                None => a is Skip,
            },
            Fetched::End => a is Stop,
            Fetched::Fault => a is Stop,
        },
{
    match fetched {
        Fetched::Row(row) => match note_from_row(row) {
            Some(note) => Advance::Yield(note),
            None => Advance::Skip,
        },
        Fetched::End => Advance::Stop,
        Fetched::Fault => Advance::Stop,
    }
}

} // verus!
