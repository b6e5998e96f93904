//! The note entity and its mathematical view.

use vstd::prelude::*;
use vstd::string::*;
use crate::decimal::{int_text, push_int};
use crate::markdown::{markdown_of, to_markdown};

verus! {

/// What a note is, as plain mathematical values.
pub struct NoteView {
    /// The row the note is stored in, if it has been stored.
    pub id: Option<int>,
    /// The title.
    pub name: Seq<char>,
    /// The body.
    pub content: Seq<char>,
}

/// A titled text note. A note without an id has not been stored yet.
#[derive(Debug)]
pub struct Note {
    pub id: Option<isize>,
    pub name: String,
    pub content: String,
}

impl View for Note {
    type V = NoteView;

    open spec fn view(&self) -> NoteView {
        NoteView {
            id: match self.id {
                Some(i) => Some(i as int),
                None => None,
            },
            name: self.name@,
            content: self.content@,
        }
    }
}

/// How a note is shown: its id and a full stop, or `[unsaved]` where it has
/// none, then a space, the name, and the content on the lines after it.
pub open spec fn display_of(note: NoteView) -> Seq<char> {
    (match note.id {
        Some(id) => int_text(id) + ". "@,
        None => "[unsaved] "@,
    }) + note.name.push('\n') + note.content
}

impl Note {
    /// Builds a note from its parts. Nothing is validated: an empty name and an
    /// empty content are both accepted.
    pub fn new(id: Option<isize>, name: &str, content: &str) -> (note: Note)
        ensures
            note.id == id,
            note.name@ == name@,
            note.content@ == content@,
    {
        Note { id: id, name: name.to_owned(), content: content.to_owned() }
    }

    /// The textual form of the note, for editing. It does not hold the id.
    pub fn as_markdown(&self) -> (text: String)
        ensures
            text@ == markdown_of(self.name@, self.content@),
    {
        to_markdown(self.name.as_str(), self.content.as_str())
    }

    /// The note as it is shown to a reader.
    pub fn to_string(&self) -> (text: String)
        ensures
            text@ == display_of(self@),
    {
        let mut ret = String::new();
        match self.id {
            Some(id) => {
                push_int(&mut ret, id);
                ret.append(". ");
            },
            None => {
                ret.append("[unsaved] ");
            },
        }
        ret.append(self.name.as_str());
        ret.push('\n');
        ret.append(self.content.as_str());
        assert(ret@ == display_of(self@));
        ret
    }

    /// A second note with the same id, name and content.
    pub fn duplicate(&self) -> (copy: Note)
        ensures
            copy@ == self@,
    {
        Note::new(self.id, self.name.as_str(), self.content.as_str())
    }
}

} // verus!
