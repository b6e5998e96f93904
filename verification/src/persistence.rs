//! What a place that keeps notes offers, whatever it keeps them in.

use vstd::prelude::*;
use crate::note::Note;

verus! {

/// Notes that come one at a time from a store. While one of these is open
/// the store it came from is borrowed and can do nothing else.
pub trait NoteIterator {
    /// Whether the notes have come to their end.
    spec fn ended(&self) -> bool;

    /// The next note, or `None` once there is none left. Every note that
    /// comes from a store has an id. When no note comes the notes have come
    /// to their end, and after their end none comes any more.
    fn next(&mut self) -> (r: Option<Note>)
        ensures
            r matches Some(note) ==> note@.id is Some,
            r is None ==> final(self).ended(),
            old(self).ended() ==> r is None,
    ;
}

/// Keeps notes, each under its id.
pub trait Store<'a> {
    type OutputIter: NoteIterator + 'a;

    /// The note that is kept under `id`, if there is one. That there is none
    /// is no fault.
    fn get(&mut self, id: isize) -> (r: Option<Note>)
        ensures
            r matches Some(note) ==> note@.id == Some(id as int),
    ;

    /// Keeps `note`: as a new note if it has no id, which it then gets; in
    /// place of the one kept under its id if it has one. Says whether that
    /// was done. The name and the content are never changed, nor an id that
    /// the note has, and a note that was not kept is left as it was.
    fn put(&mut self, note: &mut Note) -> (ok: bool)
        ensures
            final(note)@.name == old(note)@.name,
            final(note)@.content == old(note)@.content,
            old(note)@.id is Some || !ok ==> final(note)@.id == old(note)@.id,
            ok ==> final(note)@.id is Some,
    ;

    /// Removes the note that is kept under `id`, and says whether one was
    /// removed.
    fn del(&mut self, id: isize) -> bool;

    /// All notes, by ascending id.
    fn all(&'a mut self) -> Self::OutputIter;
}

/// Finds notes by what they hold.
pub trait Search<'a> {
    type OutputIter: NoteIterator + 'a;

    /// The notes in whose name or content `pattern` occurs, by ascending id.
    fn search(&'a mut self, pattern: &str) -> Self::OutputIter;
}

} // verus!
