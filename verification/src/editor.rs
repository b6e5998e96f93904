//! Editing a note in the user's editor.
//!
//! The note is written to a temporary file in its textual form, the editor is
//! run on that file, and the file is read back as a note that keeps the id of
//! the one that was edited. The file is removed whatever happened. This module
//! decides each step; the caller performs it and reports what came of it.

use rand::Rng;
use vstd::prelude::*;
use vstd::string::*;
use crate::markdown::{lemma_parse_markdown, markdown_of, no_cr_before_lf, parse_note, parsed};
use crate::lines::strip_cr;
use crate::note::{Note, NoteView};

verus! {

/// What the environment says about the terminal and the editor to use.
#[derive(Debug)]
pub struct EditorConfig {
    /// The terminal type (`TERM`), if it is set.
    pub term: Option<String>,
    /// The editor for capable terminals (`VISUAL`), if it is set.
    pub visual: Option<String>,
    /// The editor for any terminal (`EDITOR`), if it is set.
    pub editor: Option<String>,
}

/// The text that an optional string holds.
pub open spec fn text_of(s: Option<String>) -> Option<Seq<char>> {
    match s {
        Some(s) => Some(s@),
        None => None,
    }
}

/// A terminal of type `dumb`, or of no known type, cannot run a visual editor.
pub open spec fn terminal_is_dumb(term: Option<Seq<char>>) -> bool {
    match term {
        Some(t) => t == "dumb"@,
        None => true,
    }
}

/// The editor command: the visual editor if the terminal can run one and one
/// is set; otherwise the plain editor if one is set; otherwise `vi`.
pub open spec fn resolved_editor(
    term: Option<Seq<char>>,
    visual: Option<Seq<char>>,
    editor: Option<Seq<char>>,
) -> Seq<char> {
    if !terminal_is_dumb(term) && visual is Some {
        visual->0
    } else if editor is Some {
        editor->0
    } else {
        "vi"@
    }
}

/// Picks the editor command.
pub fn get_editor(config: &EditorConfig) -> (command: String)
    ensures
        command@ == resolved_editor(
            text_of(config.term),
            text_of(config.visual),
            text_of(config.editor),
        ),
{
    let terminal_is_dumb = match &config.term {
        Some(val) => *val == "dumb".to_owned(),
        None => true,
    };
    if !terminal_is_dumb {
        match &config.visual {
            Some(name) => {
                return name.clone();
            },
            None => {},
        }
    }
    match &config.editor {
        Some(name) => {
            return name.clone();
        },
        None => {},
    }
    "vi".to_owned()
}

/// The number of characters in the name of a temporary file.
pub const TMP_NAME_LEN: usize = 10;

/// An ASCII letter or digit.
pub open spec fn is_ascii_alphanumeric(c: char) -> bool {
    ||| '0' <= c <= '9'
    ||| 'a' <= c <= 'z'
    ||| 'A' <= c <= 'Z'
}

/// A name that a temporary file may have.
pub open spec fn is_tmp_name(name: Seq<char>) -> bool {
    &&& name.len() == TMP_NAME_LEN
    &&& forall|i: int| 0 <= i < name.len() ==> is_ascii_alphanumeric(#[trigger] name[i])
}

/// Draws `len` characters from `rand::thread_rng().gen_ascii_chars()`. Each
/// character that this generator yields is taken from the ASCII letters and
/// digits; which ones come is left open.
#[verifier::external_body]
fn random_ascii_chars(len: usize) -> (name: String)
    ensures
        name@.len() == len,
        forall|i: int| 0 <= i < name@.len() ==> is_ascii_alphanumeric(#[trigger] name@[i]),
{
    rand::thread_rng().gen_ascii_chars().take(len).collect()
}

/// A fresh random name for a temporary file.
pub fn tmp_file_name() -> (name: String)
    ensures
        is_tmp_name(name@),
{
    random_ascii_chars(TMP_NAME_LEN)
}

/// The step of an edit that failed.
#[derive(Debug, Clone, Copy, PartialEq, Eq, Structural)]
pub enum EditorFault {
    /// The temporary file could not be created or written.
    WriteFile,
    /// The editor could not be started.
    LaunchEditor,
    /// The temporary file could not be read after editing.
    ReadFile,
    /// The temporary file holds no note: it is empty.
    ParseNote,
}

/// What the caller reports after it has performed a step.
#[derive(Debug)]
pub enum EditEvent {
    /// Whether the temporary file was written.
    Written(bool),
    /// The editor ran, and exited with this status if it has one.
    Exited(Option<i32>),
    /// The editor could not be started.
    LaunchFailed,
    /// What the temporary file holds, if it could be read.
    Read(Option<String>),
    /// The temporary file was removed, or was not there.
    Removed,
}

/// What the caller is to do next.
#[derive(Debug)]
pub enum EditAction {
    /// Write this text to the temporary file.
    WriteFile { text: String },
    /// Run this command on the temporary file, with the caller's terminal,
    /// and wait for it to exit.
    RunEditor { command: String },
    /// Read the temporary file.
    ReadFile,
    /// Remove the temporary file.
    RemoveFile,
    /// The edit is over, with this result.
    Finish(Result<Note, EditorFault>),
}

/// How far an edit has come.
#[derive(Debug)]
pub enum EditPhase {
    /// The temporary file is being written.
    Writing,
    /// The editor is running.
    Editing,
    /// The temporary file is being read back.
    Reading,
    /// The result is known and the temporary file is being removed.
    Removing(Result<Note, EditorFault>),
    /// The edit is over.
    Finished(Result<Note, EditorFault>),
}

/// An event as plain values.
pub enum EditEventView {
    Written(bool),
    Exited(Option<i32>),
    LaunchFailed,
    Read(Option<Seq<char>>),
    Removed,
}

/// An action as plain values.
pub enum EditActionView {
    WriteFile { text: Seq<char> },
    RunEditor { command: Seq<char> },
    ReadFile,
    RemoveFile,
    Finish(Result<NoteView, EditorFault>),
}

/// A phase as plain values.
pub enum EditPhaseView {
    Writing,
    Editing,
    Reading,
    Removing(Result<NoteView, EditorFault>),
    Finished(Result<NoteView, EditorFault>),
}

/// An edit as plain values.
pub struct EditSessionView {
    /// The id of the note that is edited.
    pub id: Option<int>,
    /// The editor command.
    pub command: Seq<char>,
    /// The name of the temporary file.
    pub file_name: Seq<char>,
    /// How far the edit has come.
    pub phase: EditPhaseView,
    /// The status that the editor exited with, once it has, if it has one.
    pub exit_status: Option<i32>,
}

/// A result as plain values.
pub open spec fn outcome_view(r: Result<Note, EditorFault>) -> Result<NoteView, EditorFault> {
    match r {
        Ok(note) => Ok(note@),
        Err(fault) => Err(fault),
    }
}

impl View for EditEvent {
    type V = EditEventView;

    open spec fn view(&self) -> EditEventView {
        match *self {
            EditEvent::Written(ok) => EditEventView::Written(ok),
            EditEvent::Exited(status) => EditEventView::Exited(status),
            EditEvent::LaunchFailed => EditEventView::LaunchFailed,
            EditEvent::Read(text) => EditEventView::Read(text_of(text)),
            EditEvent::Removed => EditEventView::Removed,
        }
    }
}

impl View for EditAction {
    type V = EditActionView;

    open spec fn view(&self) -> EditActionView {
        match *self {
            EditAction::WriteFile { text } => EditActionView::WriteFile { text: text@ },
            EditAction::RunEditor { command } => EditActionView::RunEditor { command: command@ },
            EditAction::ReadFile => EditActionView::ReadFile,
            EditAction::RemoveFile => EditActionView::RemoveFile,
            EditAction::Finish(r) => EditActionView::Finish(outcome_view(r)),
        }
    }
}

impl View for EditPhase {
    type V = EditPhaseView;

    open spec fn view(&self) -> EditPhaseView {
        match *self {
            EditPhase::Writing => EditPhaseView::Writing,
            EditPhase::Editing => EditPhaseView::Editing,
            EditPhase::Reading => EditPhaseView::Reading,
            EditPhase::Removing(r) => EditPhaseView::Removing(outcome_view(r)),
            EditPhase::Finished(r) => EditPhaseView::Finished(outcome_view(r)),
        }
    }
}

/// What reading `text` back gives for the note with this id: the note that
/// the text holds, under this id, or the fault that it holds none.
pub open spec fn reparsed(id: Option<int>, text: Seq<char>) -> Result<NoteView, EditorFault> {
    match parsed(text) {
        Some((name, content)) => Ok(NoteView { id: id, name: name, content: content }),
        None => Err(EditorFault::ParseNote),
    }
}

/// The phase and the action that follow when `event` is reported in `s`.
/// A report that does not answer the step that was asked for counts as the
/// failure of that step. Every failure leads to the removal of the file.
pub open spec fn next(s: EditSessionView, event: EditEventView) -> (EditSessionView, EditActionView) {
    match s.phase {
        EditPhaseView::Writing => match event {
            EditEventView::Written(true) => (
                EditSessionView { phase: EditPhaseView::Editing, ..s },
                EditActionView::RunEditor { command: s.command },
            ),
            _ => (
                EditSessionView { phase: EditPhaseView::Removing(Err(EditorFault::WriteFile)), ..s },
                EditActionView::RemoveFile,
            ),
        },
        EditPhaseView::Editing => match event {
            EditEventView::Exited(status) => (
                EditSessionView { phase: EditPhaseView::Reading, exit_status: status, ..s },
                EditActionView::ReadFile,
            ),
            _ => (
                EditSessionView {
                    phase: EditPhaseView::Removing(Err(EditorFault::LaunchEditor)),
                    ..s
                },
                EditActionView::RemoveFile,
            ),
        },
        EditPhaseView::Reading => match event {
            EditEventView::Read(Some(text)) => (
                EditSessionView { phase: EditPhaseView::Removing(reparsed(s.id, text)), ..s },
                EditActionView::RemoveFile,
            ),
            _ => (
                EditSessionView { phase: EditPhaseView::Removing(Err(EditorFault::ReadFile)), ..s },
                EditActionView::RemoveFile,
            ),
        },
        EditPhaseView::Removing(outcome) => (
            EditSessionView { phase: EditPhaseView::Finished(outcome), ..s },
            EditActionView::Finish(outcome),
        ),
        EditPhaseView::Finished(outcome) => (s, EditActionView::Finish(outcome)),
    }
}

/// The number of steps that are still to come in a phase, at most.
pub open spec fn steps_left(phase: EditPhaseView) -> nat {
    match phase {
        EditPhaseView::Writing => 4,
        EditPhaseView::Editing => 3,
        EditPhaseView::Reading => 2,
        EditPhaseView::Removing(_) => 1,
        EditPhaseView::Finished(_) => 0,
    }
}

/// A note that results from an edit has the id of the note that was edited.
pub open spec fn keeps_identity(s: EditSessionView) -> bool {
    match s.phase {
        EditPhaseView::Removing(Ok(note)) => note.id == s.id,
        EditPhaseView::Finished(Ok(note)) => note.id == s.id,
        _ => true,
    }
}

/// Reads `text` back as the note with this id.
pub fn reparse_note(id: Option<isize>, text: &str) -> (r: Result<Note, EditorFault>)
    ensures
        outcome_view(r) == reparsed(
            match id {
                Some(i) => Some(i as int),
                None => None,
            },
            text@,
        ),
        r is Ok <==> text@.len() > 0,
{
    match parse_note(text) {
        Some(new_note) => {
            let mut new_note = new_note;
            new_note.id = id;
            Ok(new_note)
        },
        None => Err(EditorFault::ParseNote),
    }
}

/// One edit of one note, from the writing of the temporary file to the result.
#[derive(Debug)]
pub struct EditSession {
    id: Option<isize>,
    command: String,
    file_name: String,
    phase: EditPhase,
    exit_status: Option<i32>,
}

impl View for EditSession {
    type V = EditSessionView;

    closed spec fn view(&self) -> EditSessionView {
        EditSessionView {
            id: match self.id {
                Some(i) => Some(i as int),
                None => None,
            },
            command: self.command@,
            file_name: self.file_name@,
            phase: self.phase@,
            exit_status: self.exit_status,
        }
    }
}

impl EditSession {
    #[verifier::type_invariant]
    spec fn identity_kept(self) -> bool {
        keeps_identity(self@)
    }

    /// Begins the edit of `note` with the editor that `config` asks for. The
    /// first action is to write the note's textual form to the temporary
    /// file, which gets a fresh random name.
    pub fn start(note: &Note, config: &EditorConfig) -> (r: (EditSession, EditAction))
        ensures
            r.0@.id == note@.id,
            r.0@.command == resolved_editor(
                text_of(config.term),
                text_of(config.visual),
                text_of(config.editor),
            ),
            is_tmp_name(r.0@.file_name),
            r.0@.phase == EditPhaseView::Writing,
            r.0@.exit_status is None,
            r.1@ == (EditActionView::WriteFile { text: markdown_of(note@.name, note@.content) }),
    {
        let session = EditSession {
            id: note.id,
            command: get_editor(config),
            file_name: tmp_file_name(),
            phase: EditPhase::Writing,
            exit_status: None,
        };
        (session, EditAction::WriteFile { text: note.as_markdown() })
    }

    /// Takes the report on the step that was asked for, and says what is to be
    /// done next.
    pub fn step(self, event: EditEvent) -> (r: (EditSession, EditAction))
        ensures
            (r.0@, r.1@) == next(self@, event@),
            keeps_identity(self@),
            keeps_identity(r.0@),
    {
        proof {
            use_type_invariant(&self);
        }
        let EditSession { id, command, file_name, phase, exit_status } = self;
        match phase {
            EditPhase::Writing => match event {
                EditEvent::Written(true) => {
                    let run = EditAction::RunEditor { command: command.clone() };
                    (
                        EditSession { id, command, file_name, phase: EditPhase::Editing, exit_status },
                        run,
                    )
                },
                _ => (
                    EditSession {
                        id,
                        command,
                        file_name,
                        phase: EditPhase::Removing(Err(EditorFault::WriteFile)),
                        exit_status,
                    },
                    EditAction::RemoveFile,
                ),
            },
            EditPhase::Editing => match event {
                EditEvent::Exited(status) => (
                    EditSession {
                        id,
                        command,
                        file_name,
                        phase: EditPhase::Reading,
                        exit_status: status,
                    },
                    EditAction::ReadFile,
                ),
                _ => (
                    EditSession {
                        id,
                        command,
                        file_name,
                        phase: EditPhase::Removing(Err(EditorFault::LaunchEditor)),
                        exit_status,
                    },
                    EditAction::RemoveFile,
                ),
            },
            EditPhase::Reading => match event {
                EditEvent::Read(Some(text)) => {
                    let outcome = reparse_note(id, text.as_str());
                    (
                        EditSession {
                            id,
                            command,
                            file_name,
                            phase: EditPhase::Removing(outcome),
                            exit_status,
                        },
                        EditAction::RemoveFile,
                    )
                },
                _ => (
                    EditSession {
                        id,
                        command,
                        file_name,
                        phase: EditPhase::Removing(Err(EditorFault::ReadFile)),
                        exit_status,
                    },
                    EditAction::RemoveFile,
                ),
            },
            EditPhase::Removing(outcome) => {
                let kept = copy_outcome(&outcome);
                (
                    EditSession {
                        id,
                        command,
                        file_name,
                        phase: EditPhase::Finished(kept),
                        exit_status,
                    },
                    EditAction::Finish(outcome),
                )
            },
            EditPhase::Finished(outcome) => {
                let kept = copy_outcome(&outcome);
                (
                    EditSession {
                        id,
                        command,
                        file_name,
                        phase: EditPhase::Finished(kept),
                        exit_status,
                    },
                    EditAction::Finish(outcome),
                )
            },
        }
    }

    /// The name of the temporary file, without its directory.
    pub fn file_name(&self) -> (name: &str)
        ensures
            name@ == self@.file_name,
    {
        self.file_name.as_str()
    }

    /// The editor command.
    pub fn command(&self) -> (command: &str)
        ensures
            command@ == self@.command,
    {
        self.command.as_str()
    }

    /// The status that the editor exited with, once it has, if it has one.
    pub fn exit_status(&self) -> (status: Option<i32>)
        ensures
            status == self@.exit_status,
    {
        self.exit_status
    }

    /// Whether the edit is over.
    pub fn is_finished(&self) -> (finished: bool)
        ensures
            finished == (self@.phase is Finished),
    {
        match &self.phase {
            EditPhase::Finished(_) => true,
            _ => false,
        }
    }
}

/// A second result with the same fault, or with a note that holds the same.
fn copy_outcome(outcome: &Result<Note, EditorFault>) -> (copy: Result<Note, EditorFault>)
    ensures
        outcome_view(copy) == outcome_view(*outcome),
{
    match outcome {
        Ok(note) => Ok(note.duplicate()),
        Err(fault) => Err(*fault),
    }
}

/// The result is given out only when the removal of the temporary file has
/// been asked for: an edit finishes from the removing phase alone, and that
/// phase is entered with the action to remove the file.
pub proof fn lemma_file_removed_before_finish(s: EditSessionView, event: EditEventView)
    ensures
        next(s, event).1 is Finish ==> s.phase is Removing || s.phase is Finished,
        next(s, event).0.phase is Finished ==> s.phase is Removing || s.phase is Finished,
        next(s, event).0.phase is Removing ==> next(s, event).1 is RemoveFile,
        next(s, event).1 is RemoveFile ==> next(s, event).0.phase is Removing,
{
}

/// An edit has no loops: each report brings it one phase nearer to its end,
/// whatever is reported, and an edit that is over stays as it is.
pub proof fn lemma_edit_advances(s: EditSessionView, event: EditEventView)
    ensures
        !(s.phase is Finished) ==> steps_left(next(s, event).0.phase) < steps_left(s.phase),
        s.phase is Finished ==> next(s, event).0 == s,
{
}

/// The note that an edit results in has the id of the note that was edited,
/// and the id, the command and the file name of an edit never change.
pub proof fn lemma_edit_keeps_identity(s: EditSessionView, event: EditEventView)
    requires
        keeps_identity(s),
    ensures
        keeps_identity(next(s, event).0),
        next(s, event).0.id == s.id,
        next(s, event).0.command == s.command,
        next(s, event).0.file_name == s.file_name,
        next(s, event).1 matches EditActionView::Finish(Ok(note)) ==> note.id == s.id,
{
}

/// A failed step is named in the result: from each phase, the report that the
/// step failed leads to the removal of the file with the fault of that step.
pub proof fn lemma_fault_names_step(s: EditSessionView)
    ensures
        s.phase is Writing ==> next(s, EditEventView::Written(false)).0.phase
            == EditPhaseView::Removing(Err(EditorFault::WriteFile)),
        s.phase is Editing ==> next(s, EditEventView::LaunchFailed).0.phase
            == EditPhaseView::Removing(Err(EditorFault::LaunchEditor)),
        s.phase is Reading ==> next(s, EditEventView::Read(None)).0.phase
            == EditPhaseView::Removing(Err(EditorFault::ReadFile)),
        s.phase is Reading ==> next(s, EditEventView::Read(Some(Seq::empty()))).0.phase
            == EditPhaseView::Removing(Err(EditorFault::ParseNote)),
{
    crate::markdown::lemma_lines_empty(Seq::empty());
}

/// An editor that changes nothing gives the note back under its id, with the
/// line feed that ends the text at the end of its content, whatever status
/// the editor exits with. This holds where the name is one line and no
/// carriage return in the content stands before a line feed or at its end.
pub proof fn lemma_unchanged_edit(s: EditSessionView, note: NoteView, status: Option<i32>)
    requires
        s.phase is Writing,
        s.id == note.id,
        !note.name.contains('\n'),
        strip_cr(note.name) == note.name,
        no_cr_before_lf(note.content.push('\n')),
    ensures
        ({
            let text = markdown_of(note.name, note.content);
            let s1 = next(s, EditEventView::Written(true)).0;
            let s2 = next(s1, EditEventView::Exited(status)).0;
            let s3 = next(s2, EditEventView::Read(Some(text))).0;
            next(s3, EditEventView::Removed).1 == EditActionView::Finish(
                Ok(NoteView { id: note.id, name: note.name, content: note.content.push('\n') }),
            )
        }),
{
    lemma_parse_markdown(note.name, note.content);
}

} // verus!
