use vstd::prelude::*;

use crate::history::{EditHistory, edit_spec, redo_spec, undo_spec};

verus! {

/// The application's name, the first words of every window title.
pub const APP_NAME: &'static str = "Rusty Notepad";

/// The stored window title for a document at `path`, if it has one.
pub open spec fn window_title_spec(path: Option<Seq<char>>) -> Seq<char> {
    match path {
        Some(p) => APP_NAME@ + " "@ + p,
        None => APP_NAME@,
    }
}

/// The text shown in the title bar for a document at `path`, if it has one.
pub open spec fn title_bar_spec(path: Option<Seq<char>>) -> Seq<char> {
    match path {
        Some(p) => APP_NAME@ + " ("@ + p + ")"@,
        None => APP_NAME@,
    }
}

/// The characters of an optional path.
pub open spec fn path_view(path: Option<String>) -> Option<Seq<char>> {
    match path {
        Some(p) => Some(p@),
        None => None,
    }
}

/// One open document: its buffer and history, the file it belongs to, and
/// the window title derived from that file.
pub struct NotepadState {
    pub history: EditHistory,
    pub current_file_path: Option<String>,
    pub window_title: String,
}

/// Records `path` as the document's file and sets the window title from it.
pub fn set_current_file(data: &mut NotepadState, path: Option<String>)
    ensures
        final(data).history == old(data).history,
        final(data).current_file_path == path,
        final(data).window_title@ == window_title_spec(path_view(path)),
{
    match path {
        Some(p) => {
            let mut title = String::from_str(APP_NAME);
            title.append(" ");
            title.append(p.as_str());
            data.window_title = title;
            data.current_file_path = Some(p);
        },
        None => {
            data.window_title = String::from_str(APP_NAME);
            data.current_file_path = None;
        },
    }
}

impl NotepadState {
    /// An empty, untitled document with no history.
    pub fn new() -> (r: NotepadState)
        ensures
            r.history@.text == Seq::<char>::empty(),
            r.history@.undo == Seq::<Seq<char>>::empty(),
            r.history@.redo == Seq::<Seq<char>>::empty(),
            r.current_file_path == None::<String>,
            r.window_title@ == APP_NAME@,
    {
        NotepadState {
            history: EditHistory::new(),
            current_file_path: None,
            window_title: String::from_str(APP_NAME),
        }
    }

    /// Text for the window's title bar.
    pub fn title_bar_text(&self) -> (r: String)
        ensures
            r@ == title_bar_spec(path_view(self.current_file_path)),
    {
        match &self.current_file_path {
            Some(p) => {
                let mut title = String::from_str(APP_NAME);
                title.append(" (");
                title.append(p.as_str());
                title.append(")");
                title
            },
            None => String::from_str(APP_NAME),
        }
    }

    /// Starts a new, empty, untitled document. Its history starts empty too.
    pub fn new_document(&mut self)
        ensures
            final(self).history@.text == Seq::<char>::empty(),
            final(self).history@.undo == Seq::<Seq<char>>::empty(),
            final(self).history@.redo == Seq::<Seq<char>>::empty(),
            final(self).current_file_path == None::<String>,
            final(self).window_title@ == APP_NAME@,
    {
        self.history.set_current_text(String::new());
        set_current_file(self, None);
    }

    /// Replaces the document with `text`, read from the file at `path`.
    /// Loading is not an undoable edit: the previous document's history is
    /// dropped.
    pub fn open_document(&mut self, text: String, path: String)
        ensures
            final(self).history@.text == text@,
            final(self).history@.undo == Seq::<Seq<char>>::empty(),
            final(self).history@.redo == Seq::<Seq<char>>::empty(),
            final(self).current_file_path == Some(path),
            final(self).window_title@ == window_title_spec(Some(path@)),
    {
        self.history.set_current_text(text);
        set_current_file(self, Some(path));
    }
}

/// An editing command bound to a key combination.
#[derive(Clone, Copy, Debug, PartialEq, Eq, Structural)]
pub enum EditCommand {
    Undo,
    Redo,
}

/// The command bound to a key press: Ctrl+Z undoes, Ctrl+Y redoes.
pub open spec fn command_spec(ctrl: bool, key: Seq<char>) -> Option<EditCommand> {
    if ctrl && key == seq!['z'] {
        Some(EditCommand::Undo)
    } else if ctrl && key == seq!['y'] {
        Some(EditCommand::Redo)
    } else {
        None
    }
}

/// Routes key presses to undo and redo, and observes the buffer's changes.
pub struct KeyController;

impl KeyController {
    /// The command that a key press with the given Ctrl state and key text
    /// stands for, if any.
    pub fn command_for(&self, ctrl: bool, key: &str) -> (r: Option<EditCommand>)
        ensures
            r == command_spec(ctrl, key@),
    {
        if !ctrl || key.unicode_len() != 1 {
            return None;
        }
        let c = key.get_char(0);
        if c == 'z' {
            assert(key@ =~= seq!['z']);
            Some(EditCommand::Undo)
        } else if c == 'y' {
            assert(key@ =~= seq!['y']);
            Some(EditCommand::Redo)
        } else {
            assert(key@ != seq!['z'] && key@ != seq!['y']) by {
                assert(seq!['z'][0] == 'z');
                assert(seq!['y'][0] == 'y');
            }
            None
        }
    }

    /// Handles a key press: runs the bound command on the document, if any,
    /// and returns it.
    pub fn event(&self, ctrl: bool, key: &str, data: &mut NotepadState) -> (r: Option<EditCommand>)
        ensures
            r == command_spec(ctrl, key@),
            final(data).current_file_path == old(data).current_file_path,
            final(data).window_title == old(data).window_title,
            final(data).history@ == match r {
                Some(EditCommand::Undo) => undo_spec(old(data).history@),
                Some(EditCommand::Redo) => redo_spec(old(data).history@),
                None => old(data).history@,
            },
    {
        let command = self.command_for(ctrl, key);
        match command {
            Some(EditCommand::Undo) => data.history.undo(),
            Some(EditCommand::Redo) => data.history.redo(),
            None => {},
        }
        command
    }

    /// Observes the buffer's content after an input event: when it differs
    /// from the document's buffer, the difference is a user edit.
    pub fn update(&self, new_text: String, data: &mut NotepadState)
        ensures
            final(data).current_file_path == old(data).current_file_path,
            final(data).window_title == old(data).window_title,
            final(data).history@ == edit_spec(old(data).history@, new_text@),
    {
        data.history.on_user_edit(new_text);
    }
}

} // verus!
