//! A single-document plain-text editor core: the buffer, its undo and redo
//! history, and the small amount of document state around it.
mod history;
pub mod laws;
mod notepad;

pub use history::{
    ChangeKind, EditHistory, HistoryModel, edit_spec, record_spec, redo_spec, snapshots, undo_spec,
};
pub use notepad::{
    APP_NAME, EditCommand, KeyController, NotepadState, command_spec, path_view, set_current_file,
    title_bar_spec, window_title_spec,
};
