use vstd::prelude::*;

verus! {

/// Why the buffer changed: a genuine edit by the user, or the replay of a
/// snapshot by `undo` or `redo`.
#[derive(Clone, Copy, Debug, PartialEq, Eq, Structural)]
pub enum ChangeKind {
    UserEdit,
    UndoReplay,
    RedoReplay,
}

/// The abstract state of an `EditHistory`: the buffer, and the two stacks of
/// whole-buffer snapshots, each with its most recent entry last.
pub struct HistoryModel {
    pub text: Seq<char>,
    pub undo: Seq<Seq<char>>,
    pub redo: Seq<Seq<char>>,
}

/// The character sequences held by a stack of strings, bottom first.
pub open spec fn snapshots(v: Seq<String>) -> Seq<Seq<char>> {
    v.map_values(|s: String| s@)
}

/// What a change notification does to the stacks; the buffer is left alone.
/// A replay is consumed without effect. A user edit that empties the buffer
/// clears both stacks; any other user edit pushes the previous text and drops
/// the redo history.
pub open spec fn record_spec(
    h: HistoryModel,
    old_text: Seq<char>,
    new_text: Seq<char>,
    kind: ChangeKind,
) -> HistoryModel {
    if kind != ChangeKind::UserEdit {
        h
    } else if new_text.len() == 0 {
        HistoryModel { text: h.text, undo: Seq::empty(), redo: Seq::empty() }
    } else {
        HistoryModel { text: h.text, undo: h.undo.push(old_text), redo: Seq::empty() }
    }
}

/// The buffer becomes `new_text` by a user edit; nothing happens when the text
/// does not change.
pub open spec fn edit_spec(h: HistoryModel, new_text: Seq<char>) -> HistoryModel {
    if new_text == h.text {
        h
    } else {
        record_spec(
            HistoryModel { text: new_text, undo: h.undo, redo: h.redo },
            h.text,
            new_text,
            ChangeKind::UserEdit,
        )
    }
}

/// Undo: restore the most recent snapshot and keep the text being left for redo.
pub open spec fn undo_spec(h: HistoryModel) -> HistoryModel {
    if h.undo.len() == 0 {
        h
    } else {
        HistoryModel { text: h.undo.last(), undo: h.undo.drop_last(), redo: h.redo.push(h.text) }
    }
}

/// Redo: restore the most recently undone text and keep the text being left
/// for undo.
pub open spec fn redo_spec(h: HistoryModel) -> HistoryModel {
    if h.redo.len() == 0 {
        h
    } else {
        HistoryModel { text: h.redo.last(), undo: h.undo.push(h.text), redo: h.redo.drop_last() }
    }
}

/// The live buffer together with its linear undo/redo history.
pub struct EditHistory {
    text: String,
    undo_stack: Vec<String>,
    redo_stack: Vec<String>,
}

impl View for EditHistory {
    type V = HistoryModel;

    closed spec fn view(&self) -> HistoryModel {
        HistoryModel {
            text: self.text@,
            undo: snapshots(self.undo_stack@),
            redo: snapshots(self.redo_stack@),
        }
    }
}

impl EditHistory {
    /// An empty buffer with no history.
    pub fn new() -> (r: EditHistory)
        ensures
            r@.text == Seq::<char>::empty(),
            r@.undo == Seq::<Seq<char>>::empty(),
            r@.redo == Seq::<Seq<char>>::empty(),
    {
        let r = EditHistory { text: String::new(), undo_stack: Vec::new(), redo_stack: Vec::new() };
        assert(snapshots(r.undo_stack@) =~= Seq::<Seq<char>>::empty());
        assert(snapshots(r.redo_stack@) =~= Seq::<Seq<char>>::empty());
        r
    }

    /// The classification step of the change observer: applies one change
    /// notification from `old_text` to `new_text` to the two stacks.
    pub fn record_if_needed(&mut self, old_text: &String, new_text: &String, kind: ChangeKind)
        ensures
            final(self)@ == record_spec(old(self)@, old_text@, new_text@, kind),
    {
        match kind {
            ChangeKind::UserEdit => {
                if new_text.as_str().is_empty() {
                    self.undo_stack.clear();
                    self.redo_stack.clear();
                    assert(snapshots(self.undo_stack@) =~= Seq::<Seq<char>>::empty());
                    assert(snapshots(self.redo_stack@) =~= Seq::<Seq<char>>::empty());
                } else {
                    let ghost before = self.undo_stack@;
                    self.undo_stack.push(old_text.clone());
                    self.redo_stack.clear();
                    assert(snapshots(self.undo_stack@) =~= snapshots(before).push(old_text@));
                    assert(snapshots(self.redo_stack@) =~= Seq::<Seq<char>>::empty());
                }
            },
            ChangeKind::UndoReplay | ChangeKind::RedoReplay => {},
        }
    }
    /// The current buffer.
    pub fn current_text(&self) -> (r: &String)
        ensures
            r@ == self@.text,
    {
        &self.text
    }

    /// The undo stack, oldest snapshot first.
    pub fn undo_snapshots(&self) -> (r: &Vec<String>)
        ensures
            snapshots(r@) == self@.undo,
    {
        &self.undo_stack
    }

    /// The redo stack, oldest snapshot first.
    pub fn redo_snapshots(&self) -> (r: &Vec<String>)
        ensures
            snapshots(r@) == self@.redo,
    {
        &self.redo_stack
    }

    /// Whether `undo` would change anything.
    pub fn can_undo(&self) -> (r: bool)
        ensures
            r == (self@.undo.len() > 0),
    {
        self.undo_stack.len() > 0
    }

    /// Whether `redo` would change anything.
    pub fn can_redo(&self) -> (r: bool)
        ensures
            r == (self@.redo.len() > 0),
    {
        self.redo_stack.len() > 0
    }

    /// Replaces the whole document, as opening a file or starting a new one
    /// does. This is not an undoable edit: the history of the previous
    /// document is dropped with it.
    pub fn set_current_text(&mut self, text: String)
        ensures
            final(self)@.text == text@,
            final(self)@.undo == Seq::<Seq<char>>::empty(),
            final(self)@.redo == Seq::<Seq<char>>::empty(),
    {
        self.text = text;
        self.undo_stack.clear();
        self.redo_stack.clear();
        assert(snapshots(self.undo_stack@) =~= Seq::<Seq<char>>::empty());
        assert(snapshots(self.redo_stack@) =~= Seq::<Seq<char>>::empty());
    }

    /// The user changed the buffer to `new_text`. A change that leaves the
    /// text as it was is not observed at all.
    pub fn on_user_edit(&mut self, new_text: String)
        ensures
            final(self)@ == edit_spec(old(self)@, new_text@),
    {
        if new_text == self.text {
            return;
        }
        let current = new_text.clone();
        let mut previous = new_text;
        std::mem::swap(&mut self.text, &mut previous);
        self.record_if_needed(&previous, &current, ChangeKind::UserEdit);
    }

    /// Steps back to the most recent snapshot; does nothing when there is none.
    /// The text being left goes onto the redo stack. The buffer change made
    /// here is a replay, so it records nothing.
    pub fn undo(&mut self)
        ensures
            final(self)@ == undo_spec(old(self)@),
    {
        let ghost before = self.redo_stack@;
        match self.undo_stack.pop() {
            None => {},
            Some(snapshot) => {
                let mut previous = snapshot;
                std::mem::swap(&mut self.text, &mut previous);
                self.redo_stack.push(previous);
                assert(snapshots(before).push(old(self)@.text) =~= snapshots(self.redo_stack@));
                assert(self@.undo =~= old(self)@.undo.drop_last());
            },
        }
    }

    /// Steps forward to the most recently undone text; does nothing when there
    /// is none. The text being left goes onto the undo stack. The buffer change
    /// made here is a replay, so it records nothing.
    pub fn redo(&mut self)
        ensures
            final(self)@ == redo_spec(old(self)@),
    {
        let ghost before = self.undo_stack@;
        match self.redo_stack.pop() {
            None => {},
            Some(snapshot) => {
                let mut previous = snapshot;
                std::mem::swap(&mut self.text, &mut previous);
                self.undo_stack.push(previous);
                assert(snapshots(before).push(old(self)@.text) =~= snapshots(self.undo_stack@));
                assert(self@.redo =~= old(self)@.redo.drop_last());
            },
        }
    }
}

} // verus!
