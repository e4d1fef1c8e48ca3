use vstd::prelude::*;

use crate::history::{HistoryModel, edit_spec, undo_spec, redo_spec};

verus! {

/// A user edit from `a` to a different, non-empty `b` leaves `a` on top of the
/// undo stack and the redo stack empty.
pub proof fn edit_pushes_previous_text(h: HistoryModel, b: Seq<char>)
    requires
        b != h.text,
        b.len() > 0,
    ensures
        edit_spec(h, b).undo.len() > 0,
        edit_spec(h, b).undo.last() == h.text,
        edit_spec(h, b).redo.len() == 0,
{
}

/// After a user edit from `a` to a different, non-empty `b`, undo brings the
/// buffer back to `a`, and a redo after that brings it back to `b`: the pair
/// restores the state right after the edit.
pub proof fn undo_then_redo_restores_edit(h: HistoryModel, b: Seq<char>)
    requires
        b != h.text,
        b.len() > 0,
    ensures
        undo_spec(edit_spec(h, b)).text == h.text,
        redo_spec(undo_spec(edit_spec(h, b))).text == b,
        redo_spec(undo_spec(edit_spec(h, b))) == edit_spec(h, b),
{
    let e = edit_spec(h, b);
    assert(e.undo.drop_last() =~= h.undo);
    assert(undo_spec(e).redo.drop_last() =~= e.redo);
    assert(undo_spec(e).undo.push(h.text) =~= e.undo);
}

/// Edit `a` to `b`, undo back to `a`, then make a genuine new edit to `c`:
/// the redo history is gone and redo does nothing.
pub proof fn new_edit_discards_redo(h: HistoryModel, b: Seq<char>, c: Seq<char>)
    requires
        b != h.text,
        b.len() > 0,
        c != h.text,
    ensures
        edit_spec(undo_spec(edit_spec(h, b)), c).redo.len() == 0,
        redo_spec(edit_spec(undo_spec(edit_spec(h, b)), c)) == edit_spec(
            undo_spec(edit_spec(h, b)),
            c,
        ),
{
}

/// Editing a non-empty buffer down to the empty text clears both stacks, so
/// that undo and redo then do nothing.
pub proof fn emptying_buffer_clears_history(h: HistoryModel)
    requires
        h.text.len() > 0,
    ensures
        edit_spec(h, Seq::empty()).text.len() == 0,
        edit_spec(h, Seq::empty()).undo.len() == 0,
        edit_spec(h, Seq::empty()).redo.len() == 0,
        undo_spec(edit_spec(h, Seq::empty())) == edit_spec(h, Seq::empty()),
        redo_spec(edit_spec(h, Seq::empty())) == edit_spec(h, Seq::empty()),
{
}

/// Undo with an empty undo stack, and redo with an empty redo stack, leave the
/// buffer and both stacks as they were.
pub proof fn undo_redo_without_history_is_noop(h: HistoryModel)
    ensures
        h.undo.len() == 0 ==> undo_spec(h) == h,
        h.redo.len() == 0 ==> redo_spec(h) == h,
{
}

} // verus!
