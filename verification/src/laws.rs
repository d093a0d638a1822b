//! Guarantees that span several operations, stated once and proved
//! against the spec transitions the executable functions are pinned to.

use vstd::prelude::*;

use crate::engine::any_selected;
use crate::engine::clipboard_with_action;
use crate::engine::cursor_step_down;
use crate::engine::cursor_step_up;
use crate::engine::enter_directory_model;
use crate::engine::nav_down_model;
use crate::engine::nav_up_model;
use crate::engine::paste_plan_model;
use crate::engine::return_to_parent_model;
use crate::engine::set_clipboard_entries_model;
use crate::model::cursor_in_bounds;
use crate::model::Action;
use crate::model::InteractionMode;
use crate::model::StateModel;
use crate::ops::create_plan_model;
use crate::paths::spec_basename;
use crate::paths::spec_join;

verus! {

/// One cursor move, as driven by the `j`/`k` keys.
pub enum NavMove {
    Down,
    Up,
}

/// The cursor after a whole sequence of moves over a listing of fixed
/// length.
pub open spec fn cursor_after_moves(len: nat, cursor: Option<usize>, moves: Seq<NavMove>) -> Option<
    usize,
>
    decreases moves.len(),
{
    if moves.len() == 0 {
        cursor
    } else {
        let stepped = match moves[0] {
            NavMove::Down => cursor_step_down(len, cursor),
            NavMove::Up => cursor_step_up(len, cursor),
        };
        cursor_after_moves(len, stepped, moves.subrange(1, moves.len() as int))
    }
}

/// Cursor bounds: one step in either direction lands inside a
/// non-empty listing.
pub proof fn lemma_cursor_step_in_bounds(len: nat, cursor: Option<usize>)
    requires
        len > 0,
        cursor_in_bounds(cursor, len),
    ensures
        cursor_in_bounds(cursor_step_down(len, cursor), len),
        cursor_in_bounds(cursor_step_up(len, cursor), len),
{
}

/// Cursor bounds: after any sequence of up and down moves over a
/// non-empty listing the cursor still rests on a valid index.
pub proof fn lemma_cursor_bounds_after_any_moves(
    len: nat,
    cursor: Option<usize>,
    moves: Seq<NavMove>,
)
    requires
        len > 0,
        cursor_in_bounds(cursor, len),
    ensures
        cursor_in_bounds(cursor_after_moves(len, cursor, moves), len),
    decreases moves.len(),
{
    if moves.len() > 0 {
        lemma_cursor_step_in_bounds(len, cursor);
        let stepped = match moves[0] {
            NavMove::Down => cursor_step_down(len, cursor),
            NavMove::Up => cursor_step_up(len, cursor),
        };
        lemma_cursor_bounds_after_any_moves(len, stepped, moves.subrange(1, moves.len() as int));
    }
}

/// Cursor wrapping: a step down from the last entry lands on the
/// first, and a step up from the first lands on the last.
pub proof fn lemma_cursor_wraps(len: nat)
    requires
        0 < len <= usize::MAX,
    ensures
        cursor_step_down(len, Some((len - 1) as usize)) == Some(0usize),
        cursor_step_up(len, Some(0usize)) == Some((len - 1) as usize),
{
}

/// The navigation transitions keep the state well-formed: they never
/// change the listing's length and land the cursor inside it.
pub proof fn lemma_nav_preserves_wf(m: StateModel)
    requires
        m.wf(),
    ensures
        nav_down_model(m).wf(),
        nav_up_model(m).wf(),
{
}

/// The state after a whole sequence of cursor moves.
pub open spec fn nav_state_after_moves(m: StateModel, moves: Seq<NavMove>) -> StateModel
    decreases moves.len(),
{
    if moves.len() == 0 {
        m
    } else {
        let stepped = match moves[0] {
            NavMove::Down => nav_down_model(m),
            NavMove::Up => nav_up_model(m),
        };
        nav_state_after_moves(stepped, moves.subrange(1, moves.len() as int))
    }
}

/// Cursor bounds over whole walks: any sequence of up and down moves
/// over a non-empty listing leaves the listing's length unchanged and
/// the cursor on a valid index.
pub proof fn lemma_wf_after_any_navigation(m: StateModel, moves: Seq<NavMove>)
    requires
        m.wf(),
        m.entries.len() > 0,
    ensures
        nav_state_after_moves(m, moves).entries.len() == m.entries.len(),
        nav_state_after_moves(m, moves).wf(),
    decreases moves.len(),
{
    if moves.len() > 0 {
        lemma_nav_preserves_wf(m);
        let stepped = match moves[0] {
            NavMove::Down => nav_down_model(m),
            NavMove::Up => nav_up_model(m),
        };
        lemma_wf_after_any_navigation(stepped, moves.subrange(1, moves.len() as int));
    }
}

/// Round-trip navigation: descending into a child directory and going
/// back up restores both the current path and the cursor, whatever the
/// two listings returned — provided the child's listing named the
/// directory we came from as its parent, which the snapshot provider
/// guarantees.
pub proof fn lemma_navigation_round_trip(
    m: StateModel,
    child_path: Seq<char>,
    snap_down: crate::engine::SnapModel,
    snap_up: crate::engine::SnapModel,
)
    requires
        snap_down.parent_path == Some(m.current_path),
    ensures
        ({
            let down = enter_directory_model(m, child_path, snap_down);
            let back = return_to_parent_model(down, snap_up);
            back.current_path == m.current_path && back.cursor == m.cursor
        }),
{
}

/// Clipboard auto-select: arming a copy in normal mode with nothing
/// flagged snapshots exactly the path of the entry under the cursor,
/// and the armed action survives.
pub proof fn lemma_clipboard_auto_select(m: StateModel, action: Action)
    requires
        m.mode == InteractionMode::Normal,
        !any_selected(m.entries),
        m.cursor is Some,
        (m.cursor.unwrap() as nat) < m.entries.len(),
    ensures
        ({
            let after = set_clipboard_entries_model(clipboard_with_action(m, action));
            after.clipboard.paths =~= seq![m.entries[m.cursor.unwrap() as int].path]
                && after.clipboard.action == action
        }),
{
}

/// Create planning depends on the current directory and the typed
/// input alone: an identical second request replans exactly the same
/// intermediate directory and target, so its intermediate step runs
/// the same idempotent create against the same path.
pub proof fn lemma_create_plan_repeatable(m1: StateModel, m2: StateModel, input: Seq<char>)
    requires
        m1.current_path == m2.current_path,
    ensures
        create_plan_model(m1.current_path, input) == create_plan_model(m2.current_path, input),
{
}

/// A single-source paste plans exactly one transfer: the clipboard
/// path, bound for `current_path/basename(source)`.
pub proof fn lemma_paste_single_source(m: StateModel)
    requires
        m.clipboard.paths.len() == 1,
    ensures
        paste_plan_model(m).len() == 1,
        paste_plan_model(m)[0].src == m.clipboard.paths[0],
        paste_plan_model(m)[0].dst == spec_join(
            m.current_path,
            spec_basename(m.clipboard.paths[0]),
        ),
{
}

} // verus!
