//! What holds of windows that are raised because the cursor moved over them, and
//! of the focus that follows the mouse.
use crate::ids::{SpaceId, SpaceWindow, WindowId, WindowServerId};
use crate::laws::activation::is_managed;
use crate::reactor::mouse::Stacking;
use crate::reactor::ReactorView;
use crate::requests::{EventTapRequest, TaskView};
use crate::surroundings::Surroundings;
use crate::table::lookup;
use vstd::prelude::*;

verus! {

/// A sheet or a drawer that is tracked belongs to the window.
pub open spec fn has_sheet(state: ReactorView, stacking: Stacking, wsid: WindowServerId) -> bool {
    &&& stacking.associated_windows@.contains(wsid)
    &&& lookup(state.window_ids, wsid) matches Some(child) && (lookup(state.windows, child) matches Some(known) && (
    known.ax_role matches Some(role) && (role@ == "AXSheet"@ || role@ == "AXDrawer"@)))
}

/// The window at `i` is in front of `candidate`, floats inside its frame, and is
/// on its level.
pub open spec fn floats_in_front(
    state: ReactorView,
    candidate: WindowServerId,
    stacking: Stacking,
    env: Surroundings,
    i: int,
) -> bool {
    let order = stacking.front_to_back@;
    &&& 0 <= i < order.len()
    &&& forall|j: int| 0 <= j <= i ==> #[trigger] order[j] != candidate.0
    &&& lookup(stacking.levels@, order[i]) == lookup(stacking.levels@, candidate.0)
    &&& lookup(state.window_ids, WindowServerId(order[i])) matches Some(above) && {
        &&& env.floating_windows@.contains(above)
        &&& lookup(state.windows, above) matches Some(known) && stacking.contained_frames@.contains(
            known.frame_monotonic,
        )
    }
}

/// A window may be raised under the cursor where it is managed, in the active
/// workspace of its space, and no menu is open.
pub proof fn law_managed_windows_may_be_raised(
    state: ReactorView,
    window: WindowId,
    env: Surroundings,
    space: SpaceId,
)
    ensures
        state.mouse_over_space(window, env) == Some(space) <==> {
            &&& is_managed(state, window)
            &&& !(state.menu is Open)
            &&& state.tracked_space(window, env) == Some(space)
            &&& env.active_members@.contains(SpaceWindow { space, window })
        },
{
}

/// A window that may be raised under the cursor is, unless a sheet or a drawer
/// is open on it, or a floating window in front of it would disappear behind it.
/// One that the window server does not know is raised in any case.
pub proof fn law_windows_are_raised_unless_they_hide_others(
    state: ReactorView,
    window: WindowId,
    stacking: Stacking,
    env: Surroundings,
)
    ensures
        state.raises_on_mouse_over(window, stacking, env) <==> {
            &&& state.mouse_over_space(window, env) is Some
            &&& lookup(state.windows, window) matches Some(known) ==> (known.window_server_id matches Some(wsid) ==> {
                &&& forall|child: WindowServerId| !(#[trigger] has_sheet(state, stacking, child))
                &&& forall|i: int| !(#[trigger] floats_in_front(state, wsid, stacking, env, i))
            })
        },
{
    if let Some(wsid) = state.server_id(window) {
        lemma_sheets(state, stacking);
        lemma_in_front(state, wsid, stacking, env);
    }
}

proof fn lemma_sheets(state: ReactorView, stacking: Stacking)
    ensures
        state.has_attached_window(stacking) <==> exists|child: WindowServerId| #[trigger]
            has_sheet(state, stacking, child),
{
    if state.has_attached_window(stacking) {
        let i = choose|i: int|
            0 <= i < stacking.associated_windows@.len() && state.is_attached(
                #[trigger] stacking.associated_windows@[i],
            );
        assert(has_sheet(state, stacking, stacking.associated_windows@[i]));
    }
    if exists|child: WindowServerId| #[trigger] has_sheet(state, stacking, child) {
        let child = choose|child: WindowServerId| #[trigger] has_sheet(state, stacking, child);
        let i = choose|i: int|
            0 <= i < stacking.associated_windows@.len() && stacking.associated_windows@[i] == child;
        assert(state.is_attached(stacking.associated_windows@[i]));
    }
}

proof fn lemma_in_front(state: ReactorView, wsid: WindowServerId, stacking: Stacking, env: Surroundings)
    ensures
        state.would_hide_any(wsid.0, stacking, env) <==> exists|i: int| #[trigger]
            floats_in_front(state, wsid, stacking, env, i),
{
    let order = stacking.front_to_back@;
    if state.would_hide_any(wsid.0, stacking, env) {
        let i = choose|i: int|
            0 <= i < order.len() && state.would_hide(wsid.0, #[trigger] order[i], stacking, env) && !order.take(
                i + 1,
            ).contains(wsid.0);
        assert forall|j: int| 0 <= j <= i implies #[trigger] order[j] != wsid.0 by {
            assert(order.take(i + 1)[j] == order[j]);
        }
        assert(floats_in_front(state, wsid, stacking, env, i));
    }
    if exists|i: int| #[trigger] floats_in_front(state, wsid, stacking, env, i) {
        let i = choose|i: int| #[trigger] floats_in_front(state, wsid, stacking, env, i);
        assert(!order.take(i + 1).contains(wsid.0));
        assert(state.would_hide(wsid.0, order[i], stacking, env));
    }
}

/// The focus may follow the mouse exactly while no menu is open and Mission
/// Control is not active. The event tap is told what it is told and nothing
/// else, where there is one.
pub proof fn law_focus_follows_the_mouse_outside_menus(state: ReactorView, enabled: bool)
    ensures
        state.mouse_may_focus() <==> !(state.menu is Open) && !(state.mission_control is Active),
        state.has_event_tap ==> state.mouse_focus_task(enabled) == Some(
            TaskView::SendToEventTap(EventTapRequest::SetFocusFollowsMouseEnabled(enabled)),
        ),
        !state.has_event_tap ==> state.mouse_focus_task(enabled) is None,
{
}

} // verus!
