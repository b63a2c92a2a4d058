//! What holds of a drag from its beginning to its end.
use crate::geometry::Frame;
use crate::ids::{SpaceId, WindowId};
use crate::reactor::ReactorView;
use crate::requests::{LayoutEventView, StepView, TaskView};
use crate::laws::basics::{is_row_of, law_tables_answer_by_their_rows};
use crate::reactor::drag::SwapStepView;
use crate::state::{DragSession, DragState, WindowState};
use crate::surroundings::Surroundings;
use crate::table::{lemma_filter_contains, lemma_filtered_from, lookup};
use vstd::prelude::*;

verus! {

/// Once a drag of a window is made sure of, that window is dragged, its
/// layout is left alone, and to make sure of it again changes nothing,
/// wherever the window is by then.
pub proof fn law_drag_is_ensured_once(
    state: ReactorView,
    window: WindowId,
    frame: Frame,
    later: Frame,
    env: Surroundings,
    later_env: Surroundings,
)
    ensures
        ({
            let dragging = state.dragging(window, frame, env);
            &&& dragging.in_drag()
            &&& dragging.active_session() matches Some(session) && session.window == window
            &&& dragging.skip_layout == Some(window)
            &&& dragging.dragging(window, later, later_env) == dragging
        }),
{
}

/// A drag that never leaves the space that it began on, and in which nothing
/// moves, ends without a trace: nothing changed, and there is nothing to do.
pub proof fn law_idle_drag_does_nothing(
    state: ReactorView,
    window: WindowId,
    frame: Frame,
    env: Surroundings,
    end_env: Surroundings,
)
    requires
        !state.in_drag(),
        state.window_space(frame, state.server_id(window), env) is Some,
    ensures
        ({
            let dragging = state.dragging(window, frame, env);
            &&& dragging.session() matches Some(session) && {
                &&& !dragging.drag_counts(session, end_env)
                &&& dragging.move_tasks(session, end_env) =~= Seq::<TaskView>::empty()
            }
        }),
{
}

/// A drag ends on the space that the window was last resolved to be on,
/// whatever the window server reports at the end.
pub proof fn law_settled_space_wins(state: ReactorView, session: DragSession, env: Surroundings)
    requires
        session.settled_space is Some,
    ensures
        state.final_space(session, env) == session.settled_space,
{
}

/// A window that is dragged from one space to another is taken off the first
/// and then put on the second, and the end of the drag says that it counted,
/// whatever the window server reports by then.
pub proof fn law_drag_to_another_space_moves(
    state: ReactorView,
    window: WindowId,
    start: Frame,
    end: Frame,
    env: Surroundings,
    later_env: Surroundings,
    end_env: Surroundings,
    from: SpaceId,
    to: SpaceId,
)
    requires
        !state.in_drag(),
        state.window_space(start, state.server_id(window), env) == Some(from),
        state.dragging(window, start, env).drag_space(
            state.new_session(window, start, env),
            end,
            later_env,
        ) == Some(to),
        from != to,
    ensures
        ({
            let dragged = state.dragging(window, start, env).dragged(window, end, later_env);
            &&& dragged.session() matches Some(session) && {
                &&& dragged.drag_counts(session, end_env)
                &&& dragged.move_tasks(session, end_env) =~= seq![
                    TaskView::SendLayoutEvent(LayoutEventView::WindowRemoved(window)),
                    TaskView::Resume(StepView::PlaceInActiveWorkspace(to, window)),
                    TaskView::SendLayoutEvent(LayoutEventView::WindowAdded(to, window)),
                ]
            }
        }),
{
}

/// While a window is dragged, its drag stays the drag of that window, and the
/// space that it began on is not forgotten.
pub proof fn law_dragging_keeps_the_session(
    state: ReactorView,
    window: WindowId,
    frame: Frame,
    env: Surroundings,
    session: DragSession,
)
    requires
        state.active_session() == Some(session),
    ensures
        ({
            let dragged = state.dragged(window, frame, env);
            &&& dragged.active_session() matches Some(after) && {
                &&& after.window == session.window
                &&& after.origin_space == session.origin_space
                &&& session.layout_dirty ==> after.layout_dirty
                &&& (window == session.window ==> after.last_frame == frame)
                &&& (window != session.window ==> after == session)
            }
        }),
{
}

/// A window that has a space is not moved to another by a frame without an area.
pub proof fn law_flat_frames_do_not_move(
    state: ReactorView,
    session: DragSession,
    frame: Frame,
    env: Surroundings,
)
    requires
        frame.is_flat,
        session.settled_space is Some,
    ensures
        state.drag_space(session, frame, env) == session.settled_space,
{
}

/// A drag that was marked dirty counts when it ends.
pub proof fn law_dirty_drags_count(state: ReactorView, session: DragSession, env: Surroundings)
    requires
        state.active_session() == Some(session),
    ensures
        ({
            let marked = state.marked_dirty(session.window);
            marked.session() matches Some(after) && marked.drag_counts(after, env)
        }),
{
}

/// A swap that comes up and goes away again before the mouse button is
/// released leaves the drag as it was.
pub proof fn law_pending_swap_is_undone(state: ReactorView, session: DragSession, target: WindowId)
    requires
        state.active_session() == Some(session),
    ensures
        ({
            let pending = state.swap_settled(session.window, Some(target));
            &&& pending.pending_swap() == Some((session.window, target))
            &&& pending.in_drag()
            &&& pending.swap_settled(session.window, None).drag == state.drag
        }),
{
}

/// A drag goes on, with the same session, whatever the swap detection aims at.
pub proof fn law_swap_detection_keeps_the_session(
    state: ReactorView,
    window: WindowId,
    target: Option<WindowId>,
)
    ensures
        state.swap_settled(window, target).session() == state.session(),
{
}

/// A window that is dragged into another space has no swap pending any more,
/// and the swap detection starts over.
pub proof fn law_no_swap_across_spaces(
    state: ReactorView,
    window: WindowId,
    frame: Frame,
    origin_frame: Option<Frame>,
    env: Surroundings,
    space: SpaceId,
    origin: SpaceId,
)
    requires
        state.in_drag(),
        lookup(state.windows, window) is Some,
        !(state.server_id(window) matches Some(wsid) && state.changing.contains(wsid)),
        state.swap_space(window, frame, env) == Some(space),
        state.swap_origin(window, origin_frame, env) == Some(origin),
        origin != space,
    ensures
        state.swap_step(window, frame, origin_frame, env).1 is Reset,
        !(state.swap_step(window, frame, origin_frame, env).0.pending_swap() matches Some(pair)
            && pair.0 == window),
{
}

/// The windows that a dragged window can be swapped with are other windows,
/// tiled in the active workspace of the space that it is dragged over.
pub proof fn law_swap_candidates(
    state: ReactorView,
    window: WindowId,
    space: SpaceId,
    env: Surroundings,
    i: int,
)
    requires
        0 <= i < state.swap_candidates(window, space, env).len(),
    ensures
        state.is_swap_candidate(window, state.swap_candidates(window, space, env)[i].0, space, env),
{
    let f = |e: (WindowId, WindowState)| state.is_swap_candidate(window, e.0, space, env);
    lemma_filtered_from(state.windows, f, i);
}

/// A drag begins on the space that the window is on, with nothing moved yet. A
/// drag of the same window that is active already goes on as it is; one of
/// another window, or one with a swap pending, gives way.
pub proof fn law_drags_begin_where_the_window_is(
    state: ReactorView,
    window: WindowId,
    frame: Frame,
    env: Surroundings,
)
    ensures
        ({
            let after = state.dragging(window, frame, env);
            let goes_on = state.drag matches DragState::Active { session } && session.window == window;
            &&& goes_on ==> after.drag == state.drag
            &&& !goes_on ==> (after.drag matches DragState::Active { session } && {
                &&& session.window == window
                &&& session.last_frame == frame
                &&& session.settled_space == session.origin_space
                &&& !session.layout_dirty
                &&& match lookup(state.windows, window) {
                    Some(known) => session.origin_space == state.window_space(frame, known.window_server_id, env),
                    None => session.origin_space == state.frame_space(frame, env),
                }
            })
            &&& after == (ReactorView { drag: after.drag, skip_layout: Some(window), ..state })
        }),
{
}

/// The space that the window has, as far as the frame and the window server
/// tell.
pub open spec fn own_space(state: ReactorView, window: WindowId, frame: Frame, env: Surroundings) -> Option<SpaceId> {
    match lookup(state.windows, window) {
        Some(known) => state.window_space(frame, known.window_server_id, env),
        None => state.frame_space(frame, env),
    }
}

/// A dragged window goes to the space of the screen that its middle is on, ahead
/// of what the window server reports; where its middle is on none, it has its
/// own space; and where it has none, it stays where it was. A frame without an
/// area moves it only where it was nowhere.
pub proof fn law_dragged_windows_go_where_their_middle_is(
    state: ReactorView,
    session: DragSession,
    frame: Frame,
    env: Surroundings,
)
    ensures
        ({
            let to = state.drag_space(session, frame, env);
            let centered = state.center_space(frame, env);
            let own = own_space(state, session.window, frame, env);
            &&& frame.is_flat && session.settled_space is Some ==> to == session.settled_space
            &&& frame.is_flat && session.settled_space is None ==> to == own
            &&& !frame.is_flat && centered is Some ==> to == centered
            &&& !frame.is_flat && centered is None && own is Some ==> to == own
            &&& !frame.is_flat && centered is None && own is None ==> to == session.settled_space
        }),
{
}

/// A step of a drag takes the new frame and the new space over. The layout is in
/// need of an update from the first step that moves the window or changes its
/// space; a change of the space has the layout leave the window alone. A step of
/// another window, or while no drag is active, changes nothing.
pub proof fn law_steps_of_a_drag(state: ReactorView, window: WindowId, frame: Frame, env: Surroundings)
    ensures
        ({
            let after = state.dragged(window, frame, env);
            match state.drag {
                DragState::Active { session } if session.window == window => {
                    let to = state.drag_space(session, frame, env);
                    &&& after.drag matches DragState::Active { session: now } && {
                        &&& now.window == window
                        &&& now.last_frame == frame
                        &&& now.settled_space == to
                        &&& now.origin_space == session.origin_space
                        &&& now.layout_dirty <==> (session.layout_dirty || to != session.settled_space
                            || !session.last_frame.eq_value(frame))
                    }
                    &&& to != session.settled_space ==> after.skip_layout == Some(window)
                    &&& to == session.settled_space ==> after.skip_layout == state.skip_layout
                    &&& after == (ReactorView { drag: after.drag, skip_layout: after.skip_layout, ..state })
                },
                _ => after == state,
            }
        }),
{
}

/// To mark a drag dirty concerns the active drag of that window only, and leaves
/// everything else about it as it was.
pub proof fn law_marks_concern_their_window(state: ReactorView, window: WindowId)
    ensures
        ({
            let after = state.marked_dirty(window);
            match state.drag {
                DragState::Active { session } if session.window == window => {
                    &&& after.drag == (DragState::Active { session: DragSession { layout_dirty: true, ..session } })
                    &&& after == (ReactorView { drag: after.drag, skip_layout: Some(window), ..state })
                },
                _ => after == state,
            }
        }),
{
}

/// A drag that settled nowhere ends on the space of its last frame, and only
/// where that has none, on the space that the tracked window has.
pub proof fn law_unsettled_drags_end_where_the_frame_is(state: ReactorView, session: DragSession, env: Surroundings)
    requires
        session.settled_space is None,
    ensures
        ({
            let by_frame = state.frame_space(session.last_frame, env);
            &&& by_frame is Some ==> state.final_space(session, env) == by_frame
            &&& by_frame is None ==> state.final_space(session, env) == state.tracked_space(session.window, env)
        }),
{
}

/// The end of a drag counts where it moved the window to another space or left
/// the layout dirty. Only a move is made: off the space that the drag began on,
/// where it began on one, and then onto the space that it ends on, where it ends
/// on one, into the workspace that is active there.
pub proof fn law_ends_of_a_drag(state: ReactorView, session: DragSession, env: Surroundings)
    ensures
        ({
            let to = state.final_space(session, env);
            let tasks = state.move_tasks(session, env);
            let off = TaskView::SendLayoutEvent(LayoutEventView::WindowRemoved(session.window));
            &&& state.drag_counts(session, env) <==> session.layout_dirty || to != session.origin_space
            &&& to == session.origin_space ==> tasks.len() == 0
            &&& to != session.origin_space ==> match (session.origin_space, to) {
                (Some(_), Some(space)) => tasks =~= seq![
                    off,
                    TaskView::Resume(StepView::PlaceInActiveWorkspace(space, session.window)),
                    TaskView::SendLayoutEvent(LayoutEventView::WindowAdded(space, session.window)),
                ],
                (None, Some(space)) => tasks =~= seq![
                    TaskView::Resume(StepView::PlaceInActiveWorkspace(space, session.window)),
                    TaskView::SendLayoutEvent(LayoutEventView::WindowAdded(space, session.window)),
                ],
                (Some(_), None) => tasks =~= seq![off],
                (None, None) => false,
            }
        }),
{
}

/// While a drag is active, swaps are looked for on the space that it has settled
/// on, and it is held to the space that it began on; otherwise the frames decide
/// about both.
pub proof fn law_swaps_are_looked_for_where_the_drag_is(
    state: ReactorView,
    window: WindowId,
    frame: Frame,
    origin_frame: Option<Frame>,
    env: Surroundings,
)
    ensures
        match state.drag {
            DragState::Active { session } if session.settled_space is Some => state.swap_space(window, frame, env)
                == session.settled_space,
            _ => state.swap_space(window, frame, env) == own_space(state, window, frame, env),
        },
        match state.drag {
            DragState::Active { session } if session.origin_space is Some => state.swap_origin(
                window,
                origin_frame,
                env,
            ) == session.origin_space,
            _ => match origin_frame {
                Some(began) => state.swap_origin(window, origin_frame, env) == own_space(state, window, began, env),
                None => state.swap_origin(window, origin_frame, env) is None,
            },
        },
{
}

/// The dragged window takes part in swaps: it is tracked, and not changing
/// screens as far as the window server knows it.
pub open spec fn takes_part(state: ReactorView, window: WindowId) -> bool {
    lookup(state.windows, window) matches Some(known) && (known.window_server_id matches Some(wsid)
        ==> !state.changing.contains(wsid))
}

/// What a step of a drag means for swaps. Nothing, where no window is dragged,
/// the window takes no part or is on no space. The detection starts over, where
/// the window is on another space than the one that the drag began on. Else the
/// detection is shown the candidates, if the window is in the active workspace.
/// Only a swap of this window that is pending is ended by the start over.
pub proof fn law_steps_of_a_swap(
    state: ReactorView,
    window: WindowId,
    frame: Frame,
    origin_frame: Option<Frame>,
    env: Surroundings,
)
    ensures
        ({
            let (after, step) = state.swap_step(window, frame, origin_frame, env);
            let on = state.swap_space(window, frame, env);
            let began = state.swap_origin(window, origin_frame, env);
            let looks = state.drag !is Inactive && takes_part(state, window) && on is Some;
            let strayed = looks && began is Some && began != on;
            let member = on matches Some(space) && env.active_members@.contains(
                crate::ids::SpaceWindow { space, window },
            );
            &&& step is Reset <==> strayed
            &&& step is Probe <==> looks && !strayed && member
            &&& step is Skip <==> !looks || (!strayed && !member)
            &&& step matches SwapStepView::Probe(candidates) ==> candidates == state.swap_candidates(window, on->0, env)
            &&& strayed && (state.drag matches DragState::PendingSwap { session, .. } && session.window == window)
                ==> after == (ReactorView { drag: DragState::Inactive, ..state })
            &&& !(strayed && (state.drag matches DragState::PendingSwap { session, .. } && session.window == window))
                ==> after == state
        }),
{
}

/// Every tracked window but the dragged one that is on the space, in its active
/// workspace and not floating is a candidate, with its own frame, whatever
/// application it belongs to; and nothing else is one.
pub proof fn law_candidates_are_the_tiled_windows_of_the_space(
    state: ReactorView,
    window: WindowId,
    space: SpaceId,
    env: Surroundings,
    other: WindowId,
    frame: Frame,
)
    requires
        state.well_formed(),
    ensures
        state.swap_candidates(window, space, env).contains((other, frame)) <==> {
            &&& other != window
            &&& lookup(state.windows, other) matches Some(known) && known.frame_monotonic == frame
            &&& state.tracked_space(other, env) == Some(space)
            &&& env.active_members@.contains(crate::ids::SpaceWindow { space, window: other })
            &&& !env.floating_windows@.contains(other)
        },
{
    let f = |e: (WindowId, WindowState)| state.is_swap_candidate(window, e.0, space, env);
    let kept = state.windows.filter(f);
    let candidates = state.swap_candidates(window, space, env);
    law_tables_answer_by_their_rows(state.windows, other);
    if candidates.contains((other, frame)) {
        let i = choose|i: int| 0 <= i < candidates.len() && candidates[i] == (other, frame);
        lemma_filtered_from(state.windows, f, i);
        let j = choose|j: int| 0 <= j < state.windows.len() && state.windows[j] == kept[i];
        assert(is_row_of(state.windows, other, state.windows[j].1, j)) by {
            assert forall|k: int| 0 <= k < j implies (#[trigger] state.windows[k]).0 != other by {
                assert(state.windows[k].0 != state.windows[j].0);
            }
        }
    }
    if state.is_swap_candidate(window, other, space, env) && (lookup(state.windows, other) matches Some(known)
        && known.frame_monotonic == frame) {
        let known = lookup(state.windows, other)->0;
        let j = choose|j: int| #[trigger] is_row_of(state.windows, other, known, j);
        assert(state.windows.contains((other, known)));
        lemma_filter_contains(state.windows, f, (other, known));
        let i = choose|i: int| 0 <= i < kept.len() && kept[i] == (other, known);
        assert(candidates[i] == (other, frame));
    }
}

/// A swap is pending once the detection is aimed at a window, with the session
/// of the drag; without a drag there is nothing to swap. Where it is aimed at
/// none, a pending swap of the window becomes a drag again, and the layout no
/// longer leaves that window alone.
pub proof fn law_swaps_settle_on_their_target(state: ReactorView, window: WindowId, target: WindowId)
    ensures
        ({
            let aimed = state.swap_settled(window, Some(target));
            match state.drag {
                DragState::Active { session } => aimed == (ReactorView {
                    drag: DragState::PendingSwap { session, target },
                    skip_layout: Some(window),
                    ..state
                }),
                DragState::PendingSwap { session, .. } => aimed == (ReactorView {
                    drag: DragState::PendingSwap { session, target },
                    skip_layout: Some(window),
                    ..state
                }),
                DragState::Inactive => aimed == (ReactorView { skip_layout: None, ..state }),
            }
        }),
        ({
            let unaimed = state.swap_settled(window, None);
            &&& match state.drag {
                DragState::PendingSwap { session, .. } if session.window == window => unaimed.drag
                    == (DragState::Active { session }),
                _ => unaimed.drag == state.drag,
            }
            &&& state.skip_layout == Some(window) ==> unaimed.skip_layout is None
            &&& state.skip_layout != Some(window) ==> unaimed.skip_layout == state.skip_layout
            &&& unaimed == (ReactorView { drag: unaimed.drag, skip_layout: unaimed.skip_layout, ..state })
        }),
{
}

} // verus!
