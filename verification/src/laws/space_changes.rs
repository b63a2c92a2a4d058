//! What holds of changes of the spaces that the screens show.
use crate::ids::{pid_t, SpaceId, WindowId};
use crate::laws::spaces::law_restored_spaces_are_forgotten;
use crate::reactor::space_change::{all_fullscreen, first_named, masked, named_spaces};
use crate::reactor::ReactorView;
use crate::requests::{AppRequest, BroadcastEventView, LayoutEventView, LayoutUpdate, StepView, TaskView};
use crate::state::{RefocusState, WindowServerInfo};
use crate::surroundings::Surroundings;
use crate::table::lookup;
use vstd::prelude::*;

verus! {

/// Nothing but fullscreen spaces is shown exactly where there are screens, each
/// of them shows a space, and after fullscreen spaces are left out none is left.
pub proof fn law_nothing_but_fullscreen_spaces(spaces: Seq<Option<SpaceId>>, env: Surroundings)
    ensures
        all_fullscreen(spaces, env) <==> {
            &&& spaces.len() > 0
            &&& forall|i: int| 0 <= i < spaces.len() ==> #[trigger] spaces[i] is Some
            &&& forall|i: int| 0 <= i < spaces.len() ==> #[trigger] masked(spaces, env)[i] is None
        },
{
    if spaces.len() > 0 && (forall|i: int| 0 <= i < spaces.len() ==> #[trigger] spaces[i] is Some) && (forall|i: int|
        0 <= i < spaces.len() ==> #[trigger] masked(spaces, env)[i] is None) {
        assert forall|i: int| 0 <= i < spaces.len() implies ((#[trigger] spaces[i]) matches Some(space)
            && env.fullscreen_spaces@.contains(space)) by {
            assert(spaces[i] is Some);
            assert(masked(spaces, env)[i] is None);
        }
    }
    if all_fullscreen(spaces, env) {
        assert forall|i: int| 0 <= i < spaces.len() implies #[trigger] masked(spaces, env)[i] is None by {
            assert(spaces[i] is Some);
        }
    }
}

/// The spaces that are named come in the order of their screens, and screens
/// without a space leave no gap.
pub proof fn law_named_spaces_come_in_order(
    earlier: Seq<Option<SpaceId>>,
    later: Seq<Option<SpaceId>>,
    space: SpaceId,
)
    ensures
        named_spaces(earlier + later) == named_spaces(earlier) + named_spaces(later),
        named_spaces(seq![Some(space)]) == seq![space],
        named_spaces(seq![None]).len() == 0,
    decreases later.len(),
{
    assert(seq![Some(space)].drop_last() =~= Seq::<Option<SpaceId>>::empty());
    assert(seq![None::<SpaceId>].drop_last() =~= Seq::<Option<SpaceId>>::empty());
    assert(named_spaces(Seq::empty()) =~= Seq::empty());
    assert(named_spaces(seq![Some(space)]) =~= seq![space]);
    if later.len() > 0 {
        law_named_spaces_come_in_order(earlier, later.drop_last(), space);
        assert((earlier + later).drop_last() =~= earlier + later.drop_last());
    } else {
        assert(earlier + later =~= earlier);
    }
    assert(named_spaces(earlier + later) =~= named_spaces(earlier) + named_spaces(later));
}

/// The first space that is named is that of the first screen with a space, and
/// there is none exactly where no screen has one.
pub proof fn law_first_named_space(spaces: Seq<Option<SpaceId>>)
    ensures
        match first_named(spaces) {
            Some(space) => exists|i: int|
                0 <= i < spaces.len() && #[trigger] spaces[i] == Some(space) && forall|j: int|
                    0 <= j < i ==> #[trigger] spaces[j] is None,
            None => forall|i: int| 0 <= i < spaces.len() ==> #[trigger] spaces[i] is None,
        },
    decreases spaces.len(),
{
    if spaces.len() > 0 {
        let t = spaces.drop_last();
        law_first_named_space(t);
        match first_named(t) {
            Some(space) => {
                let i = choose|i: int|
                    0 <= i < t.len() && #[trigger] t[i] == Some(space) && forall|j: int|
                        0 <= j < i ==> #[trigger] t[j] is None;
                assert(spaces[i] == Some(space));
                assert forall|j: int| 0 <= j < i implies #[trigger] spaces[j] is None by {
                    assert(t[j] is None);
                }
            },
            None => {
                assert forall|j: int| 0 <= j < t.len() implies #[trigger] spaces[j] is None by {
                    assert(t[j] is None);
                }
                if spaces.last() is Some {
                    assert(spaces[spaces.len() - 1] == spaces.last());
                }
            },
        }
    }
}

/// A screen that no space is listed for keeps the one that it says it shows; and
/// the list changes nothing but the screens and their last known spaces.
pub proof fn law_lists_concern_their_screens(state: ReactorView, spaces: Seq<Option<SpaceId>>, i: int)
    requires
        0 <= i < state.screens.len(),
    ensures
        i < spaces.len() ==> state.with_screen_spaces(spaces).screens[i].space == spaces[i],
        i >= spaces.len() ==> state.with_screen_spaces(spaces).screens[i] == state.screens[i],
        ({
            let after = state.with_screen_spaces(spaces);
            after == (ReactorView { screens: after.screens, screen_spaces: after.screen_spaces, ..state })
        }),
        ({
            let after = state.with_screen_map();
            after == (ReactorView { screen_spaces: after.screen_spaces, ..state })
        }),
{
}

/// The layout engine hears of each screen in turn that shows a space: its
/// workspaces are listed, and the space is exposed with the size of the screen.
pub proof fn law_screens_are_exposed_in_turn(state: ReactorView, n: int)
    requires
        0 <= n < state.screens.len(),
    ensures
        state.expose_tasks(0).len() == 0,
        ({
            let more = state.expose_tasks(n + 1).skip(state.expose_tasks(n).len() as int);
            &&& state.expose_tasks(n).len() <= state.expose_tasks(n + 1).len()
            &&& state.expose_tasks(n + 1).take(state.expose_tasks(n).len() as int) =~= state.expose_tasks(n)
            &&& match state.space_at(n) {
                Some(space) => more =~= seq![
                    TaskView::ListWorkspaces(space),
                    TaskView::SendLayoutEvent(LayoutEventView::SpaceExposed(space, state.screens[n].frame.size)),
                ],
                None => more.len() == 0,
            }
        }),
{
}

/// After a change of the spaces all screens are exposed first. Then no window is
/// changing screens any more, the main window gets the focus, the visible
/// windows are taken over, the applications are asked for theirs, and the
/// workspace of the first managed space is announced, in this order.
pub proof fn law_space_changes_are_dealt_with_in_order(
    state: ReactorView,
    spaces: Seq<Option<SpaceId>>,
    info: Seq<WindowServerInfo>,
)
    ensures
        ({
            let tasks = state.space_change_tasks(spaces, info);
            let exposed = state.expose_tasks(state.screens.len() as int);
            let n = exposed.len() as int;
            &&& tasks.len() == n + 5
            &&& tasks.take(n) =~= exposed
            &&& tasks[n] == TaskView::Resume(StepView::ClearChangingScreens)
            &&& tasks[n + 1] == TaskView::Resume(StepView::FocusMainWindow)
            &&& tasks[n + 2] == TaskView::UpdateWindowServerInfo(info)
            &&& tasks[n + 3] == TaskView::Resume(StepView::CheckForNewWindows)
            &&& tasks[n + 4] == TaskView::Resume(StepView::AnnounceWorkspace(first_named(spaces)))
        }),
{
}

/// A step does what it is called, and changes nothing else.
pub proof fn law_steps_do_what_they_are_called(
    state: ReactorView,
    env: Surroundings,
    space: SpaceId,
    window: WindowId,
    spaces: Seq<Option<SpaceId>>,
    info: Seq<WindowServerInfo>,
)
    ensures
        state.step(StepView::RequestRefocus(space), env).0 == (ReactorView {
            refocus: RefocusState::Pending(space),
            ..state
        }),
        state.step(StepView::RequestRefocus(space), env).1.len() == 0,
        state.step(StepView::ClearChangingScreens, env).0 == (ReactorView { changing: Seq::empty(), ..state }),
        state.step(StepView::ClearChangingScreens, env).1.len() == 0,
        state.step(StepView::UpdateFocusFollowsMouse, env).0 == state,
        state.mouse_focus_task(state.mouse_may_focus()) matches Some(task) ==> state.step(
            StepView::UpdateFocusFollowsMouse,
            env,
        ).1 =~= seq![task],
        state.mouse_focus_task(state.mouse_may_focus()) is None ==> state.step(
            StepView::UpdateFocusFollowsMouse,
            env,
        ).1.len() == 0,
        state.step(StepView::PlaceInActiveWorkspace(space, window), env).0 == state,
        lookup(env.active_workspaces@, space) matches Some(workspace) ==> state.step(
            StepView::PlaceInActiveWorkspace(space, window),
            env,
        ).1 =~= seq![TaskView::AssignWindow { space, window, workspace }],
        lookup(env.active_workspaces@, space) is None ==> state.step(
            StepView::PlaceInActiveWorkspace(space, window),
            env,
        ).1.len() == 0,
        ({
            let shown = state.with_screen_spaces(spaces);
            let (after, tasks) = state.step(StepView::ApplySpaces(spaces, info), env);
            &&& after == (ReactorView { stale_cleanup: after.stale_cleanup, ..shown })
            &&& after.stale_cleanup is Suppressed <==> forall|i: int|
                0 <= i < spaces.len() ==> #[trigger] spaces[i] is None
            &&& tasks == shown.space_change_tasks(spaces, info)
        }),
        state.step(StepView::FocusMainWindow, env).0 == state,
        match (state.main_window, state.main_space(env)) {
            (Some(main), Some(on)) => state.step(StepView::FocusMainWindow, env).1 =~= seq![
                TaskView::SendLayoutEvent(LayoutEventView::WindowFocused(on, main)),
            ],
            _ => state.step(StepView::FocusMainWindow, env).1.len() == 0,
        },
        state.step(StepView::CheckForNewWindows, env) == (state, state.list_windows_tasks()),
        state.step(StepView::AnnounceWorkspace(None), env).0 == state,
        state.step(StepView::AnnounceWorkspace(None), env).1.len() == 0,
        state.step(StepView::AnnounceWorkspace(Some(space)), env).0 == state,
        match lookup(env.active_workspaces@, space) {
            Some(workspace) => state.step(StepView::AnnounceWorkspace(Some(space)), env).1 =~= seq![
                TaskView::Broadcast(
                    BroadcastEventView::WorkspaceChanged {
                        workspace_id: workspace,
                        workspace_name: state.workspace_name(space, workspace, env),
                        space_id: space,
                        display_uuid: state.display_uuid(space),
                    },
                ),
            ],
            None => state.step(StepView::AnnounceWorkspace(Some(space)), env).1.len() == 0,
        },
{
    crate::laws::spaces::law_cleanup_needs_a_space(state, spaces);
}

/// When a space is shown again, the end of the transition is awaited first. Then
/// those of its applications that are known, and no others, list all their
/// windows; then the focus is given back on the space, the layout is updated,
/// and the event tap is told whether the focus follows the mouse.
pub proof fn law_spaces_are_restored_in_order(state: ReactorView, space: SpaceId, pids: Seq<pid_t>)
    ensures
        ({
            let tasks = state.restore_tasks(space, pids);
            let known = pids.filter(|p: pid_t| lookup(state.apps, p) is Some);
            let n = known.len() as int;
            &&& tasks.len() == n + 5
            &&& tasks[0] == TaskView::AwaitFullscreenTransition
            &&& tasks[1] == TaskView::SleepMillis(50)
            &&& forall|i: int|
                0 <= i < n ==> #[trigger] tasks[i + 2] == TaskView::SendToApp(
                    known[i],
                    AppRequest::GetVisibleWindows { force_refresh: true },
                )
            &&& tasks[n + 2] == TaskView::Resume(StepView::RequestRefocus(space))
            &&& tasks[n + 3] == TaskView::UpdateLayout(LayoutUpdate { is_resize: false, is_workspace_switch: false })
            &&& tasks[n + 4] == TaskView::Resume(StepView::UpdateFocusFollowsMouse)
        }),
{
}

/// Of the spaces that are shown, each that a fullscreen window has left is
/// restored where it comes up first, with its own applications; nothing is done
/// about the others, nor about one that came up before.
pub proof fn law_spaces_are_restored_where_they_come_up(state: ReactorView, earlier: Seq<SpaceId>, space: SpaceId)
    ensures
        state.all_restore_tasks(Seq::empty()).len() == 0,
        match lookup(state.fullscreen, space) {
            Some(track) if !earlier.contains(space) => state.all_restore_tasks(earlier.push(space))
                == state.all_restore_tasks(earlier) + state.restore_tasks(space, track.pids@),
            _ => state.all_restore_tasks(earlier.push(space)) == state.all_restore_tasks(earlier),
        },
{
    law_restored_spaces_are_forgotten(state, earlier, space);
    assert(earlier.push(space).drop_last() =~= earlier);
    assert(state.all_restore_tasks(earlier) + Seq::<TaskView>::empty() =~= state.all_restore_tasks(earlier));
}

} // verus!
