//! What holds of tables and sets, and of the words that the other laws use.
use crate::ids::{SpaceId, SpaceWindow, SpaceWorkspace, VirtualWorkspaceId, WindowId, WindowServerId};
use crate::reactor::drag::{SwapStep, SwapStepView};
use crate::reactor::focus::{ResponseAction, ResponseActionView};
use crate::reactor::system::task_view;
use crate::reactor::{Reactor, ReactorView};
use crate::requests::{
    BroadcastEvent, BroadcastEventView, LayoutEvent, LayoutEventView, RaiseRequest, Step, StepView, Task, TaskView,
};
use crate::state::{Config, DragState, RefocusState, WorkspaceSwitchOrigin, WorkspaceSwitchState};
use crate::surroundings::Surroundings;
use crate::table::{lemma_filter_contains, lemma_filtered_from, lemma_position, lemma_position_is};
use crate::table::{lookup, put, with_item, without, without_item};
use vstd::prelude::*;

verus! {

/// `v` stands under `k` in the row at `i`, and no row before is about `k`.
pub open spec fn is_row_of<K, V>(s: Seq<(K, V)>, k: K, v: V, i: int) -> bool {
    0 <= i < s.len() && s[i] == (k, v) && forall|j: int| 0 <= j < i ==> (#[trigger] s[j]).0 != k
}

/// What a table holds for a key is what the first row about that key says; it
/// holds nothing exactly where no row is about it.
pub proof fn law_tables_answer_by_their_rows<K, V>(s: Seq<(K, V)>, k: K)
    ensures
        forall|v: V| lookup(s, k) == Some(v) <==> exists|i: int| #[trigger] is_row_of(s, k, v, i),
        lookup(s, k) is None <==> forall|i: int| 0 <= i < s.len() ==> (#[trigger] s[i]).0 != k,
{
    lemma_position(s, k);
    assert forall|v: V| lookup(s, k) == Some(v) <==> exists|i: int| #[trigger] is_row_of(s, k, v, i) by {
        if lookup(s, k) == Some(v) {
            assert(is_row_of(s, k, v, crate::table::position(s, k)));
        }
        if exists|i: int| #[trigger] is_row_of(s, k, v, i) {
            let i = choose|i: int| #[trigger] is_row_of(s, k, v, i);
            lemma_position_is(s, k, i);
        }
    }
}

/// To put a value under a key changes the first row about that key and no
/// other; where there is none, the value goes into a row of its own at the end.
pub proof fn law_values_are_put_in_place<K, V>(s: Seq<(K, V)>, k: K, v: V)
    ensures
        lookup(s, k) is None ==> put(s, k, v) == s.push((k, v)),
        lookup(s, k) is Some ==> {
            &&& put(s, k, v).len() == s.len()
            &&& exists|i: int|
                #![trigger put(s, k, v)[i]]
                is_row_of(put(s, k, v), k, v, i) && s[i].0 == k && forall|j: int|
                    0 <= j < s.len() && j != i ==> #[trigger] put(s, k, v)[j] == s[j]
        },
{
    lemma_position(s, k);
    if lookup(s, k) is Some {
        let i = crate::table::position(s, k);
        let t = put(s, k, v);
        assert(t[i] == (k, v));
        assert(is_row_of(t, k, v, i));
    }
}

/// A table without a key has its other rows, and no row about the key.
pub proof fn law_rows_of_other_keys_stay<K, V>(s: Seq<(K, V)>, k: K, row: (K, V))
    ensures
        without(s, k).contains(row) <==> s.contains(row) && row.0 != k,
{
    let f = |e: (K, V)| e.0 != k;
    if s.contains(row) && row.0 != k {
        lemma_filter_contains(s, f, row);
    }
    if without(s, k).contains(row) {
        let i = choose|i: int| 0 <= i < without(s, k).len() && without(s, k)[i] == row;
        lemma_filtered_from(s, f, i);
    }
}

/// A set keeps its items in their order when one is put in or taken out; one
/// that is put in goes to the end, and only where it was not in it.
pub proof fn law_sets_keep_their_order<K>(s: Seq<K>, k: K)
    ensures
        s.contains(k) ==> with_item(s, k) == s,
        !s.contains(k) ==> with_item(s, k) == s.push(k) && without_item(with_item(s, k), k) == s,
    decreases s.len(),
{
    if !s.contains(k) {
        lemma_nothing_taken_out(s, k);
        reveal_with_fuel(Seq::filter, 2);
        assert(s.push(k).drop_last() =~= s);
    }
}

proof fn lemma_nothing_taken_out<K>(s: Seq<K>, k: K)
    requires
        !s.contains(k),
    ensures
        without_item(s, k) == s,
    decreases s.len(),
{
    reveal_with_fuel(Seq::filter, 1);
    if s.len() > 0 {
        let t = s.drop_last();
        if t.contains(k) {
            let i = choose|i: int| 0 <= i < t.len() && t[i] == k;
            assert(s[i] == k);
        }
        lemma_nothing_taken_out(t, k);
        assert(s[s.len() - 1] == s.last());
        assert(without_item(s, k) =~= t.push(s.last()));
        assert(t.push(s.last()) =~= s);
    } else {
        assert(without_item(s, k) =~= s);
    }
}

/// A window is dragged from the moment a drag is active until it is over, a
/// swap that is pending included; the session stays that of the drag.
pub proof fn law_drags_last_while_a_swap_is_pending(state: ReactorView)
    ensures
        state.in_drag() <==> state.drag != DragState::Inactive,
        state.session() is Some <==> state.in_drag(),
        state.drag matches DragState::Active { session } ==> state.session() == Some(session)
            && state.active_session() == Some(session) && state.pending_swap() is None,
        state.drag matches DragState::PendingSwap { session, target } ==> state.session() == Some(session)
            && state.active_session() is None && state.pending_swap() == Some((session.window, target)),
        state.drag is Inactive ==> state.active_session() is None && state.pending_swap() is None,
{
}

/// A switch is under way exactly while it is marked so, and is a manual one
/// where the user asked for it; a wish to give the focus back names its space.
pub proof fn law_what_is_under_way(state: ReactorView, space: SpaceId)
    ensures
        state.is_switching() <==> state.switch.workspace_switch_state != WorkspaceSwitchState::Inactive,
        state.switch.is_manual() <==> state.is_switching() && state.switch.pending_workspace_switch_origin == Some(
            WorkspaceSwitchOrigin::Manual,
        ),
        state.pending_refocus() == Some(space) <==> state.refocus == RefocusState::Pending(space),
        state.pending_refocus() is None <==> state.refocus is Idle,
        state.follows_focus() == state.config.settings.mouse_follows_focus,
{
}

/// A workspace switch that starts is the active one, under a number of its own
/// that follows the last, and is remembered by who asked for it; to mark it
/// inactive forgets that, and nothing of when the last automatic one was or of
/// which cursor move was put off.
pub proof fn law_switches_start_and_stop(state: ReactorView, origin: WorkspaceSwitchOrigin)
    ensures
        ({
            let on = state.switch.started(origin);
            let off = on.marked_inactive();
            &&& on.workspace_switch_state is Active
            &&& on.pending_workspace_switch_origin == Some(origin)
            &&& on.active_workspace_switch == Some(on.workspace_switch_generation)
            &&& state.switch.workspace_switch_generation < u64::MAX ==> on.workspace_switch_generation
                == state.switch.workspace_switch_generation + 1
            &&& state.switch.workspace_switch_generation == u64::MAX ==> on.workspace_switch_generation == 0
            &&& on.last_auto_workspace_switch == state.switch.last_auto_workspace_switch
            &&& on.pending_workspace_mouse_warp == state.switch.pending_workspace_mouse_warp
            &&& on.is_manual() <==> origin is Manual
            &&& off.workspace_switch_state is Inactive
            &&& off.pending_workspace_switch_origin is None
            &&& !off.is_manual()
            &&& off.active_workspace_switch == on.active_workspace_switch
            &&& off.workspace_switch_generation == on.workspace_switch_generation
            &&& off.last_auto_workspace_switch == on.last_auto_workspace_switch
            &&& off.pending_workspace_mouse_warp == on.pending_workspace_mouse_warp
        }),
{
}

/// Each answer of the services comes from the table that it is about, under
/// the space, the window or the workspace that it is asked about.
pub proof fn law_services_answer_what_they_are_asked(
    env: Surroundings,
    space: SpaceId,
    window: WindowId,
    workspace: VirtualWorkspaceId,
)
    ensures
        env.active_workspace(space) == lookup(env.active_workspaces@, space),
        env.workspace_of(space, window) == lookup(env.window_workspaces@, SpaceWindow { space, window }),
        env.last_focused_in(space, workspace) == lookup(env.last_focused@, SpaceWorkspace { space, workspace }),
        env.in_active_workspace(space, window) <==> env.active_members@.contains(SpaceWindow { space, window }),
        env.is_floating(window) <==> env.floating_windows@.contains(window),
        lookup(env.active_windows@, space) matches Some(windows) ==> env.windows_in(space) == windows@,
        lookup(env.active_windows@, space) is None ==> env.windows_in(space).len() == 0,
{
}

/// A window's place with the window server is looked up by the window, and a
/// tracked window behind a place of the window server by that place.
pub proof fn law_windows_are_found_by_their_ids(state: ReactorView, window: WindowId, wsid: WindowServerId)
    ensures
        state.server_id(window) == Some(wsid) <==> (lookup(state.windows, window) matches Some(known)
            && known.window_server_id == Some(wsid)),
        state.state_behind(wsid) is Some <==> (lookup(state.window_ids, wsid) matches Some(behind)
            && lookup(state.windows, behind) is Some),
        lookup(state.window_ids, wsid) == Some(window) ==> state.state_behind(wsid) == lookup(state.windows, window),
        state.is_standard(window) <==> (lookup(state.windows, window) matches Some(known) && known.is_manageable),
{
}

/// What the laws say of a reactor they say of what it holds: each part of its
/// view is the part of that name.
pub proof fn law_views_show_what_is_held(reactor: Reactor)
    ensures
        reactor@.config == reactor.config_manager.config,
        reactor@.apps == reactor.app_manager.apps.entries@,
        reactor@.windows == reactor.window_manager.windows.entries@,
        reactor@.window_ids == reactor.window_manager.window_ids.entries@,
        reactor@.visible == reactor.window_manager.visible_windows.items@,
        reactor@.observed == reactor.window_manager.observed_window_server_ids.items@,
        reactor@.server_info == reactor.window_server_info_manager.window_server_info.entries@,
        reactor@.screens == reactor.space_manager.screens@,
        reactor@.fullscreen == reactor.space_manager.fullscreen_by_space.entries@,
        reactor@.changing == reactor.space_manager.changing_screens.items@,
        reactor@.screen_spaces == reactor.space_manager.screen_space_by_id.entries@,
        reactor@.main_window == reactor.main_window_tracker_manager.main_window,
        reactor@.drag == reactor.drag_manager.drag_state,
        reactor@.skip_layout == reactor.drag_manager.skip_layout_for_window,
        reactor@.switch == reactor.workspace_switch_manager,
        reactor@.has_event_tap == reactor.communication_manager.has_event_tap,
        reactor@.notified == reactor.notification_manager.last_sls_notification_ids@,
        reactor@.menu == reactor.menu_manager.menu_state,
        reactor@.mission_control == reactor.mission_control_manager.mission_control_state,
        reactor@.pending_refresh == reactor.mission_control_manager.pending_mission_control_refresh.items@,
        reactor@.stale_cleanup == reactor.refocus_manager.stale_cleanup_state,
        reactor@.refocus == reactor.refocus_manager.refocus_state,
        reactor@.pending_space_change == reactor.pending_space_change_manager.pending_space_change,
        reactor@.active_spaces == reactor.active_spaces.items@,
{
}

/// A new reactor knows its settings and nothing else: no window, no screen, no
/// application; nothing is under way or put off, no event tap is there, and
/// stale windows may be cleaned up.
pub proof fn law_new_reactors_know_nothing(config: Config)
    ensures
        ({
            let new = ReactorView::initial(config);
            &&& new.config == config
            &&& new.apps.len() == 0 && new.windows.len() == 0 && new.window_ids.len() == 0
            &&& new.visible.len() == 0 && new.observed.len() == 0 && new.server_info.len() == 0
            &&& new.screens.len() == 0 && new.fullscreen.len() == 0 && new.changing.len() == 0
            &&& new.screen_spaces.len() == 0 && new.active_spaces.len() == 0
            &&& new.notified.len() == 0 && new.pending_refresh.len() == 0
            &&& new.main_window is None && new.skip_layout is None && new.pending_space_change is None
            &&& new.drag is Inactive && new.menu is Closed && new.mission_control is Inactive
            &&& new.refocus is Idle && new.stale_cleanup is Enabled && !new.has_event_tap
            &&& new.switch.workspace_switch_state is Inactive
            &&& new.switch.workspace_switch_generation == 0
            &&& new.switch.active_workspace_switch is None && new.switch.last_auto_workspace_switch is None
            &&& new.switch.pending_workspace_switch_origin is None
            &&& new.switch.pending_workspace_mouse_warp is None
        }),
{
}

/// A task is seen as what it is, with all that it carries.
pub proof fn law_tasks_are_seen_as_they_are(task: Task)
    ensures
        task matches Task::SendLayoutEvent(event) ==> task@ == TaskView::SendLayoutEvent(event@),
        task matches Task::ListWorkspaces(space) ==> task@ == TaskView::ListWorkspaces(space),
        task matches Task::AssignWindow { space, window, workspace } ==> task@ == (TaskView::AssignWindow {
            space,
            window,
            workspace,
        }),
        task matches Task::AssignWindowByRules(assignment) ==> task@ == TaskView::AssignWindowByRules(assignment),
        task matches Task::StoreFloatingPositions { space, positions } ==> task@ == (
        TaskView::StoreFloatingPositions { space, positions: positions@ }),
        task matches Task::SwitchToWorkspace { space, index } ==> task@ == (TaskView::SwitchToWorkspace {
            space,
            index,
        }),
        task matches Task::UpdateLayout(update) ==> task@ == TaskView::UpdateLayout(update),
        task matches Task::SendToApp(pid, request) ==> task@ == TaskView::SendToApp(pid, request),
        task matches Task::RefreshApp(pid) ==> task@ == TaskView::RefreshApp(pid),
        task matches Task::SendToEventTap(request) ==> task@ == TaskView::SendToEventTap(request),
        task is SendMenuUpdate <==> task@ is SendMenuUpdate,
        task matches Task::Broadcast(event) ==> task@ == TaskView::Broadcast(event@),
        task matches Task::MarkRecent(wsid) ==> task@ == TaskView::MarkRecent(wsid),
        task is AwaitFullscreenTransition <==> task@ is AwaitFullscreenTransition,
        task matches Task::SleepMillis(millis) ==> task@ == TaskView::SleepMillis(millis),
        task matches Task::WatchWindows(ids) ==> task@ == TaskView::WatchWindows(ids@),
        task matches Task::UpdateWindowServerInfo(info) ==> task@ == TaskView::UpdateWindowServerInfo(info@),
        task matches Task::Resume(step) ==> task@ == TaskView::Resume(step@),
        task_view(Some(task)) == Some(task@),
        task_view(None) is None,
{
}

/// A step and a layout event are seen as what they are, with all that they carry.
pub proof fn law_steps_and_layout_events_are_seen_as_they_are(step: Step, event: LayoutEvent)
    ensures
        step matches Step::RequestRefocus(space) ==> step@ == StepView::RequestRefocus(space),
        step is UpdateFocusFollowsMouse <==> step@ is UpdateFocusFollowsMouse,
        step matches Step::PlaceInActiveWorkspace(space, window) ==> step@ == StepView::PlaceInActiveWorkspace(
            space,
            window,
        ),
        step matches Step::ApplySpaces(spaces, info) ==> step@ == StepView::ApplySpaces(spaces@, info@),
        step is ClearChangingScreens <==> step@ is ClearChangingScreens,
        step is FocusMainWindow <==> step@ is FocusMainWindow,
        step is CheckForNewWindows <==> step@ is CheckForNewWindows,
        step matches Step::AnnounceWorkspace(space) ==> step@ == StepView::AnnounceWorkspace(space),
        event matches LayoutEvent::WindowFocused(space, window) ==> event@ == LayoutEventView::WindowFocused(
            space,
            window,
        ),
        event matches LayoutEvent::WindowAdded(space, window) ==> event@ == LayoutEventView::WindowAdded(space, window),
        event matches LayoutEvent::WindowRemoved(window) ==> event@ == LayoutEventView::WindowRemoved(window),
        event matches LayoutEvent::SpaceExposed(space, size) ==> event@ == LayoutEventView::SpaceExposed(space, size),
        event matches LayoutEvent::WindowsOnScreenUpdated(space, pid, windows, app) ==> event@
            == LayoutEventView::WindowsOnScreenUpdated(space, pid, windows@, app),
{
}

/// What subscribers are told, what is raised and what a drag means for swaps is
/// seen as it is, part by part.
pub proof fn law_news_and_requests_are_seen_as_they_are(
    news: BroadcastEvent,
    request: RaiseRequest,
    action: ResponseAction,
    swap: SwapStep,
)
    ensures
        news matches BroadcastEvent::WorkspaceChanged { workspace_id, workspace_name, space_id, display_uuid } ==> (
        news@ matches BroadcastEventView::WorkspaceChanged {
            workspace_id: id,
            workspace_name: name,
            space_id: space,
            display_uuid: uuid,
        } && id == workspace_id && name == workspace_name@ && space == space_id && (uuid is Some <==> display_uuid is Some)
            && (display_uuid matches Some(text) ==> uuid == Some(text@))),
        news matches BroadcastEvent::WindowTitleChanged {
            window_id,
            workspace_id,
            workspace_index,
            workspace_name,
            previous_title,
            new_title,
            space_id,
            display_uuid,
        } ==> (news@ matches BroadcastEventView::WindowTitleChanged {
            window_id: window,
            workspace_id: id,
            workspace_index: index,
            workspace_name: name,
            previous_title: previous,
            new_title: new,
            space_id: space,
            display_uuid: uuid,
        } && window == window_id && id == workspace_id && index == workspace_index && name == workspace_name@ && previous
            == previous_title@ && new == new_title@ && space == space_id && (uuid is Some <==> display_uuid is Some) && (
        display_uuid matches Some(text) ==> uuid == Some(text@))),
        request@.focus_window == request.focus_window,
        request@.apps == request.apps@,
        request@.raise_windows.len() == request.raise_windows@.len(),
        forall|i: int|
            0 <= i < request.raise_windows@.len() ==> #[trigger] request@.raise_windows[i] == request.raise_windows@[i]@,
        action is Nothing <==> action@ is Nothing,
        action matches ResponseAction::Warp(point) ==> action@ == ResponseActionView::Warp(point),
        action matches ResponseAction::Raise(raise) ==> action@ == ResponseActionView::Raise(raise@),
        swap is Skip <==> swap@ is Skip,
        swap is Reset <==> swap@ is Reset,
        swap matches SwapStep::Probe(candidates) ==> swap@ == SwapStepView::Probe(candidates@),
{
}

} // verus!
