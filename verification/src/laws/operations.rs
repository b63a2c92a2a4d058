//! What holds of whatever the operations of the reactor give back.
use crate::cli::request::{build_request, execute_prepared, frame_command, query_request, subscribe_request, texts};
use crate::cli::{outcome, Commands, Prepared, RiftCommand, RiftRequest};
use crate::event::{Event, Handler};
use crate::geometry::Point;
use crate::ids::{pid_t, SpaceId, VirtualWorkspaceId, WindowId, WindowServerId};
use crate::laws::activation::law_workspaces_are_switched_to_by_place;
use crate::laws::events::law_tracked_windows_are_notified_about;
use crate::laws::spaces::law_restored_spaces_are_forgotten;
use crate::laws::windows::{
    is_reported, law_complete_lists_are_complete, law_every_application_is_asked, law_reported_windows_are_visible,
    law_reports_change_nothing_else,
};
use crate::reactor::activation::{workspace_index, ActivationSwitch};
use crate::reactor::cycle::{EventEnd, EventNotes, LayoutOutcome, Stage, TrackerReply};
use crate::reactor::space_change::{all_fullscreen, masked, named_spaces};
use crate::reactor::{Reactor, ReactorView};
use crate::requests::{
    tasks_view, AppRequest, EventResponse, EventTapRequest, LayoutEvent, LayoutUpdate, RaiseRequest, StepView, Task,
    TaskView,
};
use crate::state::{DragSession, DragState, RefocusState, WindowServerInfo};
use crate::surroundings::Surroundings;
use crate::table::{lemma_with_item, lookup};
use vstd::prelude::*;

verus! {

/// A window is closed by asking its application, where that is known.
pub proof fn law_applications_close_their_windows(reactor: &Reactor, window: WindowId, task: Option<Task>)
    requires
        call_ensures(Reactor::request_close_window, (reactor, window), task),
    ensures
        task is Some <==> lookup(reactor@.apps, window.pid) is Some,
        task matches Some(task) ==> task@ == TaskView::SendToApp(window.pid, AppRequest::CloseWindow(window)),
{
}

/// Mission control is remembered as it was said to be, and nothing else changes.
/// The event tap hears of it where it is news, and never where it was said before.
pub proof fn law_mission_control_is_remembered(reactor: &mut Reactor, active: bool, task: Option<Task>)
    requires
        call_ensures(Reactor::set_mission_control_active, (reactor, active), task),
    ensures
        final(reactor)@.mission_control is Active <==> active,
        final(reactor)@ == (ReactorView { mission_control: final(reactor)@.mission_control, ..old(reactor)@ }),
        task is Some <==> old(reactor)@.has_event_tap && (old(reactor)@.mission_control is Active) != active,
        task matches Some(task) ==> task@ == TaskView::SendToEventTap(
            EventTapRequest::SetFocusFollowsMouseEnabled(!active && old(reactor)@.menu is Closed),
        ),
{
}

/// Whether mission control shows is what was said last.
pub proof fn law_mission_control_is_told_as_remembered(reactor: &Reactor, active: bool)
    requires
        call_ensures(Reactor::is_mission_control_active, (reactor,), active),
    ensures
        active <==> reactor@.mission_control is Active,
{
}

/// A layout update is asked for as it is said to be.
pub proof fn law_layout_updates_are_asked_for(reactor: &Reactor, is_resize: bool, is_switch: bool, task: Task)
    requires
        call_ensures(Reactor::update_layout, (reactor, is_resize, is_switch), task),
    ensures
        task@ matches TaskView::UpdateLayout(update) && update.is_resize == is_resize && update.is_workspace_switch
            == is_switch,
{
}

/// A session that is taken is over, and nothing else changes; whoever takes one
/// after that gets none.
pub proof fn law_sessions_are_taken_once(
    reactor: &mut Reactor,
    taken: Option<DragSession>,
    after: &mut Reactor,
    again: Option<DragSession>,
)
    requires
        call_ensures(Reactor::take_active_drag_session, (reactor,), taken),
        old(after)@ == final(reactor)@,
        call_ensures(Reactor::take_active_drag_session, (after,), again),
    ensures
        old(reactor)@.drag is Inactive ==> taken is None,
        old(reactor)@.drag matches DragState::Active { session } ==> taken == Some(session),
        old(reactor)@.drag matches DragState::PendingSwap { session, .. } ==> taken == Some(session),
        final(reactor)@.drag is Inactive,
        final(reactor)@ == (ReactorView { drag: final(reactor)@.drag, ..old(reactor)@ }),
        again is None,
        final(after)@ == old(after)@,
{
}

/// A drag that is finished is over. Where it counts, its window is left out of
/// the next layout; where it does not, nothing else changes. To finish it again
/// does nothing.
pub proof fn law_drags_are_finished_once(
    reactor: &mut Reactor,
    env: &Surroundings,
    end: (bool, Vec<Task>),
    after: &mut Reactor,
    again: (bool, Vec<Task>),
)
    requires
        call_ensures(Reactor::finalize_active_drag, (reactor, env), end),
        old(after)@ == final(reactor)@,
        call_ensures(Reactor::finalize_active_drag, (after, env), again),
    ensures
        final(reactor)@.drag is Inactive,
        final(reactor)@ == (ReactorView {
            drag: final(reactor)@.drag,
            skip_layout: final(reactor)@.skip_layout,
            ..old(reactor)@
        }),
        match old(reactor)@.session() {
            Some(session) => {
                &&& end.0 <==> old(reactor)@.drag_counts(session, *env)
                &&& tasks_view(end.1@) == old(reactor)@.move_tasks(session, *env)
                &&& end.0 ==> final(reactor)@.skip_layout == Some(session.window)
                &&& !end.0 ==> final(reactor)@.skip_layout == old(reactor)@.skip_layout
            },
            None => !end.0 && end.1@.len() == 0 && final(reactor)@ == old(reactor)@,
        },
        !again.0 && again.1@.len() == 0,
        final(after)@ == old(after)@,
{
    assert(final(reactor)@.session() is None);
    assert(old(reactor)@.drag is Inactive ==> old(reactor)@.session() is None);
}

/// An event is put on to its handler with what is remembered of it. A question
/// changes nothing; every other event makes the tracked main window the main
/// window, and changes nothing else.
pub proof fn law_events_tell_the_main_window(
    reactor: &mut Reactor,
    event: Event,
    reply: TrackerReply,
    r: (Handler, EventNotes),
)
    requires
        call_ensures(Reactor::handle_event, (reactor, event, reply), r),
    ensures
        r.0 == event.handler(),
        r.1.raised_window == reply.raised_window,
        r.1.verdict == event.verdict(),
        r.1.updates_notifications == event.changes_windows(),
        event.query() is Some ==> final(reactor)@ == old(reactor)@,
        event.query() is None ==> final(reactor)@.main_window == reply.main_window,
        final(reactor)@ == (ReactorView { main_window: final(reactor)@.main_window, ..old(reactor)@ }),
{
}

/// An event goes from stage to stage until it is over: first the layout engine
/// hears of a raised window, then the layout is updated, then put off work is
/// done. Only the last of these changes the reactor, and an event that is over
/// does nothing more.
pub proof fn law_events_take_their_course(
    reactor: &mut Reactor,
    notes: &EventNotes,
    stage: Stage,
    env: &Surroundings,
    r: (Vec<Task>, Stage),
)
    requires
        call_ensures(Reactor::proceed, (reactor, notes, stage, env), r),
    ensures
        stage matches Stage::Handled(answer) ==> r.1 == Stage::FocusSent(answer) && tasks_view(r.0@) == old(
            reactor,
        )@.raise_news(notes.raised_window, *env),
        stage matches Stage::FocusSent(answer) ==> r.1 == Stage::LayoutDone(LayoutOutcome::Skipped) && tasks_view(
            r.0@,
        ) == old(reactor)@.layout_tasks(notes.verdict, answer),
        stage is LayoutDone ==> r.1 is Over,
        stage is Over ==> r.1 is Over && r.0@.len() == 0,
        stage !is LayoutDone ==> final(reactor)@ == old(reactor)@,
        final(reactor)@ == (ReactorView {
            switch: final(reactor)@.switch,
            notified: final(reactor)@.notified,
            ..old(reactor)@
        }),
        stage matches Stage::LayoutDone(layout) ==> {
            &&& final(reactor)@.switch == old(reactor)@.switch_ended(layout.changed())
            &&& !notes.updates_notifications ==> final(reactor)@.notified == old(reactor)@.notified
        },
{
}

/// The last stage asks for a cursor move that was put off, then for
/// notifications about other windows than before: one task for each, and none
/// where there is nothing to ask for.
pub proof fn law_the_last_stage_does_what_was_put_off(
    reactor: &mut Reactor,
    notes: &EventNotes,
    layout: LayoutOutcome,
    env: &Surroundings,
    r: (Vec<Task>, Stage),
)
    requires
        call_ensures(Reactor::proceed, (reactor, notes, Stage::LayoutDone(layout), env), r),
    ensures
        ({
            let moved = old(reactor)@.deferred_warp(*env) is Some;
            let others = final(reactor)@.notified != old(reactor)@.notified;
            let tasks = tasks_view(r.0@);
            &&& tasks.len() == (if moved { 1int } else { 0 }) + (if others { 1int } else { 0 })
            &&& old(reactor)@.deferred_warp(*env) matches Some(center) ==> tasks[0] == TaskView::SendToEventTap(
                EventTapRequest::Warp(center),
            )
            &&& others ==> tasks.last() == TaskView::WatchWindows(final(reactor)@.notified)
            &&& others ==> notes.updates_notifications
        }),
{
}

/// Where windows came or went, the windows that are notified about at the end of
/// an event are those that the window server is known to track, by number, from
/// the smallest to the largest; else they stay. They are handed out exactly
/// where they are others than before.
pub proof fn law_events_end_with_notifications(
    reactor: &mut Reactor,
    notes: &EventNotes,
    layout: LayoutOutcome,
    env: &Surroundings,
    end: EventEnd,
    id: u32,
)
    requires
        call_ensures(Reactor::finish_event, (reactor, notes, layout, env), end),
    ensures
        final(reactor)@.switch == old(reactor)@.switch_ended(layout.changed()),
        final(reactor)@ == (ReactorView {
            switch: final(reactor)@.switch,
            notified: final(reactor)@.notified,
            ..old(reactor)@
        }),
        notes.updates_notifications ==> {
            &&& final(reactor)@.notified.contains(id) <==> exists|i: int|
                0 <= i < old(reactor)@.window_ids.len() && (#[trigger] old(reactor)@.window_ids[i]).0
                    == WindowServerId(id)
            &&& forall|i: int, j: int|
                0 <= i < j < final(reactor)@.notified.len() ==> #[trigger] final(reactor)@.notified[i]
                    <= #[trigger] final(reactor)@.notified[j]
        },
        !notes.updates_notifications ==> end.notify is None && final(reactor)@.notified == old(reactor)@.notified,
        end.notify is Some <==> final(reactor)@.notified != old(reactor)@.notified,
        end.notify matches Some(ids) ==> ids@ == final(reactor)@.notified,
        end.warp is Some <==> old(reactor)@.deferred_warp(*env) is Some,
        end.warp matches Some(task) ==> task@ == TaskView::SendToEventTap(
            EventTapRequest::Warp(old(reactor)@.deferred_warp(*env)->0),
        ),
{
    if notes.updates_notifications {
        law_tracked_windows_are_notified_about(old(reactor)@.window_ids, final(reactor)@.notified, id);
    }
}

/// The layout engine is asked to switch to the workspace itself, after the
/// floating windows of its space are remembered, and the switch is remembered; a
/// workspace that is not listed is not switched to, and nothing changes.
pub proof fn law_automatic_switches_lead_to_their_workspace(
    reactor: &mut Reactor,
    target: ActivationSwitch,
    workspaces: &Vec<VirtualWorkspaceId>,
    now: u64,
    env: &Surroundings,
    tasks: Vec<Task>,
)
    requires
        call_ensures(Reactor::begin_auto_workspace_switch, (reactor, target, workspaces, now, env), tasks),
    ensures
        workspaces@.contains(target.to) ==> {
            let asked = tasks_view(tasks@);
            &&& asked.len() > 0
            &&& asked.drop_last() =~= old(reactor)@.floating_tasks(target.space, *env)
            &&& asked.last() matches TaskView::SwitchToWorkspace { space, index } && space == target.space && index
                < workspaces@.len() && workspaces@[index as int] == target.to && forall|j: int|
                0 <= j < index ==> #[trigger] workspaces@[j] != target.to
            &&& final(reactor)@.switch == old(reactor)@.auto_switched(target, now)
        },
        !workspaces@.contains(target.to) ==> tasks@.len() == 0 && final(reactor)@ == old(reactor)@,
        final(reactor)@ == (ReactorView { switch: final(reactor)@.switch, ..old(reactor)@ }),
{
    law_workspaces_are_switched_to_by_place(workspaces@, target.to);
    assert(workspaces.len() == workspaces@.len());
    if workspace_index(workspaces@, target.to) is Some {
        assert(tasks_view(tasks@).drop_last() =~= old(reactor)@.floating_tasks(target.space, *env));
    } else {
        assert(!workspaces@.contains(target.to));
    }
}

/// Applications that were asked to list their windows again are waited for;
/// those that could not be asked are not. Nothing else changes.
pub proof fn law_asked_applications_are_waited_for(reactor: &mut Reactor, pid: pid_t, was_sent: bool, other: pid_t)
    requires
        call_ensures(Reactor::refresh_requested, (reactor, pid, was_sent), ()),
    ensures
        final(reactor)@.pending_refresh.contains(other) <==> old(reactor)@.pending_refresh.contains(other) || (was_sent
            && other == pid),
        final(reactor)@ == (ReactorView { pending_refresh: final(reactor)@.pending_refresh, ..old(reactor)@ }),
{
    lemma_with_item(old(reactor)@.pending_refresh, pid, other);
}

/// After a complete list of windows exactly those on it are visible, and only
/// what reports may change has changed.
pub proof fn law_complete_lists_tell_what_is_visible(
    reactor: &mut Reactor,
    infos: &Vec<WindowServerInfo>,
    verdicts: &Vec<bool>,
    id: WindowServerId,
)
    requires
        infos@.len() == verdicts@.len(),
        call_ensures(Reactor::update_complete_window_server_info, (reactor, infos, verdicts), ()),
    ensures
        final(reactor)@.visible.contains(id) <==> is_reported(infos@, id),
        final(reactor)@ == (ReactorView {
            visible: final(reactor)@.visible,
            observed: final(reactor)@.observed,
            server_info: final(reactor)@.server_info,
            windows: final(reactor)@.windows,
            ..old(reactor)@
        }),
{
    law_complete_lists_are_complete(old(reactor)@, infos@, verdicts@, id);
    law_reports_change_nothing_else(ReactorView { visible: Seq::empty(), ..old(reactor)@ }, infos@, verdicts@);
}

/// When mission control is left, nothing is waited for any more, every
/// application is asked twice, first to refresh and then for its windows, and
/// the layout and the menu follow. Windows stay visible, and those that are
/// reported become so.
pub proof fn law_everything_is_asked_for_after_mission_control(
    reactor: &mut Reactor,
    infos: &Vec<WindowServerInfo>,
    verdicts: &Vec<bool>,
    tasks: Vec<Task>,
    id: WindowServerId,
)
    requires
        infos@.len() == verdicts@.len(),
        call_ensures(Reactor::refresh_windows_after_mission_control, (reactor, infos, verdicts), tasks),
    ensures
        final(reactor)@.pending_refresh.len() == 0,
        final(reactor)@.visible.contains(id) <==> old(reactor)@.visible.contains(id) || is_reported(infos@, id),
        final(reactor)@ == (ReactorView {
            visible: final(reactor)@.visible,
            observed: final(reactor)@.observed,
            server_info: final(reactor)@.server_info,
            windows: final(reactor)@.windows,
            pending_refresh: final(reactor)@.pending_refresh,
            ..old(reactor)@
        }),
        ({
            let n = old(reactor)@.apps.len() as int;
            let asked = tasks_view(tasks@);
            &&& asked.len() == 2 * n + 2
            &&& forall|i: int|
                0 <= i < n ==> {
                    &&& #[trigger] asked[i] == TaskView::RefreshApp(old(reactor)@.apps[i].0)
                    &&& asked[n + i] == TaskView::SendToApp(
                        old(reactor)@.apps[i].0,
                        AppRequest::GetVisibleWindows { force_refresh: false },
                    )
                }
            &&& asked[2 * n] == TaskView::UpdateLayout(
                LayoutUpdate { is_resize: false, is_workspace_switch: false },
            )
            &&& asked[2 * n + 1] == TaskView::SendMenuUpdate
        }),
{
    law_reported_windows_are_visible(old(reactor)@, infos@, verdicts@, id);
    law_reports_change_nothing_else(old(reactor)@, infos@, verdicts@);
    law_every_application_is_asked(final(reactor)@);
}

/// A window that lies in a workspace other than the active one asks for the
/// focus to be given anew on its space; any other window leaves that as it was.
/// Nothing else changes.
pub proof fn law_hidden_windows_give_up_the_focus(
    reactor: &mut Reactor,
    space: SpaceId,
    window: WindowId,
    env: &Surroundings,
)
    requires
        call_ensures(Reactor::request_refocus_if_hidden, (reactor, space, window, env), ()),
    ensures
        env.active_workspace(space) matches Some(active) && (env.workspace_of(space, window) matches Some(workspace)
            && workspace != active) ==> final(reactor)@.refocus == RefocusState::Pending(space),
        !(env.active_workspace(space) matches Some(active) && (env.workspace_of(space, window) matches Some(workspace)
            && workspace != active)) ==> final(reactor)@.refocus == old(reactor)@.refocus,
        final(reactor)@ == (ReactorView { refocus: final(reactor)@.refocus, ..old(reactor)@ }),
{
}

/// To send an event to the layout engine leaves what it leaves to prepare for
/// it, and a window is made key after it as the answer asks.
pub proof fn law_layout_events_are_prepared_for(
    reactor: &mut Reactor,
    event: &LayoutEvent,
    response: &EventResponse,
    env: &Surroundings,
    key: Option<(pid_t, WindowServerId)>,
    other: &mut Reactor,
)
    requires
        call_ensures(Reactor::send_layout_event, (reactor, event, response, env), key),
        old(other)@ == old(reactor)@,
        call_ensures(Reactor::prepare_refocus_after_layout_event, (other, event, env), ()),
    ensures
        final(reactor)@ == final(other)@,
        final(reactor)@ == (ReactorView { refocus: final(reactor)@.refocus, ..old(reactor)@ }),
        final(reactor)@.refocus == old(reactor)@.refocus_after(event@, *env),
        key == final(reactor)@.key_request(response.raise_windows@, response.focus_window, *env),
{
}

/// To raise one window names that window alone, gives it the focus and moves the
/// cursor where it is told to; its application comes along where it is known.
pub proof fn law_single_windows_are_raised_alone(
    reactor: &Reactor,
    window: WindowId,
    warp: Option<Point>,
    request: RaiseRequest,
)
    requires
        call_ensures(Reactor::raise_window, (reactor, window, warp), request),
    ensures
        request@.raise_windows.len() == 1,
        request@.raise_windows[0].len() == 1,
        request@.raise_windows[0][0] == window,
        request@.focus_window == Some((window, warp)),
        lookup(reactor@.apps, window.pid) is Some ==> request@.apps =~= seq![window.pid],
        lookup(reactor@.apps, window.pid) is None ==> request@.apps.len() == 0,
{
    reveal_with_fuel(ReactorView::known_apps, 3);
    assert(seq![window].drop_last() =~= Seq::empty());
    lemma_with_item(Seq::empty(), window.pid, window.pid);
}

/// The spaces that were made active are, and no other space is.
pub proof fn law_spaces_are_active_as_told(
    reactor: &mut Reactor,
    spaces: &Vec<Option<SpaceId>>,
    after: &Reactor,
    space: SpaceId,
    active: bool,
)
    requires
        call_ensures(Reactor::set_active_spaces, (reactor, spaces), ()),
        after@ == final(reactor)@,
        call_ensures(Reactor::is_space_active, (after, space), active),
    ensures
        active <==> exists|i: int| 0 <= i < spaces@.len() && #[trigger] spaces@[i] == Some(space),
        final(reactor)@ == (ReactorView { active_spaces: final(reactor)@.active_spaces, ..old(reactor)@ }),
        final(reactor)@.active_spaces.no_duplicates(),
{
}

/// The spaces that are named are those that some screen shows.
proof fn lemma_named_spaces(spaces: Seq<Option<SpaceId>>, space: SpaceId)
    ensures
        named_spaces(spaces).contains(space) <==> spaces.contains(Some(space)),
    decreases spaces.len(),
{
    if spaces.len() > 0 {
        let before = spaces.drop_last();
        lemma_named_spaces(before, space);
        assert(spaces =~= before.push(spaces.last()));
        lemma_push(before, spaces.last(), Some(space));
        if let Some(last) = spaces.last() {
            lemma_push(named_spaces(before), last, space);
        }
    }
}

/// A sequence with one more item contains that item beside its own.
proof fn lemma_push<K>(s: Seq<K>, k: K, other: K)
    ensures
        s.push(k).contains(other) <==> (s.contains(other) || other == k),
{
    let t = s.push(k);
    assert(t[s.len() as int] == k);
    if s.contains(other) {
        let i = choose|i: int| 0 <= i < s.len() && s[i] == other;
        assert(t[i] == other);
    }
}

/// Fullscreen spaces are left out of what is shown. Where nothing else is left,
/// it is said so and nothing changes; else the spaces that come up are restored
/// and forgotten.
pub proof fn law_fullscreen_spaces_are_passed_over(
    reactor: &mut Reactor,
    spaces: &mut Vec<Option<SpaceId>>,
    env: &Surroundings,
    r: (bool, Vec<Task>),
    space: SpaceId,
)
    requires
        call_ensures(Reactor::handle_fullscreen_space_transition, (reactor, spaces, env), r),
    ensures
        final(spaces)@ == masked(old(spaces)@, *env),
        r.0 <==> all_fullscreen(old(spaces)@, *env),
        r.0 ==> r.1@.len() == 0 && final(reactor)@ == old(reactor)@,
        !r.0 ==> tasks_view(r.1@) == old(reactor)@.all_restore_tasks(named_spaces(final(spaces)@)),
        !r.0 && final(spaces)@.contains(Some(space)) ==> lookup(final(reactor)@.fullscreen, space) is None,
        !r.0 && !final(spaces)@.contains(Some(space)) ==> lookup(final(reactor)@.fullscreen, space) == lookup(
            old(reactor)@.fullscreen,
            space,
        ),
        final(reactor)@ == (ReactorView { fullscreen: final(reactor)@.fullscreen, ..old(reactor)@ }),
{
    let shown = named_spaces(masked(old(spaces)@, *env));
    law_restored_spaces_are_forgotten(old(reactor)@, shown, space);
    lemma_named_spaces(masked(old(spaces)@, *env), space);
}

/// A change of spaces that was put off waits until it is about as many screens
/// as there are; it is dealt with once, and everything after it goes on with the
/// spaces that are not fullscreen.
pub proof fn law_put_off_space_changes_are_made_once(
    reactor: &mut Reactor,
    env: &Surroundings,
    tasks: Vec<Task>,
    after: &mut Reactor,
    again: Vec<Task>,
)
    requires
        call_ensures(Reactor::try_apply_pending_space_change, (reactor, env), tasks),
        old(after)@ == final(reactor)@,
        call_ensures(Reactor::try_apply_pending_space_change, (after, env), again),
    ensures
        again@.len() == 0,
        final(after)@ == old(after)@,
        match old(reactor)@.pending_space_change {
            Some(pending) => {
                let fits = pending.spaces@.len() == old(reactor)@.screens.len();
                let skipped = all_fullscreen(pending.spaces@, *env);
                &&& final(reactor)@.pending_space_change is None <==> fits
                &&& tasks@.len() == 0 <==> !fits || skipped
                &&& fits && !skipped ==> tasks_view(tasks@).last() == TaskView::Resume(
                    StepView::ApplySpaces(masked(pending.spaces@, *env), pending.ws_info@),
                )
                &&& fits && !skipped ==> tasks_view(tasks@).drop_last() =~= old(reactor)@.all_restore_tasks(
                    named_spaces(masked(pending.spaces@, *env)),
                )
            },
            None => tasks@.len() == 0 && final(reactor)@ == old(reactor)@,
        },
        final(reactor)@ == (ReactorView {
            pending_space_change: final(reactor)@.pending_space_change,
            fullscreen: final(reactor)@.fullscreen,
            ..old(reactor)@
        }),
        tasks@.len() == 0 ==> final(reactor)@.fullscreen == old(reactor)@.fullscreen,
{
}

/// A session that is changed in place is the active one, and the change is the
/// only one.
pub proof fn law_sessions_are_changed_in_place(reactor: &mut Reactor, session: Option<&mut DragSession>)
    requires
        call_ensures(Reactor::get_active_drag_session_mut, (reactor,), session),
    ensures
        session is Some <==> old(reactor)@.drag is Active,
        session is None ==> final(reactor)@ == old(reactor)@,
        final(reactor)@ == (ReactorView { drag: final(reactor)@.drag, ..old(reactor)@ }),
        old(reactor)@.drag is Active ==> final(reactor)@.drag is Active,
{
}

/// A command travels as the text that it was written as; one that changes the
/// configuration carries the configuration with it where there is one, and
/// nothing else carries anything. One that could not be written is refused.
pub proof fn law_commands_travel_as_written(
    command: &RiftCommand,
    json: Result<String, String>,
    config: Option<String>,
    r: Result<RiftRequest, String>,
)
    requires
        call_ensures(frame_command, (command, json, config), r),
    ensures
        r is Ok <==> json is Ok,
        r matches Ok(request) ==> (request matches RiftRequest::ExecuteCommand { command: text, args } && Ok::<
            String,
            String,
        >(text) == json && (args@.len() == 0 || args@.len() == 2) && (args@.len() == 2 <==> command is Config
            && config is Some) && (args@.len() == 2 ==> args@[0]@ == "__apply_config__"@ && args@[1]@ == config->0@)),
        (r matches Err(message) && json matches Err(cause)) ==> r->Err_0@ == "Failed to serialize command: "@
            + json->Err_0@,
{
    if let Ok(RiftRequest::ExecuteCommand { args, .. }) = r {
        assert(texts(args@).len() == args@.len());
        if args@.len() == 2 {
            assert(texts(args@)[0] == args@[0]@);
            assert(texts(args@)[1] == args@[1]@);
        }
    }
}

/// Commands of the service are never sent; a question and a subscription always
/// are, each as its own request.
pub proof fn law_service_commands_stay_here(command: Commands, r: Result<Prepared, String>)
    requires
        call_ensures(build_request, (command,), r),
    ensures
        command is Service ==> r is Err,
        command is Query || command is Subscribe ==> r is Ok,
        command matches Commands::Query { query } ==> (r matches Ok(Prepared::Request(request)) && request
            == query_request(query)),
        command matches Commands::Subscribe { subscribe } ==> (r matches Ok(Prepared::Request(request)) && request
            == subscribe_request(subscribe)),
        command matches Commands::Execute { command } ==> execute_prepared(command, r),
        command is Service ==> outcome(r) == Err::<Prepared, Seq<char>>(
            "Service commands are handled locally and should not be sent to the rift server."@,
        ),
{
}

} // verus!
