//! What holds of the course of events.
use crate::command::{Command, ReactorCommand};
use crate::event::{Event, Handler, Query, Verdict};
use crate::geometry::Point;
use crate::ids::{WindowId, WindowServerId};
use crate::reactor::cycle::{is_sorting_of, stage_after, warp_tasks, watch_tasks, wsid_numbers, LayoutOutcome, Stage};
use crate::reactor::ReactorView;
use crate::requests::{EventTapRequest, LayoutEventView, TaskView};
use crate::surroundings::Surroundings;
use crate::table::lookup;
use vstd::prelude::*;

verus! {

/// Questions are answered, and nothing else is.
pub proof fn law_queries_are_answered(event: Event)
    ensures
        event.handler() is Query <==> event.query() is Some,
        event.query() matches Some(query) ==> event.handler() == Handler::Query(query),
        event.query() is Some ==> !event.changes_windows() && event.verdict() is Ignored,
{
}

/// Nothing follows the answer to a question; every other event proceeds with
/// what its handler answered.
pub proof fn law_nothing_follows_an_answer(event: Event, answer: bool)
    ensures
        stage_after(event.handler(), answer) is Over <==> event.query() is Some,
        event.query() is None ==> stage_after(event.handler(), answer) == Stage::Handled(answer),
{
}

/// Everything but the deactivation of applications, their activation as the
/// system sees it and the change of their main windows is dealt with.
pub proof fn law_events_are_dealt_with(event: Event)
    ensures
        event.handler() is Nothing <==> (event is ApplicationDeactivated || event is ApplicationGloballyActivated
            || event is ApplicationGloballyDeactivated || event is ApplicationMainWindowChanged),
{
}

/// The layout does not change while a window is dragged, unless a window is gone.
pub proof fn law_drags_suppress_layout(state: ReactorView, verdict: Verdict, answer: bool)
    requires
        state.in_drag(),
        !(verdict is Destroyed && answer),
    ensures
        state.layout_tasks(verdict, answer) =~= Seq::<TaskView>::empty(),
{
}

/// Whenever the layout is updated, so is the menu, right after it; and outside
/// drags that is the case after every event.
pub proof fn law_menu_follows_layout(state: ReactorView, verdict: Verdict, answer: bool)
    ensures
        !state.in_drag() ==> state.layout_tasks(verdict, answer).len() == 2,
        state.layout_tasks(verdict, answer).len() > 0 ==> {
            &&& state.layout_tasks(verdict, answer).len() == 2
            &&& state.layout_tasks(verdict, answer)[0] is UpdateLayout
            &&& state.layout_tasks(verdict, answer)[1] is SendMenuUpdate
        },
{
}

/// There is one way to sort numbers, so windows are notified about anew only
/// where they are others than before.
pub proof fn law_notifications_are_stable(a: Seq<u32>, b: Seq<u32>, ids: Seq<u32>)
    requires
        is_sorting_of(a, ids),
        is_sorting_of(b, ids),
    ensures
        a == b,
{
    let leq = |x: u32, y: u32| x <= y;
    assert(vstd::relations::sorted_by(a, leq)) by {
        assert forall|i: int, j: int| 0 <= i < j < a.len() implies #[trigger] leq(a[i], a[j]) by {
            assert(a[i] <= a[j]);
        }
    }
    assert(vstd::relations::sorted_by(b, leq)) by {
        assert forall|i: int, j: int| 0 <= i < j < b.len() implies #[trigger] leq(b[i], b[j]) by {
            assert(b[i] <= b[j]);
        }
    }
    vstd::seq_lib::lemma_sorted_unique(a, b, leq);
}

/// A layout that was not updated, or could not be, did not change.
pub proof fn law_only_updates_change_the_layout(layout: LayoutOutcome)
    ensures
        layout is Skipped || layout is Failed ==> !layout.changed(),
{
}

/// Every event of the system goes to what deals with events of its kind, with
/// all that it carries; whether this program caused an activation is not handed
/// on.
pub proof fn law_events_go_to_their_own_handler(event: Event)
    ensures
        event matches Event::ScreenParametersChanged(screens, infos) ==> event.handler()
            == Handler::ScreenParametersChanged(screens, infos),
        event matches Event::SpaceChanged(spaces, infos) ==> event.handler() == Handler::SpaceChanged(spaces, infos),
        event matches Event::ActiveSpacesChanged(spaces) ==> event.handler() == Handler::ActiveSpacesChanged(spaces),
        event matches Event::ApplicationLaunched {
            pid,
            info,
            is_frontmost,
            main_window,
            visible_windows,
            window_server_info,
        } ==> event.handler() == (Handler::ApplicationLaunched {
            pid,
            info,
            visible_windows,
            window_server_info,
            is_frontmost,
            main_window,
        }),
        event matches Event::ApplicationTerminated(pid) ==> event.handler() == Handler::ApplicationTerminated(pid),
        event matches Event::ApplicationThreadTerminated(pid) ==> event.handler()
            == Handler::ApplicationThreadTerminated(pid),
        event matches Event::ApplicationActivated(pid, _) ==> event.handler() == Handler::ApplicationActivated(pid),
        event matches Event::WindowsDiscovered { pid, new, known_visible } ==> event.handler()
            == (Handler::WindowsDiscovered { pid, new, known_visible }),
        event matches Event::WindowCreated(window, info, report, mouse) ==> event.handler() == Handler::WindowCreated(
            window,
            info,
            report,
            mouse,
        ),
        event matches Event::WindowDestroyed(window) ==> event.handler() == Handler::WindowDestroyed(window),
        event matches Event::WindowServerDestroyed(wsid, space) ==> event.handler() == Handler::WindowServerDestroyed(
            wsid,
            space,
        ),
        event matches Event::WindowServerAppeared(wsid, space) ==> event.handler() == Handler::WindowServerAppeared(
            wsid,
            space,
        ),
        event matches Event::WindowMinimized(window) ==> event.handler() == Handler::WindowMinimized(window),
        event matches Event::WindowDeminiaturized(window) ==> event.handler() == Handler::WindowDeminiaturized(window),
        event matches Event::WindowFrameChanged(window, frame, seen, requested, mouse) ==> event.handler()
            == Handler::WindowFrameChanged(window, frame, seen, requested, mouse),
        event matches Event::WindowTitleChanged(window, title) ==> event.handler() == Handler::WindowTitleChanged(
            window,
            title,
        ),
        event matches Event::ResyncAppForWindow(wsid) ==> event.handler() == Handler::ResyncAppForWindow(wsid),
        event matches Event::MouseMovedOverWindow(wsid) ==> event.handler() == Handler::MouseMovedOverWindow(wsid),
        event matches Event::RaiseCompleted { window_id, sequence_id } ==> event.handler() == (
        Handler::RaiseCompleted { window_id, sequence_id }),
        event matches Event::RaiseTimeout { sequence_id } ==> event.handler() == (Handler::RaiseTimeout {
            sequence_id,
        }),
        event matches Event::ConfigUpdated(config) ==> event.handler() == Handler::ConfigUpdated(config),
        event matches Event::ApplyAppRulesToExistingWindows { pid, app_info, windows } ==> event.handler() == (
        Handler::ApplyAppRulesToExistingWindows { pid, app_info, windows }),
        event is MenuOpened <==> event.handler() is MenuOpened,
        event is MenuClosed <==> event.handler() is MenuClosed,
        event is MouseUp <==> event.handler() is MouseUp,
        event is SystemWoke <==> event.handler() is SystemWoke,
        event is MissionControlNativeEntered <==> event.handler() is MissionControlNativeEntered,
        event is MissionControlNativeExited <==> event.handler() is MissionControlNativeExited,
        event is RegisterWmSender <==> event.handler() is RegisterWmSender,
{
}

/// What deals with events of a kind is handed events of that kind only.
pub proof fn law_handlers_get_their_own_events(event: Event)
    ensures
        event is ScreenParametersChanged <==> event.handler() is ScreenParametersChanged,
        event is SpaceChanged <==> event.handler() is SpaceChanged,
        event is ActiveSpacesChanged <==> event.handler() is ActiveSpacesChanged,
        event is ApplicationLaunched <==> event.handler() is ApplicationLaunched,
        event is ApplicationTerminated <==> event.handler() is ApplicationTerminated,
        event is ApplicationThreadTerminated <==> event.handler() is ApplicationThreadTerminated,
        event is ApplicationActivated <==> event.handler() is ApplicationActivated,
        event is WindowsDiscovered <==> event.handler() is WindowsDiscovered,
        event is WindowCreated <==> event.handler() is WindowCreated,
        event is WindowDestroyed <==> event.handler() is WindowDestroyed,
        event is WindowServerDestroyed <==> event.handler() is WindowServerDestroyed,
        event is WindowServerAppeared <==> event.handler() is WindowServerAppeared,
        event is WindowMinimized <==> event.handler() is WindowMinimized,
        event is WindowDeminiaturized <==> event.handler() is WindowDeminiaturized,
        event is WindowFrameChanged <==> event.handler() is WindowFrameChanged,
        event is WindowTitleChanged <==> event.handler() is WindowTitleChanged,
        event is ResyncAppForWindow <==> event.handler() is ResyncAppForWindow,
        event is MouseMovedOverWindow <==> event.handler() is MouseMovedOverWindow,
        event is RaiseCompleted <==> event.handler() is RaiseCompleted,
        event is RaiseTimeout <==> event.handler() is RaiseTimeout,
        event is ConfigUpdated <==> event.handler() is ConfigUpdated,
        event is ApplyAppRulesToExistingWindows <==> event.handler() is ApplyAppRulesToExistingWindows,
{
}

/// A command goes to what carries it out, with all that it says; a command for
/// the layout goes to the layout, and one for the metrics to these.
pub proof fn law_commands_go_to_what_carries_them_out(command: Command)
    ensures
        Event::Command(command).handler() == command.handler(),
        command matches Command::Layout(layout) ==> command.handler() == Handler::LayoutCommand(layout),
        command matches Command::Metrics(metrics) ==> command.handler() == Handler::MetricsCommand(metrics),
        command.handler() is LayoutCommand <==> command is Layout,
        command.handler() is MetricsCommand <==> command is Metrics,
        command matches Command::Reactor(own) ==> {
            &&& own is Debug <==> command.handler() is Debug
            &&& own is Serialize <==> command.handler() is Serialize
            &&& own is SaveAndExit <==> command.handler() is SaveAndExit
            &&& own is ShowMissionControlAll <==> command.handler() is ShowMissionControlAll
            &&& own is ShowMissionControlCurrent <==> command.handler() is ShowMissionControlCurrent
            &&& own is DismissMissionControl <==> command.handler() is DismissMissionControl
            &&& own matches ReactorCommand::SwitchSpace(direction) ==> command.handler() == Handler::SwitchSpace(direction)
            &&& own matches ReactorCommand::FocusWindow { window_id, window_server_id } ==> command.handler() == (
            Handler::FocusWindow { window_id, window_server_id })
            &&& own matches ReactorCommand::MoveMouseToDisplay(selector) ==> command.handler()
                == Handler::MoveMouseToDisplay(selector)
            &&& own matches ReactorCommand::FocusDisplay(selector) ==> command.handler() == Handler::FocusDisplay(
                selector,
            )
            &&& own matches ReactorCommand::CloseWindow { window_server_id } ==> command.handler() == (
            Handler::CloseWindow { window_server_id })
            &&& own matches ReactorCommand::MoveWindowToDisplay { selector, window_id } ==> command.handler() == (
            Handler::MoveWindowToDisplay { selector, window_id })
        },
{
}

/// A question is put on as it was asked, about what it was asked about.
pub proof fn law_questions_are_put_on_as_asked(event: Event)
    ensures
        event matches Event::QueryWorkspaces { space_id } ==> event.query() == Some(Query::Workspaces { space_id }),
        event matches Event::QueryWindows { space_id } ==> event.query() == Some(Query::Windows { space_id }),
        event matches Event::QueryActiveWorkspace { space_id } ==> event.query() == Some(
            Query::ActiveWorkspace { space_id },
        ),
        event matches Event::QueryWindowInfo { window_id } ==> event.query() == Some(Query::WindowInfo { window_id }),
        event matches Event::QueryLayoutState { space_id } ==> event.query() == Some(Query::LayoutState { space_id }),
        event is QueryDisplays <==> event.query() == Some(Query::Displays),
        event is QueryApplications <==> event.query() == Some(Query::Applications),
        event is QueryMetrics <==> event.query() == Some(Query::Metrics),
        event.query() is Some <==> (event is QueryWorkspaces || event is QueryWindows || event is QueryActiveWorkspace
            || event is QueryDisplays || event is QueryWindowInfo || event is QueryApplications
            || event is QueryLayoutState || event is QueryMetrics),
{
}

/// The windows to be notified about are looked at again after exactly the events
/// that can bring windows or take them away: of windows themselves, of
/// applications that come and go, and of the screens and their spaces. What a
/// handler answers means something for two events only.
pub proof fn law_windows_come_and_go_with_their_events(event: Event)
    ensures
        event.changes_windows() <==> {
            ||| event.handler() is WindowCreated || event.handler() is WindowDestroyed
            ||| event.handler() is WindowServerAppeared || event.handler() is WindowServerDestroyed
            ||| event.handler() is WindowsDiscovered
            ||| event.handler() is ApplicationLaunched || event.handler() is ApplicationTerminated
            ||| event.handler() is ApplicationThreadTerminated
            ||| event.handler() is SpaceChanged || event.handler() is ScreenParametersChanged
        },
        event.verdict() is Resized <==> event.handler() is WindowFrameChanged,
        event.verdict() is Destroyed <==> event.handler() is WindowDestroyed,
{
}

/// The layout engine hears of a window that became the main window where the
/// window is on a space, and hears of which.
pub proof fn law_raised_windows_are_news_on_their_space(
    state: ReactorView,
    raised: Option<WindowId>,
    env: Surroundings,
)
    ensures
        match raised {
            Some(window) => match state.tracked_space(window, env) {
                Some(space) => state.raise_news(raised, env) =~= seq![
                    TaskView::SendLayoutEvent(LayoutEventView::WindowFocused(space, window)),
                ],
                None => state.raise_news(raised, env).len() == 0,
            },
            None => state.raise_news(raised, env).len() == 0,
        },
{
}

/// The layout is updated as a resize where the handler says that the window was
/// resized, and as part of a workspace switch where one is under way. While a
/// window is dragged it is updated only where a window is gone.
pub proof fn law_layouts_are_updated_for_their_reason(state: ReactorView, verdict: Verdict, answer: bool)
    ensures
        ({
            let tasks = state.layout_tasks(verdict, answer);
            &&& tasks.len() > 0 <==> state.drag is Inactive || (verdict is Destroyed && answer)
            &&& tasks.len() > 0 ==> (tasks[0] matches TaskView::UpdateLayout(update) && {
                &&& update.is_resize <==> verdict is Resized && answer
                &&& update.is_workspace_switch <==> state.switch.workspace_switch_state is Active
            })
        }),
{
}

/// A cursor move that was put off is made where its window is still tracked, its
/// middle is on a screen and there is an event tap; it is asked of the event tap
/// as the only thing.
pub proof fn law_put_off_moves_are_made(state: ReactorView, env: Surroundings, point: Point)
    ensures
        state.deferred_warp(env) == Some(point) <==> state.has_event_tap && (
        state.switch.pending_workspace_mouse_warp matches Some(window) && (lookup(state.windows, window) matches Some(
            known,
        ) && known.frame_monotonic.center == point && state.is_on_any_screen(known.frame_monotonic, env))),
        warp_tasks(Some(point)) =~= seq![TaskView::SendToEventTap(EventTapRequest::Warp(point))],
        warp_tasks(None).len() == 0,
{
}

/// The window server is asked to notify about other windows exactly where they
/// are others than before.
pub proof fn law_only_other_windows_are_notified_about(before: Seq<u32>, after: Seq<u32>)
    ensures
        before != after ==> watch_tasks(before, after) =~= seq![TaskView::WatchWindows(after)],
        before == after ==> watch_tasks(before, after).len() == 0,
{
}

/// The windows that are notified about are those that the window server is known
/// to track, by number, from the smallest to the largest.
pub proof fn law_tracked_windows_are_notified_about<V>(
    table: Seq<(WindowServerId, V)>,
    ids: Seq<u32>,
    id: u32,
)
    requires
        is_sorting_of(ids, wsid_numbers(table)),
    ensures
        ids.len() == table.len(),
        forall|i: int, j: int| 0 <= i < j < ids.len() ==> #[trigger] ids[i] <= #[trigger] ids[j],
        ids.contains(id) <==> exists|i: int| 0 <= i < table.len() && (#[trigger] table[i]).0 == WindowServerId(id),
{
    let numbers = wsid_numbers(table);
    ids.to_multiset_ensures();
    numbers.to_multiset_ensures();
    assert(ids.contains(id) <==> numbers.contains(id)) by {
        assert(ids.to_multiset().contains(id) <==> numbers.to_multiset().contains(id));
    }
    if numbers.contains(id) {
        let i = choose|i: int| 0 <= i < numbers.len() && numbers[i] == id;
        assert(table[i].0 == WindowServerId(id));
    }
    if exists|i: int| 0 <= i < table.len() && (#[trigger] table[i]).0 == WindowServerId(id) {
        let i = choose|i: int| 0 <= i < table.len() && (#[trigger] table[i]).0 == WindowServerId(id);
        assert(numbers[i] == id);
    }
}

/// At the end of an event nothing changes about switches but that none is under
/// way, that no cursor move is put off, and that one that changed no layout is
/// over. A layout changed exactly where it was updated and the update says so.
pub proof fn law_events_leave_switches_as_they_were(state: ReactorView, layout: LayoutOutcome)
    ensures
        layout.changed() <==> (layout matches LayoutOutcome::Updated(changed) && changed),
        ({
            let after = state.switch_ended(layout.changed());
            &&& after.workspace_switch_state is Inactive
            &&& after.pending_workspace_switch_origin is None
            &&& after.pending_workspace_mouse_warp is None
            &&& after.workspace_switch_generation == state.switch.workspace_switch_generation
            &&& after.last_auto_workspace_switch == state.switch.last_auto_workspace_switch
            &&& layout.changed() ==> after.active_workspace_switch == state.switch.active_workspace_switch
            &&& !layout.changed() ==> after.active_workspace_switch is None
        }),
{
}

/// The outcome of a layout update is what the next stage goes by; it does not
/// matter to any other stage.
pub proof fn law_outcomes_go_to_the_next_stage(stage: Stage, layout: LayoutOutcome)
    ensures
        stage is LayoutDone ==> stage.with_outcome(layout) == Stage::LayoutDone(layout),
        stage !is LayoutDone ==> stage.with_outcome(layout) == stage,
{
}

} // verus!
