//! What holds of the focus and of the cursor.
use crate::geometry::Point;
use crate::ids::{pid_t, SpaceId, WindowId, WindowServerId};
use crate::reactor::activation::{is_listed, ActivationSwitch, AUTO_SWITCH_BOUNCE_NANOS};
use crate::reactor::focus::{RaiseGroup, ResponseActionView};
use crate::reactor::ReactorView;
use crate::requests::{EventTapRequest, LayoutEventView, TaskView};
use crate::search::is_first;
use crate::state::{MissionControlState, RefocusState, WorkspaceSwitchState};
use crate::surroundings::Surroundings;
use crate::table::{lemma_filter_contains, lemma_filtered_from, lemma_with_item, lookup};
use vstd::prelude::*;

verus! {

/// While a window is dragged, no answer of the layout engine moves the focus
/// or the cursor; all that happens is that no workspace switch is under way
/// any more.
pub proof fn law_no_focus_during_a_drag(
    state: ReactorView,
    raise: Seq<WindowId>,
    focus: Option<WindowId>,
    switch_space: Option<SpaceId>,
    env: Surroundings,
    made_key: bool,
)
    requires
        state.in_drag(),
    ensures
        state.respond(raise, focus, switch_space, env, made_key) == (
            ReactorView { switch: state.switch.marked_inactive(), ..state },
            ResponseActionView::Nothing,
        ),
        state.key_request(raise, focus, env) is None,
{
}

/// Whether a window could be made key matters only where the reactor asked
/// for that. Where it did ask and that worked, nothing else is done.
pub proof fn law_key_windows_are_asked_for(
    state: ReactorView,
    raise: Seq<WindowId>,
    focus: Option<WindowId>,
    switch_space: Option<SpaceId>,
    env: Surroundings,
)
    ensures
        state.key_request(raise, focus, env) is None ==> state.respond(raise, focus, switch_space, env, true)
            == state.respond(raise, focus, switch_space, env, false),
        state.key_request(raise, focus, env) is Some ==> {
            let after = state.respond(raise, focus, switch_space, env, true);
            &&& after.1 is Nothing
            &&& after.0 == (ReactorView {
                switch: state.switch.marked_inactive(),
                refocus: RefocusState::Idle,
                ..state
            })
        },
{
}

/// A window that is asked to become the key window is not tracked, and is the
/// one under the cursor.
pub proof fn law_key_windows_are_untracked(
    state: ReactorView,
    raise: Seq<WindowId>,
    focus: Option<WindowId>,
    env: Surroundings,
)
    ensures
        state.key_request(raise, focus, env) matches Some(request) ==> {
            &&& env.window_under_cursor == Some(request.1)
            &&& lookup(state.window_ids, request.1) is None
        },
{
}

/// A pending wish to give the focus back outlives an answer that names windows
/// itself.
pub proof fn law_refocus_outlives_other_answers(
    state: ReactorView,
    raise: Seq<WindowId>,
    focus: Option<WindowId>,
    switch_space: Option<SpaceId>,
    env: Surroundings,
    made_key: bool,
)
    requires
        raise.len() > 0 || focus is Some,
    ensures
        state.respond(raise, focus, switch_space, env, made_key).0.refocus == state.refocus,
{
}

/// A wish to give the focus back is fulfilled or given up by an answer that
/// names no windows, outside drags and workspace switches.
pub proof fn law_refocus_is_tried_once(
    state: ReactorView,
    switch_space: Option<SpaceId>,
    env: Surroundings,
    made_key: bool,
)
    requires
        !state.in_drag(),
        !state.is_switching(),
    ensures
        state.respond(Seq::empty(), None, switch_space, env, made_key).0.refocus is Idle,
{
}

/// An answer that names no windows raises none, and during a workspace switch
/// it does not focus the window that has the focus already.
pub proof fn law_no_duplicate_focus(
    state: ReactorView,
    switch_space: Option<SpaceId>,
    env: Surroundings,
    made_key: bool,
    window: WindowId,
)
    requires
        state.is_switching(),
        state.main_window == Some(window),
    ensures
        state.respond(Seq::empty(), None, switch_space, env, made_key).1 matches ResponseActionView::Raise(request)
            ==> request.raise_windows.len() == 0 && !(request.focus_window matches Some(focus) && focus.0 == window),
{
}

/// Outside drags and workspace switches, an answer that names no windows does
/// nothing where no wish to give the focus back is pending.
pub proof fn law_empty_answers_do_nothing(
    state: ReactorView,
    switch_space: Option<SpaceId>,
    env: Surroundings,
    made_key: bool,
)
    requires
        !state.in_drag(),
        !state.is_switching(),
        state.refocus is Idle,
    ensures
        state.respond(Seq::empty(), None, switch_space, env, made_key) == (state, ResponseActionView::Nothing),
{
}

/// A window that gets the focus is not changing screens, is visible (unless a
/// workspace switch is under way), and is on a space that a screen shows, as
/// far as the window server knows it.
pub proof fn law_focus_goes_to_windows_on_display(
    state: ReactorView,
    raise: Seq<WindowId>,
    focus: Option<WindowId>,
    switch_space: Option<SpaceId>,
    env: Surroundings,
    made_key: bool,
    window: WindowId,
    wsid: WindowServerId,
)
    requires
        state.respond(raise, focus, switch_space, env, made_key).1 matches ResponseActionView::Raise(request)
            && request.focus_window matches Some(f) && f.0 == window,
        state.server_id(window) == Some(wsid),
    ensures
        !state.changing.contains(wsid),
        state.is_switching() || state.visible.contains(wsid),
        state.tracked_space(window, env) matches Some(space) && state.on_display(space),
{
}

/// The cursor goes with the focus only where that is wanted, only outside
/// workspace switches, and only to the middle of the window on a screen.
pub proof fn law_cursor_stays_on_screens(state: ReactorView, window: WindowId, env: Surroundings)
    ensures
        state.focus_warp(window, env) matches Some(point) ==> {
            &&& state.follows_focus()
            &&& !state.is_switching()
            &&& lookup(state.windows, window) matches Some(known) && known.frame_monotonic.center == point
                && state.is_on_any_screen(known.frame_monotonic, env)
        },
        state.deferred_warp(env) matches Some(point) ==> {
            &&& state.has_event_tap
            &&& state.switch.pending_workspace_mouse_warp matches Some(wid) && lookup(state.windows, wid) matches Some(
                known,
            ) && known.frame_monotonic.center == point && state.is_on_any_screen(known.frame_monotonic, env)
        },
{
}

/// During a workspace switch the cursor does not move with the focus. It moves
/// when the event ends, to where the window is by then.
pub proof fn law_cursor_follows_after_the_switch(
    state: ReactorView,
    raise: Seq<WindowId>,
    focus: Option<WindowId>,
    switch_space: Option<SpaceId>,
    env: Surroundings,
    made_key: bool,
    window: WindowId,
    later: ReactorView,
    later_env: Surroundings,
)
    requires
        state.is_switching(),
        state.follows_focus(),
        state.respond(raise, focus, switch_space, env, made_key).1 matches ResponseActionView::Raise(request)
            && request.focus_window matches Some(f) && f.0 == window,
        later.switch == state.respond(raise, focus, switch_space, env, made_key).0.switch,
        later.has_event_tap,
        lookup(later.windows, window) matches Some(known) && later.is_on_any_screen(
            known.frame_monotonic,
            later_env,
        ),
    ensures
        state.respond(raise, focus, switch_space, env, made_key).1 matches ResponseActionView::Raise(request)
            && request.focus_window == Some((window, None::<Point>)),
        lookup(later.windows, window) matches Some(known) && later.deferred_warp(later_env) == Some(
            known.frame_monotonic.center,
        ),
{
}

proof fn lemma_known_apps(state: ReactorView, windows: Seq<WindowId>, pid: pid_t)
    ensures
        state.known_apps(windows).contains(pid) <==> (lookup(state.apps, pid) is Some && exists|i: int|
            0 <= i < windows.len() && (#[trigger] windows[i]).pid == pid),
        state.known_apps(windows).no_duplicates(),
    decreases windows.len(),
{
    if windows.len() > 0 {
        let t = windows.drop_last();
        lemma_known_apps(state, t, pid);
        let before = state.known_apps(t);
        let last = windows.last().pid;
        lemma_with_item(before, last, pid);
        if exists|i: int| 0 <= i < t.len() && (#[trigger] t[i]).pid == pid {
            let i = choose|i: int| 0 <= i < t.len() && (#[trigger] t[i]).pid == pid;
            assert(windows[i].pid == pid);
        }
        if exists|i: int| 0 <= i < windows.len() && (#[trigger] windows[i]).pid == pid {
            let i = choose|i: int| 0 <= i < windows.len() && (#[trigger] windows[i]).pid == pid;
            if i < t.len() {
                assert(t[i].pid == pid);
            }
        }
        assert(windows[windows.len() - 1].pid == last);
    }
}

/// The applications that go with a raise request are those of its windows that
/// are known, each once.
pub proof fn law_raised_apps_are_known(state: ReactorView, windows: Seq<WindowId>, pid: pid_t)
    ensures
        state.known_apps(windows).contains(pid) <==> (lookup(state.apps, pid) is Some && exists|i: int|
            0 <= i < windows.len() && (#[trigger] windows[i]).pid == pid),
        state.known_apps(windows).no_duplicates(),
{
    lemma_known_apps(state, windows, pid);
}

proof fn lemma_raise_groups(state: ReactorView, windows: Seq<WindowId>, env: Surroundings, group: RaiseGroup)
    ensures
        state.raise_groups(windows, env).contains(group) <==> exists|i: int|
            0 <= i < windows.len() && state.raise_group(#[trigger] windows[i], env) == Some(group),
        state.raise_groups(windows, env).no_duplicates(),
    decreases windows.len(),
{
    if windows.len() > 0 {
        let t = windows.drop_last();
        lemma_raise_groups(state, t, env, group);
        let before = state.raise_groups(t, env);
        if let Some(last) = state.raise_group(windows.last(), env) {
            lemma_with_item(before, last, group);
        }
        if exists|i: int| 0 <= i < t.len() && state.raise_group(#[trigger] t[i], env) == Some(group) {
            let i = choose|i: int| 0 <= i < t.len() && state.raise_group(#[trigger] t[i], env) == Some(group);
            assert(state.raise_group(windows[i], env) == Some(group));
        }
        if exists|i: int| 0 <= i < windows.len() && state.raise_group(#[trigger] windows[i], env) == Some(group) {
            let i = choose|i: int|
                0 <= i < windows.len() && state.raise_group(#[trigger] windows[i], env) == Some(group);
            if i < t.len() {
                assert(state.raise_group(t[i], env) == Some(group));
            }
        }
        assert(windows[windows.len() - 1] == windows.last());
    }
}

/// The windows of one group of a raise request are tracked, and belong to one
/// application and one space.
pub proof fn law_raised_groups_belong_together(
    state: ReactorView,
    windows: Seq<WindowId>,
    env: Surroundings,
    g: int,
    i: int,
    j: int,
)
    requires
        0 <= g < state.grouped(windows, env).len(),
        0 <= i < state.grouped(windows, env)[g].len(),
        0 <= j < state.grouped(windows, env)[g].len(),
    ensures
        ({
            let group = state.grouped(windows, env)[g];
            &&& windows.contains(group[i])
            &&& lookup(state.windows, group[i]) is Some
            &&& group[i].pid == group[j].pid
            &&& state.tracked_space(group[i], env) == state.tracked_space(group[j], env)
        }),
{
    let key = state.raise_groups(windows, env)[g];
    let f = |w: WindowId| state.raise_group(w, env) == Some(key);
    lemma_filtered_from(windows, f, i);
    lemma_filtered_from(windows, f, j);
}

/// No group of a raise request is empty.
pub proof fn law_raised_groups_are_not_empty(state: ReactorView, windows: Seq<WindowId>, env: Surroundings, g: int)
    requires
        0 <= g < state.grouped(windows, env).len(),
    ensures
        state.grouped(windows, env)[g].len() > 0,
{
    let key = state.raise_groups(windows, env)[g];
    assert(state.raise_groups(windows, env).contains(key));
    lemma_raise_groups(state, windows, env, key);
    let i = choose|i: int| 0 <= i < windows.len() && state.raise_group(#[trigger] windows[i], env) == Some(key);
    let f = |w: WindowId| state.raise_group(w, env) == Some(key);
    lemma_filter_contains(windows, f, windows[i]);
}

/// Every tracked window that is to be raised is in one group of the request,
/// and in no other.
pub proof fn law_every_window_is_raised_once(
    state: ReactorView,
    windows: Seq<WindowId>,
    env: Surroundings,
    window: WindowId,
)
    requires
        windows.contains(window),
        lookup(state.windows, window) is Some,
    ensures
        exists|g: int|
            0 <= g < state.grouped(windows, env).len() && #[trigger] state.grouped(windows, env)[g].contains(window),
        forall|g: int, h: int|
            0 <= g < state.grouped(windows, env).len() && 0 <= h < state.grouped(windows, env).len()
                && #[trigger] state.grouped(windows, env)[g].contains(window)
                && #[trigger] state.grouped(windows, env)[h].contains(window) ==> g == h,
{
    let groups = state.raise_groups(windows, env);
    let key = state.raise_group(window, env)->0;
    let at = choose|i: int| 0 <= i < windows.len() && windows[i] == window;
    assert(state.raise_group(windows[at], env) == Some(key));
    lemma_raise_groups(state, windows, env, key);
    let g = choose|g: int| 0 <= g < groups.len() && groups[g] == key;
    let f = |w: WindowId| state.raise_group(w, env) == Some(key);
    lemma_filter_contains(windows, f, window);
    assert(state.grouped(windows, env)[g].contains(window));
    assert forall|g: int, h: int|
        0 <= g < state.grouped(windows, env).len() && 0 <= h < state.grouped(windows, env).len()
            && #[trigger] state.grouped(windows, env)[g].contains(window)
            && #[trigger] state.grouped(windows, env)[h].contains(window) implies g == h by {
        lemma_member_of(state, windows, env, g, window);
        lemma_member_of(state, windows, env, h, window);
        assert(groups[g] == groups[h]);
    }
}

proof fn lemma_member_of(state: ReactorView, windows: Seq<WindowId>, env: Surroundings, g: int, window: WindowId)
    requires
        0 <= g < state.grouped(windows, env).len(),
        state.grouped(windows, env)[g].contains(window),
    ensures
        state.raise_group(window, env) == Some(state.raise_groups(windows, env)[g]),
{
    let members = state.grouped(windows, env)[g];
    let i = choose|i: int| 0 <= i < members.len() && members[i] == window;
    let f = |w: WindowId| state.raise_group(w, env) == Some(state.raise_groups(windows, env)[g]);
    lemma_filtered_from(windows, f, i);
}

/// Only events that bring windows can ask for the focus to be given back.
pub proof fn law_only_new_windows_ask_for_refocus(state: ReactorView, event: LayoutEventView, env: Surroundings)
    requires
        event is WindowFocused || event is WindowRemoved || event is SpaceExposed,
    ensures
        state.refocus_after(event, env) == state.refocus,
{
}

/// A window that goes into the active workspace does not ask for the focus to
/// be given back.
pub proof fn law_visible_windows_keep_the_focus(
    state: ReactorView,
    space: SpaceId,
    window: WindowId,
    env: Surroundings,
)
    requires
        env.workspace_of(space, window) == env.active_workspace(space),
    ensures
        state.refocus_after(LayoutEventView::WindowAdded(space, window), env) == state.refocus,
{
}

/// Two automatic switches do not go back and forth: after one, the switch that
/// would undo it is refused for a while, and is not refused on that account
/// any more when the while is over.
pub proof fn law_automatic_switches_do_not_bounce(
    state: ReactorView,
    target: ActivationSwitch,
    then: u64,
    now: u64,
)
    requires
        then <= now,
    ensures
        ({
            let switched = ReactorView { switch: state.auto_switched(target, then), ..state };
            let back = ActivationSwitch { space: target.space, from: target.to, to: target.from };
            switched.would_bounce(back, now) <==> now - then < AUTO_SWITCH_BOUNCE_NANOS
        }),
{
}

/// While a workspace switch is under way, no activation causes another.
pub proof fn law_one_switch_at_a_time(
    state: ReactorView,
    pid: pid_t,
    bundle_id: Option<Seq<char>>,
    now: u64,
    env: Surroundings,
    target: ActivationSwitch,
    then: u64,
)
    ensures
        (ReactorView { switch: state.auto_switched(target, then), ..state }).activation_switch(
            pid,
            bundle_id,
            now,
            env,
        ) is None,
{
}

/// An activation is ignored while a switch is under way, while the active
/// space is fullscreen, where it comes from a window that is not managed, where
/// the application is visible already, and where its bundle is not known or is
/// on the list of exceptions.
pub proof fn law_activations_may_be_ignored(
    state: ReactorView,
    pid: pid_t,
    bundle_id: Option<Seq<char>>,
    now: u64,
    env: Surroundings,
)
    requires
        state.switch.active_workspace_switch is Some || state.switch.is_manual() || (env.active_space matches Some(space)
            && env.fullscreen_spaces@.contains(space)) || state.unmanageable_under_cursor(pid, env) is Some
            || state.app_is_visible(pid, env) || bundle_id is None || (bundle_id matches Some(bundle_id) && is_listed(
            state.config.settings.auto_focus_blacklist@,
            bundle_id,
        )),
    ensures
        state.activation_switch(pid, bundle_id, now, env) is None,
{
}

/// A switch that an activation causes leads to the workspace of a managed
/// window of that application, on the space that the window is on.
pub proof fn law_activation_leads_to_the_application(
    state: ReactorView,
    pid: pid_t,
    bundle_id: Option<Seq<char>>,
    now: u64,
    env: Surroundings,
    target: ActivationSwitch,
)
    requires
        state.activation_switch(pid, bundle_id, now, env) == Some(target),
    ensures
        exists|window: WindowId|
            #![trigger state.is_standard(window)]
            window.pid == pid && state.is_standard(window) && state.tracked_space(window, env) == Some(target.space)
                && env.workspace_of(target.space, window) == Some(target.to),
        env.active_workspace(target.space) == Some(target.from),
        target.from != target.to,
{
    let window = state.app_window(pid)->0;
    let n = state.windows.len() as int;
    let p = state.is_standard_of(pid);
    if !(state.main_window matches Some(w) && w.pid == pid && state.is_standard(w)) {
        let i = choose|i: int| is_first(n, p, i);
        assert(is_first(n, p, i));
        assert(p(i));
    }
    assert(state.is_standard(window) && window.pid == pid);
}

/// The focus follows the mouse exactly while no menu is open and Mission
/// Control is not shown; to show Mission Control and to leave it again brings
/// it back.
pub proof fn law_mission_control_and_the_mouse(state: ReactorView)
    ensures
        ({
            let shown = ReactorView { mission_control: MissionControlState::Active, ..state };
            let left = ReactorView { mission_control: MissionControlState::Inactive, ..shown };
            &&& !shown.mouse_may_focus()
            &&& left.mouse_may_focus() == (state.menu is Closed)
            &&& state.has_event_tap ==> shown.mouse_focus_task(shown.mouse_may_focus()) == Some(
                TaskView::SendToEventTap(EventTapRequest::SetFocusFollowsMouseEnabled(false)),
            )
        }),
{
}

/// At the end of an event no workspace switch is under way and no cursor move
/// is put off; a switch that moved nothing is over, so that the next activation
/// may cause another.
pub proof fn law_events_end_switches(state: ReactorView)
    ensures
        state.switch_ended(true).workspace_switch_state == WorkspaceSwitchState::Inactive,
        state.switch_ended(true).pending_workspace_mouse_warp is None,
        state.switch_ended(true).active_workspace_switch == state.switch.active_workspace_switch,
        state.switch_ended(false).workspace_switch_state == WorkspaceSwitchState::Inactive,
        state.switch_ended(false).pending_workspace_mouse_warp is None,
        state.switch_ended(false).active_workspace_switch is None,
        !state.switch_ended(false).is_manual(),
{
}

} // verus!
