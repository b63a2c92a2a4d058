//! What holds of the answers of the layout engine: which window gets the focus,
//! which windows are raised, and where the cursor goes.
use crate::geometry::Point;
use crate::ids::{pid_t, SpaceId, SpaceWorkspace, WindowId, WindowServerId};
use crate::laws::focus::{law_raised_apps_are_known, law_raised_groups_are_not_empty};
use crate::reactor::focus::ResponseActionView;
use crate::reactor::ReactorView;
use crate::requests::{LayoutEventView, RaiseRequestView, TitledWindow};
use crate::state::{RefocusState, WorkspaceSwitchManager};
use crate::surroundings::Surroundings;
use crate::table::{lemma_filtered_from, lookup};
use vstd::prelude::*;

verus! {

/// A workspace switch is under way.
pub open spec fn switches(state: ReactorView) -> bool {
    !(state.switch.workspace_switch_state is Inactive)
}

/// A screen itself says that it shows the space of the window.
pub open spec fn is_displayed(state: ReactorView, window: WindowId, env: Surroundings) -> bool {
    exists|i: int|
        0 <= i < state.screens.len() && (#[trigger] state.screens[i]).space is Some && state.tracked_space(window, env)
            == state.screens[i].space
}

/// Nothing speaks against giving the focus to a window: as far as the window
/// server knows it, it is not changing screens, it is visible (which is not
/// asked for while workspaces are switched), and it is on display.
pub open spec fn may_get_focus(state: ReactorView, window: WindowId, env: Surroundings) -> bool {
    lookup(state.windows, window) matches Some(known) ==> (known.window_server_id matches Some(wsid) ==> {
        &&& !state.changing.contains(wsid)
        &&& switches(state) || state.visible.contains(wsid)
        &&& is_displayed(state, window, env)
    })
}

/// The window had the focus last in the active workspace of the space, is still
/// tracked and on that space, and as far as the window server knows it, is
/// visible and not changing screens.
pub open spec fn waits_for_focus(state: ReactorView, space: SpaceId, window: WindowId, env: Surroundings) -> bool {
    &&& lookup(env.active_workspaces@, space) matches Some(workspace) && lookup(
        env.last_focused@,
        SpaceWorkspace { space, workspace },
    ) == Some(window)
    &&& lookup(state.windows, window) matches Some(known) && (known.window_server_id matches Some(wsid) ==> {
        &&& !state.changing.contains(wsid)
        &&& state.visible.contains(wsid)
    })
    &&& state.tracked_space(window, env) == Some(space)
}

/// The cursor is over the tracked window.
pub open spec fn is_under_cursor(state: ReactorView, window: WindowId, env: Surroundings) -> bool {
    env.window_under_cursor matches Some(wsid) && lookup(state.window_ids, wsid) == Some(window)
}

/// The cursor is over a window that is not tracked, and its process is known: to
/// the reactor, or else to the window server.
pub open spec fn is_stranger_under_cursor(
    state: ReactorView,
    pid: pid_t,
    wsid: WindowServerId,
    env: Surroundings,
) -> bool {
    &&& env.window_under_cursor == Some(wsid)
    &&& lookup(state.window_ids, wsid) is None
    &&& match lookup(state.server_info, wsid) {
        Some(info) => info.pid == pid,
        None => lookup(env.server_windows@, wsid) matches Some(info) && info.pid == pid,
    }
}

/// Where the cursor goes with the focus: to the middle of the window, where the
/// cursor follows the focus, no workspaces are switched and that is on a screen.
pub open spec fn goes_with_focus(state: ReactorView, window: WindowId, env: Surroundings, to: Option<Point>) -> bool {
    let known = lookup(state.windows, window);
    let goes = state.config.settings.mouse_follows_focus && !switches(state) && (known matches Some(known)
        && state.is_on_any_screen(known.frame_monotonic, env));
    match to {
        Some(point) => goes && known->0.frame_monotonic.center == point,
        None => !goes,
    }
}

/// The action gives the focus to `window`, and raises nothing else.
pub open spec fn focuses_only(
    state: ReactorView,
    action: ResponseActionView,
    window: WindowId,
    env: Surroundings,
) -> bool {
    action matches ResponseActionView::Raise(request) && request.raise_windows.len() == 0 && (
    request.focus_window matches Some(focus) && focus.0 == window && goes_with_focus(state, window, env, focus.1))
}

/// The action is a request that names no window at all.
pub open spec fn raises_nothing(action: ResponseActionView) -> bool {
    action matches ResponseActionView::Raise(request) && request.raise_windows.len() == 0 && request.focus_window is None
}

/// What an answer that names no windows leads to.
pub open spec fn after_empty(
    state: ReactorView,
    switch_space: Option<SpaceId>,
    env: Surroundings,
    made_key: bool,
) -> (ReactorView, ResponseActionView) {
    state.respond(Seq::empty(), None, switch_space, env, made_key)
}

/// When the focus is to be given back on a space, it goes to the window that
/// had it last there, whatever is under the cursor.
pub proof fn law_focus_goes_back_to_the_last_window(
    state: ReactorView,
    switch_space: Option<SpaceId>,
    env: Surroundings,
    made_key: bool,
    space: SpaceId,
    window: WindowId,
)
    requires
        state.drag is Inactive,
        !switches(state),
        state.refocus == RefocusState::Pending(space),
        waits_for_focus(state, space, window, env),
    ensures
        may_get_focus(state, window, env) ==> focuses_only(
            state,
            after_empty(state, switch_space, env, made_key).1,
            window,
            env,
        ),
        !may_get_focus(state, window, env) ==> after_empty(state, switch_space, env, made_key).1 is Nothing,
        state.key_request(Seq::empty(), None, env) is None,
{
    lemma_focusable(state, window, env);
    lemma_nothing_to_raise(state, env);
}

/// Where no window waits for the focus that is to be given back, it goes to the
/// tracked window under the cursor.
pub proof fn law_focus_goes_to_the_cursor_next(
    state: ReactorView,
    switch_space: Option<SpaceId>,
    env: Surroundings,
    made_key: bool,
    space: SpaceId,
    window: WindowId,
)
    requires
        state.drag is Inactive,
        !switches(state),
        state.refocus == RefocusState::Pending(space),
        forall|last: WindowId| !(#[trigger] waits_for_focus(state, space, last, env)),
        is_under_cursor(state, window, env),
    ensures
        may_get_focus(state, window, env) ==> focuses_only(
            state,
            after_empty(state, switch_space, env, made_key).1,
            window,
            env,
        ),
        !may_get_focus(state, window, env) ==> after_empty(state, switch_space, env, made_key).1 is Nothing,
        state.key_request(Seq::empty(), None, env) is None,
{
    lemma_no_last_window(state, space, env);
    lemma_focusable(state, window, env);
    lemma_nothing_to_raise(state, env);
}

/// Where neither a window waits for the focus nor a tracked window is under the
/// cursor, a stranger under the cursor is asked to become key. Where there is
/// none, or that fails, the cursor goes to the middle of the space's screen, if
/// it follows the focus and can be moved.
pub proof fn law_focus_goes_to_a_stranger_last(
    state: ReactorView,
    switch_space: Option<SpaceId>,
    env: Surroundings,
    space: SpaceId,
    pid: pid_t,
    wsid: WindowServerId,
)
    requires
        state.drag is Inactive,
        !switches(state),
        state.refocus == RefocusState::Pending(space),
        forall|last: WindowId| !(#[trigger] waits_for_focus(state, space, last, env)),
        forall|window: WindowId| !(#[trigger] is_under_cursor(state, window, env)),
    ensures
        state.key_request(Seq::empty(), None, env) == Some((pid, wsid)) <==> is_stranger_under_cursor(
            state,
            pid,
            wsid,
            env,
        ),
        is_stranger_under_cursor(state, pid, wsid, env) ==> after_empty(state, switch_space, env, true).1 is Nothing,
        moves_to_screen_of(state, space, after_empty(state, switch_space, env, false).1)
            || (!can_move_to_screen_of(state, space) && after_empty(state, switch_space, env, false).1 is Nothing),
{
    lemma_no_last_window(state, space, env);
    lemma_no_cursor_window(state, env);
}

/// The cursor follows the focus, can be moved, and a screen shows the space.
pub open spec fn can_move_to_screen_of(state: ReactorView, space: SpaceId) -> bool {
    state.config.settings.mouse_follows_focus && state.has_event_tap && state.screen_showing(space) is Some
}

/// The action moves the cursor to the middle of the first screen that shows the
/// space, where that is wanted and possible.
pub open spec fn moves_to_screen_of(state: ReactorView, space: SpaceId, action: ResponseActionView) -> bool {
    &&& can_move_to_screen_of(state, space)
    &&& state.screen_showing(space) matches Some(k) && action == ResponseActionView::Warp(
        state.screens[k].frame.center,
    )
}

/// While workspaces are switched, the focus goes to the tracked window under the
/// cursor, unless it has it already.
pub proof fn law_switches_focus_what_is_under_the_cursor(
    state: ReactorView,
    switch_space: Option<SpaceId>,
    env: Surroundings,
    made_key: bool,
    window: WindowId,
)
    requires
        state.drag is Inactive,
        switches(state),
        is_under_cursor(state, window, env),
    ensures
        ({
            let action = after_empty(state, switch_space, env, made_key).1;
            if state.main_window != Some(window) && may_get_focus(state, window, env) {
                focuses_only(state, action, window, env)
            } else {
                raises_nothing(action)
            }
        }),
        state.key_request(Seq::empty(), None, env) is None,
{
    lemma_focusable(state, window, env);
    lemma_nothing_to_raise(state, env);
}

/// While workspaces are switched and no tracked window is under the cursor, a
/// stranger there is asked to become key. Where there is none, or that fails,
/// the cursor goes to the middle of the screen of the space that is switched, if
/// its workspace has windows; where no space is named, to that of the space that
/// commands are about.
pub proof fn law_switches_move_the_cursor(
    state: ReactorView,
    switch_space: Option<SpaceId>,
    env: Surroundings,
    pid: pid_t,
    wsid: WindowServerId,
)
    requires
        state.drag is Inactive,
        switches(state),
        forall|window: WindowId| !(#[trigger] is_under_cursor(state, window, env)),
    ensures
        state.key_request(Seq::empty(), None, env) == Some((pid, wsid)) <==> is_stranger_under_cursor(
            state,
            pid,
            wsid,
            env,
        ),
        is_stranger_under_cursor(state, pid, wsid, env) ==> after_empty(state, switch_space, env, true).1 is Nothing,
        ({
            let action = after_empty(state, switch_space, env, false).1;
            match switch_space {
                Some(space) => if env.windows_in(space).len() > 0 && can_move_to_screen_of(state, space) {
                    moves_to_screen_of(state, space, action)
                } else {
                    raises_nothing(action)
                },
                None => match state.command_space(env) {
                    Some(space) => if can_move_to_screen_of(state, space) {
                        moves_to_screen_of(state, space, action)
                    } else {
                        raises_nothing(action)
                    },
                    None => raises_nothing(action),
                },
            }
        }),
{
    lemma_no_cursor_window(state, env);
    lemma_nothing_to_raise(state, env);
}

/// Where an answer names windows, these are raised, and the focus goes to the
/// window that it names for that, if nothing speaks against it. Where nothing is
/// left to be done, nothing is.
pub proof fn law_named_windows_are_raised_and_focused(
    state: ReactorView,
    raise: Seq<WindowId>,
    focus: Option<WindowId>,
    switch_space: Option<SpaceId>,
    env: Surroundings,
    made_key: bool,
)
    requires
        state.drag is Inactive,
        raise.len() > 0 || focus is Some,
    ensures
        state.key_request(raise, focus, env) is None,
        ({
            let action = state.respond(raise, focus, switch_space, env, made_key).1;
            let gets_it = focus matches Some(window) && may_get_focus(state, window, env);
            if raise.len() > 0 || gets_it || switches(state) {
                action matches ResponseActionView::Raise(request) && {
                    &&& request.raise_windows == state.grouped(raise, env)
                    &&& request.focus_window matches Some(given) ==> gets_it && focus == Some(given.0)
                        && goes_with_focus(state, given.0, env, given.1)
                    &&& gets_it ==> request.focus_window is Some
                }
            } else {
                action is Nothing
            }
        }),
{
    if let Some(window) = focus {
        lemma_focusable(state, window, env);
    }
}

/// The applications that go with a request are the known ones of the windows
/// that the answer names, each once; the window that it names for the focus is
/// one of these, even where it does not get it.
pub proof fn law_requests_carry_the_applications(
    state: ReactorView,
    raise: Seq<WindowId>,
    focus: Option<WindowId>,
    switch_space: Option<SpaceId>,
    env: Surroundings,
    made_key: bool,
    request: RaiseRequestView,
    pid: pid_t,
)
    requires
        state.respond(raise, focus, switch_space, env, made_key).1 == ResponseActionView::Raise(request),
    ensures
        request.apps.contains(pid) <==> (lookup(state.apps, pid) is Some && ((focus matches Some(window) && window.pid
            == pid) || exists|i: int| 0 <= i < raise.len() && (#[trigger] raise[i]).pid == pid)),
        request.apps.no_duplicates(),
{
    law_raised_apps_are_known(state, raise, pid);
    if let Some(window) = focus {
        law_raised_apps_are_known(state, raise.push(window), pid);
        if window.pid == pid {
            assert(raise.push(window)[raise.len() as int].pid == pid);
        }
        if exists|i: int| 0 <= i < raise.len() && (#[trigger] raise[i]).pid == pid {
            let i = choose|i: int| 0 <= i < raise.len() && (#[trigger] raise[i]).pid == pid;
            assert(raise.push(window)[i].pid == pid);
        }
        if exists|i: int| 0 <= i < raise.push(window).len() && (#[trigger] raise.push(window)[i]).pid == pid {
            let i = choose|i: int| 0 <= i < raise.push(window).len() && (#[trigger] raise.push(window)[i]).pid == pid;
            if i < raise.len() {
                assert(raise[i].pid == pid);
            }
        }
    }
}

/// Windows are raised together exactly where they are tracked and have the same
/// application and the same space, and they stay in the order of the answer.
pub proof fn law_windows_are_raised_with_their_like(
    state: ReactorView,
    windows: Seq<WindowId>,
    env: Surroundings,
    g: int,
)
    requires
        0 <= g < state.grouped(windows, env).len(),
    ensures
        ({
            let group = state.grouped(windows, env)[g];
            &&& group.len() > 0
            &&& group =~= windows.filter(
                |w: WindowId|
                    lookup(state.windows, w) is Some && w.pid == group[0].pid && state.tracked_space(w, env)
                        == state.tracked_space(group[0], env),
            )
        }),
{
    law_raised_groups_are_not_empty(state, windows, env, g);
    let key = state.raise_groups(windows, env)[g];
    let f = |w: WindowId| state.raise_group(w, env) == Some(key);
    lemma_filtered_from(windows, f, 0);
    let first = state.grouped(windows, env)[g][0];
    let like = |w: WindowId|
        lookup(state.windows, w) is Some && w.pid == first.pid && state.tracked_space(w, env) == state.tracked_space(
            first,
            env,
        );
    assert(f =~= like);
}

/// An answer changes nothing but what is said of switches and of the focus that
/// is to be given back. A drag and a cursor or key window that stands in for the
/// focus end a switch. A request does not; while workspaces are switched, and
/// where the cursor follows the focus, it puts the move to its window off.
pub proof fn law_answers_change_little(
    state: ReactorView,
    raise: Seq<WindowId>,
    focus: Option<WindowId>,
    switch_space: Option<SpaceId>,
    env: Surroundings,
    made_key: bool,
)
    ensures
        ({
            let (after, action) = state.respond(raise, focus, switch_space, env, made_key);
            let ended = WorkspaceSwitchManager {
                workspace_switch_state: crate::state::WorkspaceSwitchState::Inactive,
                pending_workspace_switch_origin: None,
                ..state.switch
            };
            &&& after == (ReactorView { switch: after.switch, refocus: after.refocus, ..state })
            &&& state.drag !is Inactive ==> after.switch == ended && after.refocus == state.refocus && action is Nothing
            &&& state.drag is Inactive && action is Warp ==> after.switch == ended && after.refocus is Idle
            &&& action matches ResponseActionView::Raise(request) ==> {
                &&& after.switch == (WorkspaceSwitchManager {
                    pending_workspace_mouse_warp: match request.focus_window {
                        Some(given) if switches(state) && state.config.settings.mouse_follows_focus => Some(given.0),
                        _ => state.switch.pending_workspace_mouse_warp,
                    },
                    ..state.switch
                })
                &&& raise.len() == 0 && focus is None && !switches(state) ==> after.refocus is Idle
                &&& raise.len() > 0 || focus is Some || switches(state) ==> after.refocus == state.refocus
            }
            &&& state.drag is Inactive && action is Nothing && (raise.len() > 0 || focus is Some) ==> after == state
            &&& state.drag is Inactive && action is Nothing && raise.len() == 0 && focus is None ==> after.refocus is Idle
                && (after.switch == state.switch || after.switch == ended)
        }),
{
}

/// A window that is in another workspace than the active one of its space asks
/// for the focus to be given back there; so does a list of windows with such a
/// window in it. Nothing else does.
pub proof fn law_hidden_windows_ask_for_refocus(
    state: ReactorView,
    space: SpaceId,
    window: WindowId,
    pid: pid_t,
    windows: Seq<TitledWindow>,
    app: Option<crate::state::AppInfo>,
    env: Surroundings,
)
    ensures
        state.hides(space, window, env) <==> is_hidden_on(env, space, window),
        is_hidden_on(env, space, window) ==> state.refocus_after(LayoutEventView::WindowAdded(space, window), env)
            == RefocusState::Pending(space),
        !is_hidden_on(env, space, window) ==> state.refocus_after(LayoutEventView::WindowAdded(space, window), env)
            == state.refocus,
        (exists|i: int| 0 <= i < windows.len() && is_hidden_on(env, space, (#[trigger] windows[i]).window))
            ==> state.refocus_after(LayoutEventView::WindowsOnScreenUpdated(space, pid, windows, app), env)
            == RefocusState::Pending(space),
        (forall|i: int| 0 <= i < windows.len() ==> !is_hidden_on(env, space, (#[trigger] windows[i]).window))
            ==> state.refocus_after(LayoutEventView::WindowsOnScreenUpdated(space, pid, windows, app), env)
            == state.refocus,
{
    if exists|i: int| 0 <= i < windows.len() && is_hidden_on(env, space, (#[trigger] windows[i]).window) {
        let i = choose|i: int| 0 <= i < windows.len() && is_hidden_on(env, space, (#[trigger] windows[i]).window);
        assert(is_hidden_on(env, space, windows[i].window));
        let w = windows[i];
        assert(state.hides(space, w.window, env));
        let event = LayoutEventView::WindowsOnScreenUpdated(space, pid, windows, app);
        assert(event matches LayoutEventView::WindowsOnScreenUpdated(s, _, ws, _) && s == space && ws == windows
            && state.hides(s, ws[i].window, env));
        assert(event matches LayoutEventView::WindowsOnScreenUpdated(s, _, ws, _) && exists|j: int|
            0 <= j < ws.len() && state.hides(s, (#[trigger] ws[j]).window, env));
        assert(state.refocus_after(event, env) == RefocusState::Pending(space));
    } else {
        assert forall|j: int| 0 <= j < windows.len() implies !state.hides(
            space,
            (#[trigger] windows[j]).window,
            env,
        ) by {
            assert(!is_hidden_on(env, space, windows[j].window));
        }
    }
}

/// The space has an active workspace, and the window is in another.
pub open spec fn is_hidden_on(env: Surroundings, space: SpaceId, window: WindowId) -> bool {
    match lookup(env.window_workspaces@, crate::ids::SpaceWindow { space, window }) {
        Some(workspace) => lookup(env.active_workspaces@, space) matches Some(active) && active != workspace,
        None => false,
    }
}

/// An activation comes from a window that is not managed exactly where the
/// tracked window under the cursor is one, and belongs to the application.
pub proof fn law_unmanaged_windows_under_the_cursor(
    state: ReactorView,
    pid: pid_t,
    wsid: WindowServerId,
    env: Surroundings,
)
    ensures
        state.unmanageable_under_cursor(pid, env) == Some(wsid) <==> env.window_under_cursor == Some(wsid) && (lookup(
            state.window_ids,
            wsid,
        ) matches Some(window) && window.pid == pid && (lookup(state.windows, window) matches Some(known)
            && !known.is_manageable)),
{
}

/// The window that the focus is given back to on a space is the one that waits
/// for it, and there is none where none waits.
pub proof fn law_one_window_waits_for_the_focus(
    state: ReactorView,
    space: SpaceId,
    window: WindowId,
    env: Surroundings,
)
    ensures
        state.last_focused(space, env) == Some(window) <==> waits_for_focus(state, space, window, env),
        state.cursor_window(env) == Some(window) <==> is_under_cursor(state, window, env),
{
}

proof fn lemma_no_last_window(state: ReactorView, space: SpaceId, env: Surroundings)
    requires
        forall|last: WindowId| !(#[trigger] waits_for_focus(state, space, last, env)),
    ensures
        state.last_focused(space, env) is None,
{
    if let Some(window) = state.last_focused(space, env) {
        assert(waits_for_focus(state, space, window, env));
    }
}

proof fn lemma_no_cursor_window(state: ReactorView, env: Surroundings)
    requires
        forall|window: WindowId| !(#[trigger] is_under_cursor(state, window, env)),
    ensures
        state.cursor_window(env) is None,
{
    if let Some(window) = state.cursor_window(env) {
        assert(is_under_cursor(state, window, env));
    }
}

proof fn lemma_focusable(state: ReactorView, window: WindowId, env: Surroundings)
    ensures
        state.focusable(Some(window), env) == (if may_get_focus(state, window, env) {
            Some(window)
        } else {
            None
        }),
{
    if let Some(space) = state.tracked_space(window, env) {
        if state.on_display(space) {
            let i = choose|i: int| 0 <= i < state.screens.len() && (#[trigger] state.screens[i]).space == Some(space);
            assert(state.screens[i].space is Some);
        }
    }
}

proof fn lemma_nothing_to_raise(state: ReactorView, env: Surroundings)
    ensures
        state.grouped(Seq::empty(), env).len() == 0,
{
}

/// No stranger is asked to become key while a window is dragged, or where an
/// answer names windows, or where neither workspaces are switched nor the focus
/// is to be given back.
pub proof fn law_strangers_are_not_asked_without_reason(
    state: ReactorView,
    raise: Seq<WindowId>,
    focus: Option<WindowId>,
    env: Surroundings,
)
    requires
        state.drag !is Inactive || raise.len() > 0 || focus is Some || (!switches(state) && state.refocus is Idle),
    ensures
        state.key_request(raise, focus, env) is None,
{
}

} // verus!
