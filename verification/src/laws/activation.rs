//! What holds of workspace switches that the activation of an application causes.
use crate::ids::{pid_t, SpaceId, SpaceWindow, VirtualWorkspaceId, WindowId};
use crate::laws::answers::is_displayed;
use crate::laws::basics::{is_row_of, law_tables_answer_by_their_rows};
use crate::reactor::activation::{stands_at, workspace_index, ActivationSwitch};
use crate::reactor::ReactorView;
use crate::requests::TaskView;
use crate::search::{first, is_first, lemma_first_exists};
use crate::state::{WorkspaceSwitchOrigin, WorkspaceSwitchState};
use crate::surroundings::Surroundings;
use crate::table::lookup;
use vstd::prelude::*;

verus! {

/// The window is tracked and managed.
pub open spec fn is_managed(state: ReactorView, window: WindowId) -> bool {
    lookup(state.windows, window) matches Some(known) && known.is_manageable
}

/// The main window is a managed window of the application.
pub open spec fn has_main_window(state: ReactorView, pid: pid_t, main: WindowId) -> bool {
    state.main_window == Some(main) && main.pid == pid && is_managed(state, main)
}

/// The window stands first among the tracked windows that are managed windows of
/// the application.
pub open spec fn is_first_window_of(state: ReactorView, pid: pid_t, window: WindowId) -> bool {
    exists|i: int|
        0 <= i < state.windows.len() && (#[trigger] state.windows[i]).0 == window && window.pid == pid && is_managed(
            state,
            window,
        ) && forall|j: int|
            0 <= j < i ==> (#[trigger] state.windows[j]).0.pid != pid || !is_managed(state, state.windows[j].0)
}

/// The switch leads from the active workspace of the window's space to the
/// workspace that the window is in, which is another.
pub open spec fn leads_to(state: ReactorView, window: WindowId, env: Surroundings, target: ActivationSwitch) -> bool {
    &&& state.tracked_space(window, env) == Some(target.space)
    &&& lookup(env.window_workspaces@, SpaceWindow { space: target.space, window }) == Some(target.to)
    &&& lookup(env.active_workspaces@, target.space) == Some(target.from)
    &&& target.from != target.to
}

/// A window of the application is in the active workspace of a space on display.
pub open spec fn is_seen(state: ReactorView, pid: pid_t, window: WindowId, env: Surroundings) -> bool {
    &&& window.pid == pid
    &&& lookup(state.windows, window) is Some
    &&& is_displayed(state, window, env)
    &&& state.tracked_space(window, env) matches Some(space) && (lookup(env.active_workspaces@, space) matches Some(
        active,
    ) && lookup(env.window_workspaces@, SpaceWindow { space, window }) == Some(active))
}

/// The switch would take back the last automatic one, less than 300
/// milliseconds after it.
pub open spec fn takes_back(state: ReactorView, target: ActivationSwitch, now: u64) -> bool {
    state.switch.last_auto_workspace_switch matches Some(last) && {
        &&& last.space == target.space
        &&& last.from_workspace == Some(target.to)
        &&& last.to_workspace == target.from
        &&& now < last.occurred_at + 300_000_000
    }
}

/// The activation of the application is not to be ignored.
pub open spec fn is_heeded(state: ReactorView, pid: pid_t, bundle_id: Option<Seq<char>>, env: Surroundings) -> bool {
    &&& state.switch.active_workspace_switch is None
    &&& !(state.switch.workspace_switch_state is Active && state.switch.pending_workspace_switch_origin == Some(
        WorkspaceSwitchOrigin::Manual,
    ))
    &&& env.active_space matches Some(space) ==> !env.fullscreen_spaces@.contains(space)
    &&& env.window_under_cursor matches Some(wsid) ==> (lookup(state.window_ids, wsid) matches Some(window)
        ==> window.pid == pid ==> (lookup(state.windows, window) matches Some(known) ==> known.is_manageable))
    &&& forall|window: WindowId| !(#[trigger] is_seen(state, pid, window, env))
    &&& bundle_id matches Some(bundle_id) && forall|i: int|
        0 <= i < state.config.settings.auto_focus_blacklist@.len() ==> (
        #[trigger] state.config.settings.auto_focus_blacklist@[i])@ != bundle_id
}

/// Where the main window is a managed window of the application, a switch that
/// its activation causes leads to the main window's workspace, on the main
/// window's space; other windows of the application do not matter.
pub proof fn law_main_window_decides(
    state: ReactorView,
    pid: pid_t,
    bundle_id: Option<Seq<char>>,
    now: u64,
    env: Surroundings,
    main: WindowId,
    target: ActivationSwitch,
)
    requires
        has_main_window(state, pid, main),
    ensures
        state.activation_switch(pid, bundle_id, now, env) == Some(target) <==> {
            &&& is_heeded(state, pid, bundle_id, env)
            &&& leads_to(state, main, env, target)
            &&& !takes_back(state, target, now)
        },
{
    lemma_seen(state, pid, env);
}

/// Where the main window is no managed window of the application, the first
/// tracked window that is one decides in its place.
pub proof fn law_another_window_decides_without_a_main_window(
    state: ReactorView,
    pid: pid_t,
    bundle_id: Option<Seq<char>>,
    now: u64,
    env: Surroundings,
    window: WindowId,
    target: ActivationSwitch,
)
    requires
        forall|main: WindowId| !(#[trigger] has_main_window(state, pid, main)),
        is_first_window_of(state, pid, window),
    ensures
        state.activation_switch(pid, bundle_id, now, env) == Some(target) <==> {
            &&& is_heeded(state, pid, bundle_id, env)
            &&& leads_to(state, window, env, target)
            &&& !takes_back(state, target, now)
        },
{
    lemma_seen(state, pid, env);
    if let Some(main) = state.main_window {
        assert(!has_main_window(state, pid, main));
    }
    let n = state.windows.len() as int;
    let p = state.is_standard_of(pid);
    let i = choose|i: int|
        0 <= i < state.windows.len() && (#[trigger] state.windows[i]).0 == window && window.pid == pid && is_managed(
            state,
            window,
        ) && forall|j: int|
            0 <= j < i ==> (#[trigger] state.windows[j]).0.pid != pid || !is_managed(state, state.windows[j].0);
    assert(p(i));
    assert forall|j: int| 0 <= j < i implies !(#[trigger] p(j)) by {
        assert(state.windows[j].0.pid != pid || !is_managed(state, state.windows[j].0));
    }
    crate::search::lemma_first_is(n, p, i);
}

/// An application without a managed window causes no switch.
pub proof fn law_applications_without_windows_switch_nothing(
    state: ReactorView,
    pid: pid_t,
    bundle_id: Option<Seq<char>>,
    now: u64,
    env: Surroundings,
)
    requires
        forall|window: WindowId| window.pid == pid ==> !(#[trigger] is_managed(state, window)),
    ensures
        state.activation_switch(pid, bundle_id, now, env) is None,
{
    if let Some(main) = state.main_window {
        assert(main.pid == pid ==> !is_managed(state, main));
    }
    let n = state.windows.len() as int;
    let p = state.is_standard_of(pid);
    if let Some(i) = first(n, p) {
        assert(exists|i: int| is_first(n, p, i));
        assert(is_first(n, p, i));
        assert(p(i));
        assert(!is_managed(state, state.windows[i].0));
    }
}

proof fn lemma_seen(state: ReactorView, pid: pid_t, env: Surroundings)
    ensures
        state.app_is_visible(pid, env) <==> exists|window: WindowId| #[trigger] is_seen(state, pid, window, env),
{
    if state.app_is_visible(pid, env) {
        let i = choose|i: int|
            0 <= i < state.windows.len() && (#[trigger] state.windows[i]).0.pid == pid
                && state.is_on_visible_workspace(state.windows[i].0, env);
        let window = state.windows[i].0;
        law_tables_answer_by_their_rows(state.windows, window);
        let space = state.tracked_space(window, env)->0;
        let s = choose|s: int| 0 <= s < state.screens.len() && (#[trigger] state.screens[s]).space == Some(space);
        assert(state.screens[s].space is Some);
        assert(is_seen(state, pid, window, env));
    }
    if exists|window: WindowId| #[trigger] is_seen(state, pid, window, env) {
        let window = choose|window: WindowId| #[trigger] is_seen(state, pid, window, env);
        law_tables_answer_by_their_rows(state.windows, window);
        let known = lookup(state.windows, window)->0;
        let i = choose|i: int| #[trigger] is_row_of(state.windows, window, known, i);
        let s = choose|s: int|
            0 <= s < state.screens.len() && (#[trigger] state.screens[s]).space is Some && state.tracked_space(
                window,
                env,
            ) == state.screens[s].space;
        assert(state.screens[s].space == Some(state.tracked_space(window, env)->0));
        assert(state.windows[i].0.pid == pid && state.is_on_visible_workspace(state.windows[i].0, env));
    }
}

/// A workspace is switched to by its first place in the list, and not at all
/// where it is not listed.
pub proof fn law_workspaces_are_switched_to_by_place(
    workspaces: Seq<VirtualWorkspaceId>,
    workspace: VirtualWorkspaceId,
)
    ensures
        match workspace_index(workspaces, workspace) {
            Some(k) => {
                &&& 0 <= k < workspaces.len()
                &&& workspaces[k] == workspace
                &&& forall|j: int| 0 <= j < k ==> #[trigger] workspaces[j] != workspace
            },
            None => !workspaces.contains(workspace),
        },
{
    let n = workspaces.len() as int;
    let p = stands_at(workspaces, workspace);
    match first(n, p) {
        Some(k) => {
            assert(exists|i: int| is_first(n, p, i));
            assert(is_first(n, p, k));
            assert forall|j: int| 0 <= j < k implies #[trigger] workspaces[j] != workspace by {
                assert(!p(j));
            }
        },
        None => {
            if workspaces.contains(workspace) {
                let i = choose|i: int| 0 <= i < workspaces.len() && workspaces[i] == workspace;
                assert(p(i));
                lemma_first_exists(n, p, i);
            }
        },
    }
}

/// The layout engine is asked to remember exactly the floating windows of the
/// active workspace that are tracked, each where it is, in their order; and not
/// at all where there is none.
pub proof fn law_floating_windows_are_remembered_where_they_are(
    state: ReactorView,
    space: SpaceId,
    env: Surroundings,
)
    ensures
        ({
            let floating = env.windows_in(space).filter(
                |w: WindowId| env.floating_windows@.contains(w) && lookup(state.windows, w) is Some,
            );
            let tasks = state.floating_tasks(space, env);
            &&& floating.len() == 0 ==> tasks.len() == 0
            &&& floating.len() > 0 ==> tasks.len() == 1 && (tasks[0] matches TaskView::StoreFloatingPositions {
                space: s,
                positions,
            } && s == space && positions.len() == floating.len() && forall|i: int|
                0 <= i < floating.len() ==> (#[trigger] positions[i]).0 == floating[i] && (lookup(
                    state.windows,
                    floating[i],
                ) matches Some(known) && known.frame_monotonic == positions[i].1))
        }),
{
    let f = |w: WindowId| env.floating_windows@.contains(w) && lookup(state.windows, w) is Some;
    let g = |w: WindowId| env.is_floating(w) && lookup(state.windows, w) is Some;
    assert(f =~= g);
    let floating = env.windows_in(space).filter(f);
    assert forall|i: int| 0 <= i < floating.len() implies lookup(state.windows, #[trigger] floating[i]) is Some by {
        crate::table::lemma_filtered_from(env.windows_in(space), f, i);
    }
}

/// An automatic switch is under way once it is started, is not a manual one, and
/// is remembered by its space, its two workspaces and its time.
pub proof fn law_automatic_switches_are_remembered(state: ReactorView, target: ActivationSwitch, now: u64)
    ensures
        ({
            let switch = state.auto_switched(target, now);
            &&& switch.workspace_switch_state == WorkspaceSwitchState::Active
            &&& switch.pending_workspace_switch_origin == Some(WorkspaceSwitchOrigin::Auto)
            &&& switch.active_workspace_switch == Some(switch.workspace_switch_generation)
            &&& switch.workspace_switch_generation != state.switch.workspace_switch_generation
            &&& switch.pending_workspace_mouse_warp == state.switch.pending_workspace_mouse_warp
            &&& switch.last_auto_workspace_switch matches Some(last) && last.space == target.space
                && last.from_workspace == Some(target.from) && last.to_workspace == target.to && last.occurred_at
                == now
        }),
{
}

} // verus!
