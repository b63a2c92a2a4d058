//! What holds of the rules that put the windows of an application into workspaces.
use crate::ids::{pid_t, SpaceId, WindowId};
use crate::laws::windows::law_spaces_are_listed;
use crate::reactor::ReactorView;
use crate::requests::{LayoutEventView, TaskView};
use crate::state::AppInfo;
use crate::surroundings::Surroundings;
use crate::table::lookup;
use vstd::prelude::*;

verus! {

/// An assignment and a notice say of a window what is tracked of it, and nothing
/// where it is not tracked; the assignment also says what the application calls
/// itself.
pub proof fn law_rules_are_told_what_is_tracked(state: ReactorView, window: WindowId, space: SpaceId, app: AppInfo)
    ensures
        ({
            let assignment = state.assignment(window, space, app);
            let titled = state.titled(window);
            &&& assignment.window == window
            &&& assignment.space == space
            &&& assignment.bundle_id == app.bundle_id
            &&& assignment.app_name == app.localized_name
            &&& titled.window == window
            &&& assignment.title == titled.title
            &&& assignment.ax_role == titled.ax_role
            &&& assignment.ax_subrole == titled.ax_subrole
            &&& lookup(state.windows, window) matches Some(known) ==> {
                &&& titled.title == Some(known.title)
                &&& titled.ax_role == known.ax_role
                &&& titled.ax_subrole == known.ax_subrole
            }
            &&& lookup(state.windows, window) is None ==> {
                &&& titled.title is None
                &&& titled.ax_role is None
                &&& titled.ax_subrole is None
            }
        }),
{
}

/// The windows of a space are all those that belong to it, in their order.
pub proof fn law_members_belong_to_the_space(
    state: ReactorView,
    windows: Seq<WindowId>,
    space: SpaceId,
    env: Surroundings,
)
    ensures
        state.members_of(windows, space, env) == windows.filter(
            |w: WindowId| state.tracked_space(w, env) == Some(space),
        ),
{
}

/// The windows of a space are assigned one by one, and then the layout engine is
/// told of all of them at once, with their application.
pub proof fn law_windows_are_assigned_before_the_layout_hears(
    state: ReactorView,
    pid: pid_t,
    members: Seq<WindowId>,
    space: SpaceId,
    app: AppInfo,
)
    ensures
        ({
            let tasks = state.space_rule_tasks(pid, members, space, app);
            &&& tasks.len() == members.len() + 1
            &&& forall|i: int|
                0 <= i < members.len() ==> #[trigger] tasks[i] == TaskView::AssignWindowByRules(
                    state.assignment(members[i], space, app),
                )
            &&& tasks.last() matches TaskView::SendLayoutEvent(
                LayoutEventView::WindowsOnScreenUpdated(s, p, titled, Some(told)),
            ) && {
                &&& s == space
                &&& p == pid
                &&& told == app
                &&& titled.len() == members.len()
                &&& forall|i: int| 0 <= i < members.len() ==> #[trigger] titled[i] == state.titled(members[i])
            }
        }),
{
}

/// Spaces are dealt with one after the other, each by itself.
pub proof fn law_spaces_are_dealt_with_in_turn(
    state: ReactorView,
    earlier: Seq<SpaceId>,
    later: Seq<SpaceId>,
    space: SpaceId,
    pid: pid_t,
    windows: Seq<WindowId>,
    app: AppInfo,
    env: Surroundings,
)
    ensures
        state.rule_tasks_on(earlier + later, pid, windows, app, env) == state.rule_tasks_on(
            earlier,
            pid,
            windows,
            app,
            env,
        ) + state.rule_tasks_on(later, pid, windows, app, env),
        state.rule_tasks_on(seq![space], pid, windows, app, env) == state.space_rule_tasks(
            pid,
            state.members_of(windows, space, env),
            space,
            app,
        ),
    decreases later.len(),
{
    assert(seq![space].drop_last() =~= Seq::empty());
    assert(state.rule_tasks_on(Seq::empty(), pid, windows, app, env) =~= Seq::empty());
    assert(state.rule_tasks_on(seq![space], pid, windows, app, env) =~= state.space_rule_tasks(
        pid,
        state.members_of(windows, space, env),
        space,
        app,
    ));
    if later.len() > 0 {
        law_spaces_are_dealt_with_in_turn(state, earlier, later.drop_last(), space, pid, windows, app, env);
        assert((earlier + later).drop_last() =~= earlier + later.drop_last());
        assert((earlier + later).last() == later.last());
    } else {
        assert(earlier + later =~= earlier);
    }
    assert(state.rule_tasks_on(earlier + later, pid, windows, app, env) =~= state.rule_tasks_on(
        earlier,
        pid,
        windows,
        app,
        env,
    ) + state.rule_tasks_on(later, pid, windows, app, env));
}

/// The spaces that the rules are applied on are those that one of the windows
/// belongs to, from the smallest number to the largest, each once.
pub proof fn law_rules_go_by_the_number_of_the_space(
    state: ReactorView,
    pid: pid_t,
    windows: Seq<WindowId>,
    app: AppInfo,
    env: Surroundings,
)
    ensures
        ({
            let spaces = state.spaces_of(windows, env);
            &&& state.rule_tasks(pid, windows, app, env) == state.rule_tasks_on(spaces, pid, windows, app, env)
            &&& forall|i: int, j: int|
                0 <= i < j < spaces.len() ==> (#[trigger] spaces[i]).0 < (#[trigger] spaces[j]).0
            &&& forall|space: SpaceId| #[trigger]
                spaces.contains(space) <==> exists|i: int|
                    0 <= i < windows.len() && state.tracked_space(#[trigger] windows[i], env) == Some(space)
        }),
{
    law_spaces_are_listed(state, windows, env);
    let spaces = state.spaces_of(windows, env);
    assert forall|space: SpaceId| #[trigger] spaces.contains(space) <==> exists|i: int|
        0 <= i < windows.len() && state.tracked_space(#[trigger] windows[i], env) == Some(space) by {
        assert(spaces.contains(space) <==> state.some_on(windows, space, env));
    }
}

/// Rules are applied again to a window whose title changed exactly where that is
/// set, the window is managed and its application is known. The window is marked
/// first, where the window server knows it.
pub proof fn law_rules_are_applied_again(state: ReactorView, window: WindowId, env: Surroundings)
    ensures
        match (lookup(state.windows, window), lookup(state.apps, window.pid)) {
            (Some(known), Some(app)) if known.is_manageable
                && state.config.virtual_workspaces.reapply_app_rules_on_title_change => {
                let rules = state.rule_tasks(window.pid, seq![window], app.info, env);
                &&& known.window_server_id is None ==> state.reapply_tasks(window, env) =~= rules
                &&& known.window_server_id matches Some(wsid) ==> state.reapply_tasks(window, env) =~= seq![
                    TaskView::MarkRecent(wsid),
                ] + rules
            },
            _ => state.reapply_tasks(window, env).len() == 0,
        },
{
}

} // verus!
