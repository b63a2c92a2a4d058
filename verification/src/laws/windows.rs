//! What holds of the tracked windows.
use crate::ids::{pid_t, SpaceId, SpaceWorkspace, VirtualWorkspaceId, WindowId, WindowServerId};
use crate::reactor::mouse::Stacking;
use crate::reactor::rules::{ascending, lemma_ascending_unique};
use crate::reactor::windows::WindowData;
use crate::reactor::ReactorView;
use crate::requests::{AppRequest, BroadcastEventView, LayoutEventView, RuleAssignment, TaskView};
use crate::state::{AppInfo, WindowInfo, WindowServerInfo, WindowState};
use crate::surroundings::{Surroundings, WorkspaceTitle};
use crate::table::{lemma_filter_contains, lemma_filtered_from, lemma_lookup_put, lemma_lookup_put_other};
use crate::table::{lemma_with_item, lemma_without_item, lookup};
use vstd::prelude::*;

verus! {

/// One of the reports is about `id`.
pub open spec fn is_reported(infos: Seq<WindowServerInfo>, id: WindowServerId) -> bool {
    exists|i: int| 0 <= i < infos.len() && (#[trigger] infos[i]).id == id
}

/// The report at `i` is the last about its window.
pub open spec fn is_last_report(infos: Seq<WindowServerInfo>, i: int) -> bool {
    0 <= i < infos.len() && forall|j: int| i < j < infos.len() ==> (#[trigger] infos[j]).id != infos[i].id
}

proof fn lemma_reported_push(infos: Seq<WindowServerInfo>, id: WindowServerId)
    requires
        infos.len() > 0,
    ensures
        is_reported(infos, id) <==> is_reported(infos.drop_last(), id) || infos.last().id == id,
{
    let t = infos.drop_last();
    if is_reported(t, id) {
        let i = choose|i: int| 0 <= i < t.len() && (#[trigger] t[i]).id == id;
        assert(infos[i].id == id);
    }
    if is_reported(infos, id) && infos.last().id != id {
        let i = choose|i: int| 0 <= i < infos.len() && (#[trigger] infos[i]).id == id;
        assert(t[i].id == id);
    }
    if infos.last().id == id {
        assert(infos[infos.len() - 1].id == id);
    }
}

/// Reports of the window server make exactly the windows that they are about
/// visible, beside those that were, and nothing that was reported is waited
/// for any more.
pub proof fn law_reported_windows_are_visible(
    state: ReactorView,
    infos: Seq<WindowServerInfo>,
    verdicts: Seq<bool>,
    id: WindowServerId,
)
    requires
        infos.len() == verdicts.len(),
    ensures
        state.with_server_infos(infos, verdicts).visible.contains(id) <==> (state.visible.contains(id)
            || is_reported(infos, id)),
        state.with_server_infos(infos, verdicts).observed.contains(id) <==> (state.observed.contains(id)
            && !is_reported(infos, id)),
        state.with_server_infos(infos, verdicts).window_ids == state.window_ids,
    decreases infos.len(),
{
    if infos.len() > 0 {
        law_reported_windows_are_visible(state, infos.drop_last(), verdicts.drop_last(), id);
        let before = state.with_server_infos(infos.drop_last(), verdicts.drop_last());
        lemma_reported_push(infos, id);
        lemma_with_item(before.visible, infos.last().id, id);
        lemma_without_item(before.observed, infos.last().id, id);
    }
}

/// A complete list of the visible windows makes exactly the windows on it visible.
pub proof fn law_complete_lists_are_complete(
    state: ReactorView,
    infos: Seq<WindowServerInfo>,
    verdicts: Seq<bool>,
    id: WindowServerId,
)
    requires
        infos.len() == verdicts.len(),
    ensures
        (ReactorView { visible: Seq::empty(), ..state }).with_server_infos(infos, verdicts).visible.contains(id)
            <==> is_reported(infos, id),
{
    law_reported_windows_are_visible(ReactorView { visible: Seq::empty(), ..state }, infos, verdicts, id);
}

/// What is known of a window is the last report about it.
pub proof fn law_last_report_counts(
    state: ReactorView,
    infos: Seq<WindowServerInfo>,
    verdicts: Seq<bool>,
    i: int,
)
    requires
        infos.len() == verdicts.len(),
        is_last_report(infos, i),
    ensures
        lookup(state.with_server_infos(infos, verdicts).server_info, infos[i].id) == Some(infos[i]),
    decreases infos.len(),
{
    let before = state.with_server_infos(infos.drop_last(), verdicts.drop_last());
    if i == infos.len() - 1 {
        lemma_lookup_put(before.server_info, infos.last().id, infos.last());
    } else {
        assert(infos[infos.len() - 1].id != infos[i].id);
        assert forall|j: int| i < j < infos.drop_last().len() implies (#[trigger] infos.drop_last()[j]).id
            != infos[i].id by {
            assert(infos[j].id != infos[i].id);
        }
        law_last_report_counts(state, infos.drop_last(), verdicts.drop_last(), i);
        lemma_lookup_put_other(before.server_info, infos.last().id, infos.last(), infos[i].id);
    }
}

/// What is known of a window that no report is about does not change.
pub proof fn law_other_reports_do_not_count(
    state: ReactorView,
    infos: Seq<WindowServerInfo>,
    verdicts: Seq<bool>,
    id: WindowServerId,
)
    requires
        infos.len() == verdicts.len(),
        !is_reported(infos, id),
    ensures
        lookup(state.with_server_infos(infos, verdicts).server_info, id) == lookup(state.server_info, id),
    decreases infos.len(),
{
    if infos.len() > 0 {
        lemma_reported_push(infos, id);
        law_other_reports_do_not_count(state, infos.drop_last(), verdicts.drop_last(), id);
        let before = state.with_server_infos(infos.drop_last(), verdicts.drop_last());
        lemma_lookup_put_other(before.server_info, infos.last().id, infos.last(), id);
    }
}

/// The report is about the tracked window.
pub open spec fn is_about(state: ReactorView, info: WindowServerInfo, window: WindowId) -> bool {
    lookup(state.window_ids, info.id) == Some(window)
}

/// A tracked window that no report is about stays as it is.
pub proof fn law_unreported_windows_stay(
    state: ReactorView,
    infos: Seq<WindowServerInfo>,
    verdicts: Seq<bool>,
    window: WindowId,
)
    requires
        infos.len() == verdicts.len(),
        forall|i: int| 0 <= i < infos.len() ==> !is_about(state, #[trigger] infos[i], window),
    ensures
        lookup(state.with_server_infos(infos, verdicts).windows, window) == lookup(state.windows, window),
    decreases infos.len(),
{
    if infos.len() > 0 {
        let t = infos.drop_last();
        assert forall|i: int| 0 <= i < t.len() implies !is_about(state, #[trigger] t[i], window) by {
            assert(t[i] == infos[i]);
        }
        law_unreported_windows_stay(state, t, verdicts.drop_last(), window);
        lemma_last_report(state, infos, verdicts, window);
        assert(!is_about(state, infos[infos.len() - 1], window));
    }
}

/// Reports track no window and forget none, and of a tracked window they change
/// only its frame and whether it is managed.
pub proof fn law_reports_keep_windows(
    state: ReactorView,
    infos: Seq<WindowServerInfo>,
    verdicts: Seq<bool>,
    window: WindowId,
)
    requires
        infos.len() == verdicts.len(),
    ensures
        match (lookup(state.windows, window), lookup(state.with_server_infos(infos, verdicts).windows, window)) {
            (Some(known), Some(after)) => after == (WindowState {
                frame_monotonic: after.frame_monotonic,
                is_manageable: after.is_manageable,
                ..known
            }),
            (None, None) => true,
            _ => false,
        },
    decreases infos.len(),
{
    if infos.len() > 0 {
        law_reports_keep_windows(state, infos.drop_last(), verdicts.drop_last(), window);
        lemma_last_report(state, infos, verdicts, window);
    }
}

proof fn lemma_last_report(
    state: ReactorView,
    infos: Seq<WindowServerInfo>,
    verdicts: Seq<bool>,
    window: WindowId,
)
    requires
        infos.len() == verdicts.len(),
        infos.len() > 0,
    ensures
        lookup(state.with_server_infos(infos, verdicts).windows, window) == (match lookup(
            state.with_server_infos(infos.drop_last(), verdicts.drop_last()).windows,
            window,
        ) {
            Some(now) if is_about(state, infos.last(), window) => Some(now.reported(infos.last(), verdicts.last())),
            before => before,
        }),
{
    let t = infos.drop_last();
    let v = verdicts.drop_last();
    let before = state.with_server_infos(t, v);
    law_reported_windows_are_visible(state, t, v, infos.last().id);
    if let Some(other) = lookup(before.window_ids, infos.last().id) {
        if let Some(now) = lookup(before.windows, other) {
            let placed = now.reported(infos.last(), verdicts.last());
            if other == window {
                lemma_lookup_put(before.windows, other, placed);
            } else {
                lemma_lookup_put_other(before.windows, other, placed, window);
            }
        }
    }
}

/// A tracked window is managed as the last report about it was judged.
pub proof fn law_last_verdict_counts(
    state: ReactorView,
    infos: Seq<WindowServerInfo>,
    verdicts: Seq<bool>,
    i: int,
    window: WindowId,
)
    requires
        infos.len() == verdicts.len(),
        0 <= i < infos.len(),
        is_about(state, infos[i], window),
        forall|j: int| i < j < infos.len() ==> !is_about(state, #[trigger] infos[j], window),
        lookup(state.windows, window) is Some,
    ensures
        lookup(state.with_server_infos(infos, verdicts).windows, window) matches Some(after) && after.is_manageable
            == verdicts[i],
    decreases infos.len(),
{
    let t = infos.drop_last();
    let v = verdicts.drop_last();
    law_reports_keep_windows(state, t, v, window);
    lemma_last_report(state, infos, verdicts, window);
    if i < t.len() {
        assert forall|j: int| i < j < t.len() implies !is_about(state, #[trigger] t[j], window) by {
            assert(t[j] == infos[j]);
        }
        law_last_verdict_counts(state, t, v, i, window);
        assert(!is_about(state, infos[infos.len() - 1], window));
    }
}

/// The report is about the tracked window, and of the ordinary layer.
pub open spec fn places(state: ReactorView, info: WindowServerInfo, window: WindowId) -> bool {
    is_about(state, info, window) && info.layer == 0
}

/// A tracked window is where the last report of the ordinary layer about it has
/// it.
pub proof fn law_reports_place_windows(
    state: ReactorView,
    infos: Seq<WindowServerInfo>,
    verdicts: Seq<bool>,
    i: int,
    window: WindowId,
)
    requires
        infos.len() == verdicts.len(),
        0 <= i < infos.len(),
        places(state, infos[i], window),
        forall|j: int| i < j < infos.len() ==> !places(state, #[trigger] infos[j], window),
        lookup(state.windows, window) is Some,
    ensures
        lookup(state.with_server_infos(infos, verdicts).windows, window) matches Some(after) && after.frame_monotonic
            == infos[i].frame,
    decreases infos.len(),
{
    let t = infos.drop_last();
    let v = verdicts.drop_last();
    law_reports_keep_windows(state, t, v, window);
    lemma_last_report(state, infos, verdicts, window);
    if i < t.len() {
        assert forall|j: int| i < j < t.len() implies !places(state, #[trigger] t[j], window) by {
            assert(t[j] == infos[j]);
        }
        law_reports_place_windows(state, t, v, i, window);
        assert(!places(state, infos[infos.len() - 1], window));
    }
}

/// A tracked window that is reported on other layers only stays where it is.
pub proof fn law_other_layers_place_nothing(
    state: ReactorView,
    infos: Seq<WindowServerInfo>,
    verdicts: Seq<bool>,
    window: WindowId,
    known: WindowState,
)
    requires
        infos.len() == verdicts.len(),
        forall|j: int| 0 <= j < infos.len() ==> !places(state, #[trigger] infos[j], window),
        lookup(state.windows, window) == Some(known),
    ensures
        lookup(state.with_server_infos(infos, verdicts).windows, window) matches Some(after) && after.frame_monotonic
            == known.frame_monotonic,
    decreases infos.len(),
{
    if infos.len() > 0 {
        let t = infos.drop_last();
        assert forall|j: int| 0 <= j < t.len() implies !places(state, #[trigger] t[j], window) by {
            assert(t[j] == infos[j]);
        }
        law_other_layers_place_nothing(state, t, verdicts.drop_last(), window, known);
        lemma_last_report(state, infos, verdicts, window);
        assert(!places(state, infos[infos.len() - 1], window));
    }
}

/// Subscribers hear of a new title only where it is another one.
pub proof fn law_same_titles_are_no_news(state: ReactorView, window: WindowId, title: Seq<char>, env: Surroundings)
    ensures
        state.title_news(window, title, title, env) is None,
{
}

/// Queries do not show minimized windows, nor windows of applications that are
/// not known.
pub proof fn law_hidden_windows_are_not_shown(state: ReactorView, window: WindowId, env: Surroundings)
    ensures
        state.window_data(window, env) is Some <==> (lookup(state.windows, window) matches Some(known)
            && !known.is_minimized && lookup(state.apps, window.pid) is Some),
{
}

/// No window is raised by the mouse while a menu is open, or where it is not managed.
pub proof fn law_menus_stop_raising(
    state: ReactorView,
    window: WindowId,
    stacking: Stacking,
    env: Surroundings,
)
    requires
        state.menu is Open || !state.is_standard(window),
    ensures
        !state.raises_on_mouse_over(window, stacking, env),
{
}

/// An ascending list with `space` in its place.
pub open spec fn placed(list: Seq<SpaceId>, space: SpaceId) -> Seq<SpaceId>
    decreases list.len(),
{
    if list.len() == 0 || list.last().0 < space.0 {
        list.push(space)
    } else if list.last() == space {
        list
    } else {
        placed(list.drop_last(), space).push(list.last())
    }
}

proof fn lemma_placed(list: Seq<SpaceId>, space: SpaceId)
    requires
        ascending(list),
    ensures
        ascending(placed(list, space)),
        forall|s: SpaceId| #[trigger] placed(list, space).contains(s) <==> list.contains(s) || s == space,
    decreases list.len(),
{
    let after = placed(list, space);
    if list.len() == 0 || list.last().0 < space.0 {
        assert forall|i: int, j: int| 0 <= i < j < after.len() implies (#[trigger] after[i]).0 < (
        #[trigger] after[j]).0 by {
            if j < list.len() {
                assert(list[i].0 < list[j].0);
            } else if i < list.len() - 1 {
                assert(list[i].0 < list[list.len() - 1].0);
            }
        }
        assert forall|s: SpaceId| #[trigger] after.contains(s) <==> list.contains(s) || s == space by {
            assert(after[list.len() as int] == space);
            if list.contains(s) {
                let i = choose|i: int| 0 <= i < list.len() && list[i] == s;
                assert(after[i] == s);
            }
        }
    } else if list.last() == space {
        assert(list[list.len() - 1] == space);
    } else {
        let rest = list.drop_last();
        let last = list.last();
        assert forall|i: int, j: int| 0 <= i < j < rest.len() implies (#[trigger] rest[i]).0 < (
        #[trigger] rest[j]).0 by {
            assert(list[i].0 < list[j].0);
        }
        lemma_placed(rest, space);
        let front = placed(rest, space);
        assert forall|i: int| 0 <= i < front.len() implies (#[trigger] front[i]).0 < last.0 by {
            assert(front.contains(front[i]));
            if front[i] != space {
                let k = choose|k: int| 0 <= k < rest.len() && rest[k] == front[i];
                assert(list[k].0 < list[list.len() - 1].0);
            }
        }
        assert forall|i: int, j: int| 0 <= i < j < after.len() implies (#[trigger] after[i]).0 < (
        #[trigger] after[j]).0 by {
            if j < front.len() {
                assert(front[i].0 < front[j].0);
            } else {
                assert(front[i].0 < last.0);
            }
        }
        assert forall|s: SpaceId| #[trigger] after.contains(s) <==> list.contains(s) || s == space by {
            assert(after[front.len() as int] == last);
            assert(list[list.len() - 1] == last);
            if front.contains(s) {
                let i = choose|i: int| 0 <= i < front.len() && front[i] == s;
                assert(after[i] == s);
            }
            if list.contains(s) && s != last {
                let i = choose|i: int| 0 <= i < list.len() && list[i] == s;
                assert(rest[i] == s);
                assert(front.contains(s));
            }
            if after.contains(s) && s != last {
                let i = choose|i: int| 0 <= i < after.len() && after[i] == s;
                assert(front[i] == s);
                assert(front.contains(s));
                if s != space {
                    let k = choose|k: int| 0 <= k < rest.len() && rest[k] == s;
                    assert(list[k] == s);
                }
            }
        }
    }
}

proof fn lemma_some_listing(state: ReactorView, windows: Seq<WindowId>, env: Surroundings) -> (list: Seq<SpaceId>)
    ensures
        state.lists_spaces(list, windows, env),
    decreases windows.len(),
{
    if windows.len() == 0 {
        let list = Seq::<SpaceId>::empty();
        assert(state.lists_spaces(list, windows, env));
        list
    } else {
        let t = windows.drop_last();
        let before = lemma_some_listing(state, t, env);
        assert forall|s: SpaceId| #[trigger] state.some_on(windows, s, env) <==> state.some_on(t, s, env)
            || state.tracked_space(windows.last(), env) == Some(s) by {
            if state.some_on(t, s, env) {
                let i = choose|i: int| 0 <= i < t.len() && state.tracked_space(#[trigger] t[i], env) == Some(s);
                assert(state.tracked_space(windows[i], env) == Some(s));
            }
            if state.some_on(windows, s, env) {
                let i = choose|i: int|
                    0 <= i < windows.len() && state.tracked_space(#[trigger] windows[i], env) == Some(s);
                if i < t.len() {
                    assert(state.tracked_space(t[i], env) == Some(s));
                }
            }
            assert(windows[windows.len() - 1] == windows.last());
        }
        match state.tracked_space(windows.last(), env) {
            Some(space) => {
                lemma_placed(before, space);
                let list = placed(before, space);
                assert forall|s: SpaceId| #[trigger] list.contains(s) <==> state.some_on(windows, s, env) by {
                    assert(before.contains(s) <==> state.some_on(t, s, env));
                }
                assert(state.lists_spaces(list, windows, env));
                list
            },
            None => {
                assert forall|s: SpaceId| #[trigger] before.contains(s) <==> state.some_on(windows, s, env) by {
                    assert(before.contains(s) <==> state.some_on(t, s, env));
                }
                assert(state.lists_spaces(before, windows, env));
                before
            },
        }
    }
}

/// The spaces that windows belong to can be listed in ascending order, in one
/// way.
pub proof fn law_spaces_are_listed(state: ReactorView, windows: Seq<WindowId>, env: Surroundings)
    ensures
        state.lists_spaces(state.spaces_of(windows, env), windows, env),
        forall|list: Seq<SpaceId>| #[trigger] state.lists_spaces(list, windows, env) ==> list == state.spaces_of(
            windows,
            env,
        ),
{
    let some = lemma_some_listing(state, windows, env);
    assert(state.lists_spaces(some, windows, env));
    let spaces = state.spaces_of(windows, env);
    assert forall|list: Seq<SpaceId>| #[trigger] state.lists_spaces(list, windows, env) implies list == spaces by {
        assert forall|s: SpaceId| #[trigger] list.contains(s) <==> spaces.contains(s) by {
            assert(spaces.contains(s) <==> state.some_on(windows, s, env));
        }
        lemma_ascending_unique(list, spaces);
    }
}

proof fn lemma_tasks_of_space(
    state: ReactorView,
    spaces: Seq<SpaceId>,
    pid: pid_t,
    windows: Seq<WindowId>,
    app: AppInfo,
    env: Surroundings,
    s: int,
    task: TaskView,
)
    requires
        0 <= s < spaces.len(),
        state.space_rule_tasks(pid, state.members_of(windows, spaces[s], env), spaces[s], app).contains(task),
    ensures
        state.rule_tasks_on(spaces, pid, windows, app, env).contains(task),
    decreases spaces.len(),
{
    let before = state.rule_tasks_on(spaces.drop_last(), pid, windows, app, env);
    let last = state.space_rule_tasks(pid, state.members_of(windows, spaces.last(), env), spaces.last(), app);
    if s == spaces.len() - 1 {
        let k = choose|k: int| 0 <= k < last.len() && last[k] == task;
        assert((before + last)[before.len() + k] == task);
    } else {
        lemma_tasks_of_space(state, spaces.drop_last(), pid, windows, app, env, s, task);
        let k = choose|k: int| 0 <= k < before.len() && before[k] == task;
        assert((before + last)[k] == task);
    }
}

/// Every window of an application that is on a space is put into a workspace
/// by the rules, and the layout engine is told of the windows of that space.
pub proof fn law_rules_reach_every_window(
    state: ReactorView,
    pid: pid_t,
    windows: Seq<WindowId>,
    app: AppInfo,
    env: Surroundings,
    i: int,
    space: SpaceId,
)
    requires
        0 <= i < windows.len(),
        state.tracked_space(windows[i], env) == Some(space),
    ensures
        state.rule_tasks(pid, windows, app, env).contains(
            TaskView::AssignWindowByRules(state.assignment(windows[i], space, app)),
        ),
        state.rule_tasks(pid, windows, app, env).contains(
            TaskView::SendLayoutEvent(
                LayoutEventView::WindowsOnScreenUpdated(
                    space,
                    pid,
                    state.members_of(windows, space, env).map_values(|w: WindowId| state.titled(w)),
                    Some(app),
                ),
            ),
        ),
{
    let spaces = state.spaces_of(windows, env);
    law_spaces_are_listed(state, windows, env);
    assert(state.some_on(windows, space, env));
    assert(spaces.contains(space));
    let s = choose|s: int| 0 <= s < spaces.len() && spaces[s] == space;
    let members = state.members_of(windows, space, env);
    let f = |w: WindowId| state.tracked_space(w, env) == Some(space);
    lemma_filter_contains(windows, f, windows[i]);
    let m = choose|m: int| 0 <= m < members.len() && members[m] == windows[i];
    let tasks = state.space_rule_tasks(pid, members, space, app);
    let assign = TaskView::AssignWindowByRules(state.assignment(windows[i], space, app));
    assert(tasks[m] == assign);
    lemma_tasks_of_space(state, spaces, pid, windows, app, env, s, assign);
    let told = TaskView::SendLayoutEvent(
        LayoutEventView::WindowsOnScreenUpdated(
            space,
            pid,
            members.map_values(|w: WindowId| state.titled(w)),
            Some(app),
        ),
    );
    assert(tasks[members.len() as int] == told);
    lemma_tasks_of_space(state, spaces, pid, windows, app, env, s, told);
}

proof fn lemma_rule_tasks_from(
    state: ReactorView,
    spaces: Seq<SpaceId>,
    pid: pid_t,
    windows: Seq<WindowId>,
    app: AppInfo,
    env: Surroundings,
    assignment: RuleAssignment,
)
    requires
        state.rule_tasks_on(spaces, pid, windows, app, env).contains(TaskView::AssignWindowByRules(assignment)),
    ensures
        windows.contains(assignment.window),
        state.tracked_space(assignment.window, env) == Some(assignment.space),
    decreases spaces.len(),
{
    let task = TaskView::AssignWindowByRules(assignment);
    let all = state.rule_tasks_on(spaces, pid, windows, app, env);
    let before = state.rule_tasks_on(spaces.drop_last(), pid, windows, app, env);
    let members = state.members_of(windows, spaces.last(), env);
    let last = state.space_rule_tasks(pid, members, spaces.last(), app);
    let k = choose|k: int| 0 <= k < all.len() && all[k] == task;
    if k < before.len() {
        assert(before[k] == task);
        lemma_rule_tasks_from(state, spaces.drop_last(), pid, windows, app, env, assignment);
    } else {
        let m = k - before.len();
        assert(last[m] == task);
        assert(m < members.len());
        let f = |w: WindowId| state.tracked_space(w, env) == Some(spaces.last());
        lemma_filtered_from(windows, f, m);
    }
}

/// The rules put only those windows into workspaces that they were asked to,
/// and each on the space that it is on.
pub proof fn law_rules_reach_no_other_window(
    state: ReactorView,
    pid: pid_t,
    windows: Seq<WindowId>,
    app: AppInfo,
    env: Surroundings,
    assignment: RuleAssignment,
)
    requires
        state.rule_tasks(pid, windows, app, env).contains(TaskView::AssignWindowByRules(assignment)),
    ensures
        windows.contains(assignment.window),
        state.tracked_space(assignment.window, env) == Some(assignment.space),
{
    lemma_rule_tasks_from(state, state.spaces_of(windows, env), pid, windows, app, env, assignment);
}

/// The answer to a query about a window says what is tracked of that window, and
/// what its application is called: by its name, or else by its bundle. The
/// window is focused exactly where it is the main window, and floating exactly
/// where the layout engine has it so.
pub proof fn law_queries_tell_what_is_tracked(
    state: ReactorView,
    window: WindowId,
    env: Surroundings,
    data: WindowData,
)
    requires
        state.window_data(window, env) == Some(data),
    ensures
        data.id == window,
        lookup(state.windows, window) matches Some(known) && {
            &&& data.title == known.title
            &&& data.frame == known.frame_monotonic
            &&& match known.window_server_id {
                Some(wsid) => data.window_server_id == Some(wsid.0),
                None => data.window_server_id is None,
            }
        },
        lookup(state.apps, window.pid) matches Some(app) && {
            &&& app.info.localized_name is Some ==> data.bundle_id == app.info.localized_name
            &&& app.info.localized_name is None ==> data.bundle_id == app.info.bundle_id
        },
        data.is_focused <==> state.main_window == Some(window),
        data.is_floating <==> env.floating_windows@.contains(window),
{
}

/// Of two different windows, queries tell at most one to be focused.
pub proof fn law_one_window_is_focused(
    state: ReactorView,
    a: WindowId,
    b: WindowId,
    env: Surroundings,
)
    requires
        a != b,
    ensures
        !((state.window_data(a, env) matches Some(one) && one.is_focused) && (state.window_data(b, env) matches Some(
            other,
        ) && other.is_focused)),
{
}

/// The rule that says which windows are managed is asked about exactly the
/// reports of tracked windows, and is told what is tracked of that window.
pub proof fn law_the_rule_is_told_what_is_tracked(state: ReactorView, info: WindowServerInfo)
    ensures
        match state.query_for(info) {
            Some(query) => lookup(state.window_ids, info.id) matches Some(window) && (lookup(
                state.windows,
                window,
            ) matches Some(known) && {
                &&& query.window_server_id == known.window_server_id
                &&& query.is_minimized == known.is_minimized
                &&& query.is_ax_standard == known.is_ax_standard
                &&& query.is_ax_root == known.is_ax_root
            }),
            None => forall|window: WindowId|
                is_about(state, info, window) ==> #[trigger] lookup(state.windows, window) is None,
        },
{
}

/// Every application that is known is asked for its windows, each by one
/// request; a refresh asks each of them once too.
pub proof fn law_every_application_is_asked(state: ReactorView)
    ensures
        state.list_windows_tasks().len() == state.apps.len(),
        state.refresh_tasks().len() == state.apps.len(),
        forall|i: int|
            0 <= i < state.apps.len() ==> #[trigger] state.list_windows_tasks()[i] == TaskView::SendToApp(
                state.apps[i].0,
                AppRequest::GetVisibleWindows { force_refresh: false },
            ),
        forall|i: int|
            0 <= i < state.apps.len() ==> #[trigger] state.refresh_tasks()[i] == TaskView::RefreshApp(state.apps[i].0),
{
}

/// Reports of the window server change only which windows are visible, which
/// are waited for, what is known of the reported ones, and the tracked windows.
pub proof fn law_reports_change_nothing_else(
    state: ReactorView,
    infos: Seq<WindowServerInfo>,
    verdicts: Seq<bool>,
)
    requires
        infos.len() == verdicts.len(),
    ensures
        ({
            let after = state.with_server_infos(infos, verdicts);
            after == (ReactorView {
                visible: after.visible,
                observed: after.observed,
                server_info: after.server_info,
                windows: after.windows,
                ..state
            })
        }),
    decreases infos.len(),
{
    if infos.len() > 0 {
        law_reports_change_nothing_else(state, infos.drop_last(), verdicts.drop_last());
    }
}

/// The process of a window: that of the tracked window; or else the one that the
/// window server has reported; or else the one that it knows now.
pub open spec fn is_owner(state: ReactorView, wsid: WindowServerId, env: Surroundings, pid: pid_t) -> bool {
    match lookup(state.window_ids, wsid) {
        Some(window) => window.pid == pid,
        None => match lookup(state.server_info, wsid) {
            Some(info) => info.pid == pid,
            None => lookup(env.server_windows@, wsid) matches Some(info) && info.pid == pid,
        },
    }
}

/// An application has windows that change screens exactly where one of the
/// windows that do is its own. It has visible windows exactly where one of the
/// visible ones is tracked and is its own.
pub proof fn law_applications_have_their_own_windows(state: ReactorView, pid: pid_t, env: Surroundings)
    ensures
        state.is_changing_screens(pid, env) <==> exists|wsid: WindowServerId|
            state.changing.contains(wsid) && #[trigger] is_owner(state, wsid, env, pid),
        state.has_visible(pid) <==> exists|wsid: WindowServerId|
            state.visible.contains(wsid) && (#[trigger] lookup(state.window_ids, wsid) matches Some(window)
                && window.pid == pid),
{
    if state.is_changing_screens(pid, env) {
        let i = choose|i: int|
            0 <= i < state.changing.len() && state.owner(#[trigger] state.changing[i], env) == Some(pid);
        assert(state.changing.contains(state.changing[i]));
        assert(is_owner(state, state.changing[i], env, pid));
    }
    if exists|wsid: WindowServerId| state.changing.contains(wsid) && #[trigger] is_owner(state, wsid, env, pid) {
        let wsid = choose|wsid: WindowServerId|
            state.changing.contains(wsid) && #[trigger] is_owner(state, wsid, env, pid);
        let i = choose|i: int| 0 <= i < state.changing.len() && state.changing[i] == wsid;
        assert(state.owner(state.changing[i], env) == Some(pid));
    }
    if state.has_visible(pid) {
        let i = choose|i: int|
            0 <= i < state.visible.len() && (lookup(state.window_ids, #[trigger] state.visible[i]) matches Some(window)
                && window.pid == pid);
        assert(state.visible.contains(state.visible[i]));
    }
    if exists|wsid: WindowServerId|
        state.visible.contains(wsid) && (#[trigger] lookup(state.window_ids, wsid) matches Some(window) && window.pid
            == pid) {
        let wsid = choose|wsid: WindowServerId|
            state.visible.contains(wsid) && (#[trigger] lookup(state.window_ids, wsid) matches Some(window)
                && window.pid == pid);
        let i = choose|i: int| 0 <= i < state.visible.len() && state.visible[i] == wsid;
        assert(lookup(state.window_ids, state.visible[i]) is Some);
    }
}

/// A display is told of by the identifier of the first screen that shows the
/// space, unless that is empty.
pub proof fn law_displays_are_told_by_identifier(state: ReactorView, space: SpaceId)
    ensures
        match state.screen_showing(space) {
            Some(k) => if state.screens[k].display_uuid@.len() > 0 {
                state.display_uuid(space) == Some(state.screens[k].display_uuid@)
            } else {
                state.display_uuid(space) is None
            },
            None => state.display_uuid(space) is None,
        },
{
}

/// A new title is news where it differs from the old one and the window is on a
/// space with an active workspace. The news names the window, both titles in
/// their order, the space, and of that space the active workspace, its place,
/// its name and the display.
pub proof fn law_new_titles_are_news(
    state: ReactorView,
    window: WindowId,
    previous: Seq<char>,
    new: Seq<char>,
    env: Surroundings,
)
    ensures
        state.title_news(window, previous, new, env) is Some <==> previous != new && (state.tracked_space(
            window,
            env,
        ) matches Some(space) && lookup(env.active_workspaces@, space) is Some),
        state.title_news(window, previous, new, env) matches Some(news) ==> (
        news matches BroadcastEventView::WindowTitleChanged {
            window_id,
            workspace_id,
            workspace_index,
            workspace_name,
            previous_title,
            new_title,
            space_id,
            display_uuid,
        } && {
            &&& window_id == window
            &&& state.tracked_space(window, env) == Some(space_id)
            &&& lookup(env.active_workspaces@, space_id) == Some(workspace_id)
            &&& lookup(env.active_workspace_indices@, space_id) == workspace_index
            &&& workspace_name == state.workspace_name(space_id, workspace_id, env)
            &&& previous_title == previous
            &&& new_title == new
            &&& display_uuid == state.display_uuid(space_id)
        }),
{
}

/// A workspace goes by its own name, and by its identifier only where it has
/// none.
pub proof fn law_workspaces_go_by_their_name(
    state: ReactorView,
    space: SpaceId,
    workspace: VirtualWorkspaceId,
    env: Surroundings,
    title: WorkspaceTitle,
)
    requires
        lookup(env.workspace_titles@, SpaceWorkspace { space, workspace }) == Some(title),
    ensures
        title.name matches Some(name) ==> state.workspace_name(space, workspace, env) == name@,
        title.name is None ==> state.workspace_name(space, workspace, env) == "Workspace "@ + title.debug@,
{
}

/// A window is taken over as it is described, each attribute for what it is, and
/// is not managed before it has been found to be.
pub proof fn law_windows_are_taken_over_as_described(info: WindowInfo)
    ensures
        ({
            let window = <WindowState as vstd::std_specs::convert::FromSpec<WindowInfo>>::from_spec(info);
            &&& window.title == info.title
            &&& window.frame_monotonic == info.frame
            &&& window.is_ax_standard == info.is_standard
            &&& window.is_ax_root == info.is_root
            &&& window.is_minimized == info.is_minimized
            &&& window.window_server_id == info.sys_id
            &&& window.bundle_id == info.bundle_id
            &&& window.bundle_path == info.path
            &&& window.ax_role == info.ax_role
            &&& window.ax_subrole == info.ax_subrole
            &&& !window.is_manageable
        }),
{
}

} // verus!
