//! Rules that put the windows of an application into workspaces.
use crate::ids::{pid_t, SpaceId, WindowId};
use crate::reactor::{Reactor, ReactorView};
use crate::requests::{group_tasks, tasks_view, LayoutEvent, LayoutEventView, RuleAssignment, Task, TaskView};
use crate::requests::TitledWindow;
use crate::state::AppInfo;
use crate::surroundings::Surroundings;
use crate::table::lookup;
use vstd::prelude::*;

verus! {

broadcast use group_tasks;

/// Each number is larger than those before it.
pub open spec fn ascending(s: Seq<SpaceId>) -> bool {
    forall|i: int, j: int| 0 <= i < j < s.len() ==> (#[trigger] s[i]).0 < (#[trigger] s[j]).0
}

impl ReactorView {
    /// One of `windows` belongs to `space`.
    pub open spec fn some_on(self, windows: Seq<WindowId>, space: SpaceId, env: Surroundings) -> bool {
        exists|i: int| 0 <= i < windows.len() && self.tracked_space(#[trigger] windows[i], env) == Some(space)
    }

    /// `s` lists the spaces that `windows` belong to, in ascending order.
    pub open spec fn lists_spaces(self, s: Seq<SpaceId>, windows: Seq<WindowId>, env: Surroundings) -> bool {
        &&& ascending(s)
        &&& forall|space: SpaceId| #[trigger] s.contains(space) <==> self.some_on(windows, space, env)
    }

    /// The spaces that `windows` belong to, in ascending order.
    pub open spec fn spaces_of(self, windows: Seq<WindowId>, env: Surroundings) -> Seq<SpaceId> {
        choose|s: Seq<SpaceId>| self.lists_spaces(s, windows, env)
    }

    /// Those of `windows` that belong to `space`.
    pub open spec fn members_of(self, windows: Seq<WindowId>, space: SpaceId, env: Surroundings) -> Seq<WindowId> {
        windows.filter(|w: WindowId| self.tracked_space(w, env) == Some(space))
    }

    pub open spec fn title_of(self, window: WindowId) -> Option<String> {
        match lookup(self.windows, window) {
            Some(state) => Some(state.title),
            None => None,
        }
    }

    pub open spec fn role_of(self, window: WindowId) -> Option<String> {
        match lookup(self.windows, window) {
            Some(state) => state.ax_role,
            None => None,
        }
    }

    pub open spec fn subrole_of(self, window: WindowId) -> Option<String> {
        match lookup(self.windows, window) {
            Some(state) => state.ax_subrole,
            None => None,
        }
    }

    pub open spec fn assignment(self, window: WindowId, space: SpaceId, app: AppInfo) -> RuleAssignment {
        RuleAssignment {
            window,
            space,
            bundle_id: app.bundle_id,
            app_name: app.localized_name,
            title: self.title_of(window),
            ax_role: self.role_of(window),
            ax_subrole: self.subrole_of(window),
        }
    }

    pub open spec fn titled(self, window: WindowId) -> TitledWindow {
        TitledWindow {
            window,
            title: self.title_of(window),
            ax_role: self.role_of(window),
            ax_subrole: self.subrole_of(window),
        }
    }

    /// What is done about the windows of one space: each is assigned by the
    /// rules, then the layout engine is told of all of them.
    pub open spec fn space_rule_tasks(
        self,
        pid: pid_t,
        members: Seq<WindowId>,
        space: SpaceId,
        app: AppInfo,
    ) -> Seq<TaskView> {
        members.map_values(|w: WindowId| TaskView::AssignWindowByRules(self.assignment(w, space, app))).push(
            TaskView::SendLayoutEvent(
                LayoutEventView::WindowsOnScreenUpdated(
                    space,
                    pid,
                    members.map_values(|w: WindowId| self.titled(w)),
                    Some(app),
                ),
            ),
        )
    }

    /// What is done about `windows`, space by space.
    pub open spec fn rule_tasks_on(
        self,
        spaces: Seq<SpaceId>,
        pid: pid_t,
        windows: Seq<WindowId>,
        app: AppInfo,
        env: Surroundings,
    ) -> Seq<TaskView>
        decreases spaces.len(),
    {
        if spaces.len() == 0 {
            Seq::empty()
        } else {
            self.rule_tasks_on(spaces.drop_last(), pid, windows, app, env) + self.space_rule_tasks(
                pid,
                self.members_of(windows, spaces.last(), env),
                spaces.last(),
                app,
            )
        }
    }

    /// What is done about `windows` of an application by its rules, in the
    /// order of the spaces. Windows on no space are left alone.
    pub open spec fn rule_tasks(
        self,
        pid: pid_t,
        windows: Seq<WindowId>,
        app: AppInfo,
        env: Surroundings,
    ) -> Seq<TaskView> {
        self.rule_tasks_on(self.spaces_of(windows, env), pid, windows, app, env)
    }

    /// What is done about a managed window whose title changed, where rules
    /// are applied again then and its application is known.
    pub open spec fn reapply_tasks(self, window: WindowId, env: Surroundings) -> Seq<TaskView> {
        match (lookup(self.windows, window), lookup(self.apps, window.pid)) {
            (Some(state), Some(app)) if state.is_manageable
                && self.config.virtual_workspaces.reapply_app_rules_on_title_change => {
                (match state.window_server_id {
                    Some(wsid) => seq![TaskView::MarkRecent(wsid)],
                    None => Seq::empty(),
                }) + self.rule_tasks(window.pid, seq![window], app.info, env)
            },
            _ => Seq::empty(),
        }
    }
}

/// Two ascending lists of the same spaces are the same list.
pub proof fn lemma_ascending_unique(a: Seq<SpaceId>, b: Seq<SpaceId>)
    requires
        ascending(a),
        ascending(b),
        forall|s: SpaceId| #[trigger] a.contains(s) <==> b.contains(s),
    ensures
        a == b,
    decreases a.len(),
{
    if a.len() == 0 {
        if b.len() > 0 {
            assert(b.contains(b[0]));
            assert(a.contains(b[0]));
        }
        assert(a =~= b);
    } else {
        assert(a.contains(a.last()));
        assert(b.contains(a.last()));
        assert(b.contains(b.last()));
        assert(a.contains(b.last()));
        let i = choose|i: int| 0 <= i < b.len() && b[i] == a.last();
        let j = choose|j: int| 0 <= j < a.len() && a[j] == b.last();
        assert(a.last() == b.last()) by {
            if i < b.len() - 1 && j < a.len() - 1 {
                assert(b[i].0 < b[b.len() - 1].0);
                assert(a[j].0 < a[a.len() - 1].0);
            }
        }
        let x = a.drop_last();
        let y = b.drop_last();
        assert forall|s: SpaceId| #[trigger] x.contains(s) <==> y.contains(s) by {
            if x.contains(s) {
                let k = choose|k: int| 0 <= k < x.len() && x[k] == s;
                assert(a[k] == s && a[k].0 < a[a.len() - 1].0);
                assert(a.contains(s));
                assert(b.contains(s));
                let m = choose|m: int| 0 <= m < b.len() && b[m] == s;
                assert(y[m] == s);
            }
            if y.contains(s) {
                let k = choose|k: int| 0 <= k < y.len() && y[k] == s;
                assert(b[k] == s && b[k].0 < b[b.len() - 1].0);
                assert(b.contains(s));
                assert(a.contains(s));
                let m = choose|m: int| 0 <= m < a.len() && a[m] == s;
                assert(x[m] == s);
            }
        }
        lemma_ascending_unique(x, y);
        assert(a =~= x.push(a.last()));
        assert(b =~= y.push(b.last()));
    }
}

/// Puts `space` into its place in an ascending list.
fn insert_ascending(spaces: &mut Vec<SpaceId>, space: SpaceId)
    requires
        ascending(old(spaces)@),
    ensures
        ascending(final(spaces)@),
        forall|s: SpaceId| #[trigger] final(spaces)@.contains(s) <==> old(spaces)@.contains(s) || s == space,
{
    let ghost before = spaces@;
    let mut i: usize = 0;
    while i < spaces.len() && spaces[i].0 < space.0
        invariant
            spaces@ == before,
            0 <= i <= before.len(),
            forall|j: int| 0 <= j < i ==> (#[trigger] before[j]).0 < space.0,
        decreases before.len() - i,
    {
        i += 1;
    }
    if i < spaces.len() && spaces[i].0 == space.0 {
        assert(before[i as int] == space);
        return;
    }
    spaces.insert(i, space);
    proof {
        assert(spaces@ =~= before.insert(i as int, space));
        assert forall|a: int, b: int| 0 <= a < b < spaces@.len() implies (#[trigger] spaces@[a]).0 < (
        #[trigger] spaces@[b]).0 by {
            if a < i && b > i {
                assert(before[a].0 < before[b - 1].0);
            } else if a < i && b == i {
                assert(before[a].0 < space.0);
            } else if a < i && b < i {
                assert(before[a].0 < before[b].0);
            } else if a == i {
                if b - 1 > i {
                    assert(before[i as int].0 < before[b - 1].0);
                }
            } else {
                assert(before[a - 1].0 < before[b - 1].0);
            }
        }
        assert forall|s: SpaceId| #[trigger] spaces@.contains(s) <==> before.contains(s) || s == space by {
            if spaces@.contains(s) {
                let k = choose|k: int| 0 <= k < spaces@.len() && spaces@[k] == s;
                if k < i {
                    assert(before[k] == s);
                } else if k > i {
                    assert(before[k - 1] == s);
                }
            }
            if before.contains(s) {
                let k = choose|k: int| 0 <= k < before.len() && before[k] == s;
                if k < i {
                    assert(spaces@[k] == s);
                } else {
                    assert(spaces@[k + 1] == s);
                }
            }
            if s == space {
                assert(spaces@[i as int] == s);
            }
        }
    }
}

impl Reactor {
    fn list_spaces(&self, window_ids: &Vec<WindowId>, env: &Surroundings) -> (r: Vec<SpaceId>)
        ensures
            r@ == self@.spaces_of(window_ids@, *env),
    {
        let mut spaces: Vec<SpaceId> = Vec::new();
        let mut i: usize = 0;
        while i < window_ids.len()
            invariant
                0 <= i <= window_ids@.len(),
                ascending(spaces@),
                forall|s: SpaceId| #[trigger] spaces@.contains(s) <==> exists|j: int|
                    0 <= j < i && self@.tracked_space(#[trigger] window_ids@[j], *env) == Some(s),
            decreases window_ids@.len() - i,
        {
            let ghost before = spaces@;
            if let Some(space) = self.best_space_for_window_id(window_ids[i], env) {
                insert_ascending(&mut spaces, space);
                proof {
                    assert(self@.tracked_space(window_ids@[i as int], *env) == Some(space));
                    assert forall|s: SpaceId| #[trigger] spaces@.contains(s) <==> exists|j: int|
                        0 <= j < i + 1 && self@.tracked_space(#[trigger] window_ids@[j], *env) == Some(s) by {
                        assert(spaces@.contains(s) <==> before.contains(s) || s == space);
                    }
                }
            }
            i += 1;
        }
        proof {
            assert forall|s: SpaceId| #[trigger] spaces@.contains(s) <==> self@.some_on(window_ids@, s, *env) by {}
            assert(self@.lists_spaces(spaces@, window_ids@, *env));
            let chosen = self@.spaces_of(window_ids@, *env);
            assert(self@.lists_spaces(chosen, window_ids@, *env));
            assert forall|s: SpaceId| #[trigger] spaces@.contains(s) <==> chosen.contains(s) by {}
            lemma_ascending_unique(spaces@, chosen);
        }
        spaces
    }

    fn windows_on_space(&self, window_ids: &Vec<WindowId>, space: SpaceId, env: &Surroundings) -> (r: Vec<WindowId>)
        ensures
            r@ == self@.members_of(window_ids@, space, *env),
    {
        let ghost f = |w: WindowId| self@.tracked_space(w, *env) == Some(space);
        let mut members: Vec<WindowId> = Vec::new();
        let mut i: usize = 0;
        proof {
            assert(window_ids@.take(0).filter(f) =~= Seq::empty()) by {
                reveal_with_fuel(Seq::filter, 1);
            }
        }
        while i < window_ids.len()
            invariant
                0 <= i <= window_ids@.len(),
                f == (|w: WindowId| self@.tracked_space(w, *env) == Some(space)),
                members@ == window_ids@.take(i as int).filter(f),
            decreases window_ids@.len() - i,
        {
            proof {
                assert(window_ids@.take(i + 1).drop_last() =~= window_ids@.take(i as int));
                reveal_with_fuel(Seq::filter, 1);
            }
            if self.best_space_for_window_id(window_ids[i], env) == Some(space) {
                members.push(window_ids[i]);
            }
            i += 1;
        }
        proof {
            assert(window_ids@.take(i as int) =~= window_ids@);
        }
        members
    }

    fn titled_window(&self, wid: WindowId) -> (r: TitledWindow)
        ensures
            r == self@.titled(wid),
    {
        match self.window_manager.windows.get(wid) {
            Some(window) => TitledWindow {
                window: wid,
                title: Some(window.title.clone()),
                ax_role: window.ax_role.clone(),
                ax_subrole: window.ax_subrole.clone(),
            },
            None => TitledWindow { window: wid, title: None, ax_role: None, ax_subrole: None },
        }
    }

    fn tasks_for_space(&self, pid: pid_t, members: &Vec<WindowId>, space: SpaceId, app_info: &AppInfo) -> (r: Vec<Task>)
        ensures
            tasks_view(r@) == self@.space_rule_tasks(pid, members@, space, *app_info),
    {
        let ghost assign = |w: WindowId| TaskView::AssignWindowByRules(self@.assignment(w, space, *app_info));
        let ghost title = |w: WindowId| self@.titled(w);
        let mut tasks: Vec<Task> = Vec::new();
        let mut titled: Vec<TitledWindow> = Vec::new();
        let mut i: usize = 0;
        while i < members.len()
            invariant
                0 <= i <= members@.len(),
                assign == (|w: WindowId| TaskView::AssignWindowByRules(self@.assignment(w, space, *app_info))),
                title == (|w: WindowId| self@.titled(w)),
                tasks_view(tasks@) =~= members@.take(i as int).map_values(assign),
                titled@ =~= members@.take(i as int).map_values(title),
            decreases members@.len() - i,
        {
            let wid = members[i];
            let described = self.titled_window(wid);
            tasks.push(
                Task::AssignWindowByRules(
                    RuleAssignment {
                        window: wid,
                        space,
                        bundle_id: app_info.bundle_id.clone(),
                        app_name: app_info.localized_name.clone(),
                        title: described.title.clone(),
                        ax_role: described.ax_role.clone(),
                        ax_subrole: described.ax_subrole.clone(),
                    },
                ),
            );
            titled.push(described);
            i += 1;
        }
        proof {
            assert(members@.take(i as int) =~= members@);
        }
        tasks.push(
            Task::SendLayoutEvent(
                LayoutEvent::WindowsOnScreenUpdated(space, pid, titled, Some(app_info.clone())),
            ),
        );
        tasks
    }

    /// What is done about windows of an application by its rules.
    pub fn process_windows_for_app_rules(
        &self,
        pid: pid_t,
        window_ids: &Vec<WindowId>,
        app_info: &AppInfo,
        env: &Surroundings,
    ) -> (r: Vec<Task>)
        ensures
            tasks_view(r@) == self@.rule_tasks(pid, window_ids@, *app_info, *env),
    {
        let spaces = self.list_spaces(window_ids, env);
        let mut tasks: Vec<Task> = Vec::new();
        let mut i: usize = 0;
        proof {
            assert(spaces@.take(0) =~= Seq::empty());
        }
        while i < spaces.len()
            invariant
                0 <= i <= spaces@.len(),
                tasks_view(tasks@) == self@.rule_tasks_on(
                    spaces@.take(i as int),
                    pid,
                    window_ids@,
                    *app_info,
                    *env,
                ),
            decreases spaces@.len() - i,
        {
            proof {
                assert(spaces@.take(i + 1).drop_last() =~= spaces@.take(i as int));
            }
            let members = self.windows_on_space(window_ids, spaces[i], env);
            let mut more = self.tasks_for_space(pid, &members, spaces[i], app_info);
            tasks.append(&mut more);
            i += 1;
        }
        proof {
            assert(spaces@.take(i as int) =~= spaces@);
        }
        tasks
    }

    /// What is done about a window whose title changed, where rules are
    /// applied again then.
    pub fn maybe_reapply_app_rules_for_window(&self, window_id: WindowId, env: &Surroundings) -> (r: Vec<Task>)
        ensures
            tasks_view(r@) == self@.reapply_tasks(window_id, *env),
    {
        let mut tasks: Vec<Task> = Vec::new();
        if !self.config_manager.config.virtual_workspaces.reapply_app_rules_on_title_change {
            return tasks;
        }
        let (is_manageable, wsid) = match self.window_manager.windows.get(window_id) {
            Some(window_state) => (window_state.is_manageable, window_state.window_server_id),
            None => return tasks,
        };
        if !is_manageable {
            return tasks;
        }
        let app_info = match self.app_manager.apps.get(window_id.pid) {
            Some(app_state) => &app_state.info,
            None => return tasks,
        };
        if let Some(window_server_id) = wsid {
            tasks.push(Task::MarkRecent(window_server_id));
        }
        let ghost marked = tasks_view(tasks@);
        let mut window_ids: Vec<WindowId> = Vec::new();
        window_ids.push(window_id);
        proof {
            assert(window_ids@ =~= seq![window_id]);
        }
        let mut more = self.process_windows_for_app_rules(window_id.pid, &window_ids, app_info, env);
        tasks.append(&mut more);
        proof {
            assert(marked =~= match wsid {
                Some(wsid) => seq![TaskView::MarkRecent(wsid)],
                None => Seq::empty(),
            });
        }
        tasks
    }
}

} // verus!
