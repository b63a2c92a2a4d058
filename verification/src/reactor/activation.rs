//! Workspace switches that the activation of an application causes.
use crate::geometry::Frame;
use crate::ids::{pid_t, SpaceId, VirtualWorkspaceId, WindowId};
use crate::reactor::{Reactor, ReactorView};
use crate::requests::{group_tasks, tasks_view, Task, TaskView};
use crate::search::{first, lemma_first_is, lemma_first_none};
use crate::state::{AutoWorkspaceSwitch, WorkspaceSwitchManager, WorkspaceSwitchOrigin};
use crate::surroundings::Surroundings;
use crate::table::lookup;
use vstd::prelude::*;

verus! {

broadcast use group_tasks;

/// For so long an automatic switch is not undone by the next one: 300 milliseconds.
pub const AUTO_SWITCH_BOUNCE_NANOS: u64 = 300_000_000;

/// A switch between two workspaces of a space.
#[derive(Clone, Copy, Debug, PartialEq, Eq, Structural)]
pub struct ActivationSwitch {
    pub space: SpaceId,
    pub from: VirtualWorkspaceId,
    pub to: VirtualWorkspaceId,
}

/// `text` is one of `list`.
pub open spec fn is_listed(list: Seq<String>, text: Seq<char>) -> bool {
    exists|i: int| 0 <= i < list.len() && (#[trigger] list[i])@ == text
}

impl ReactorView {
    /// A tracked window that is managed.
    pub open spec fn is_standard(self, window: WindowId) -> bool {
        lookup(self.windows, window) matches Some(state) && state.is_manageable
    }

    /// `window` belongs to the workspace that is active on a space that a
    /// screen itself says that it shows.
    pub open spec fn is_on_visible_workspace(self, window: WindowId, env: Surroundings) -> bool {
        match self.tracked_space(window, env) {
            Some(space) => {
                &&& self.on_display(space)
                &&& env.active_workspace(space) is Some
                &&& env.workspace_of(space, window) == env.active_workspace(space)
            },
            None => false,
        }
    }

    /// A window of `pid` is on a visible workspace.
    pub open spec fn app_is_visible(self, pid: pid_t, env: Surroundings) -> bool {
        exists|i: int|
            0 <= i < self.windows.len() && (#[trigger] self.windows[i]).0.pid == pid
                && self.is_on_visible_workspace(self.windows[i].0, env)
    }

    pub open spec fn is_standard_of(self, pid: pid_t) -> spec_fn(int) -> bool {
        |i: int| self.windows[i].0.pid == pid && self.is_standard(self.windows[i].0)
    }

    /// The window that an activation of `pid` is about: the main window, where
    /// it is a managed window of `pid`, or else the first managed window of `pid`.
    pub open spec fn app_window(self, pid: pid_t) -> Option<WindowId> {
        match self.main_window {
            Some(window) if window.pid == pid && self.is_standard(window) => Some(window),
            _ => match first(self.windows.len() as int, self.is_standard_of(pid)) {
                Some(i) => Some(self.windows[i].0),
                None => None,
            },
        }
    }

    /// Nothing speaks against a workspace switch for `pid`: no other switch is
    /// under way, the active space is not fullscreen, the activation does not
    /// come from a window that is not managed, and the application is not
    /// visible already.
    pub open spec fn may_switch_for(self, pid: pid_t, env: Surroundings) -> bool {
        &&& self.switch.active_workspace_switch is None
        &&& !self.switch.is_manual()
        &&& !(env.active_space matches Some(space) && env.fullscreen_spaces@.contains(space))
        &&& self.unmanageable_under_cursor(pid, env) is None
        &&& !self.app_is_visible(pid, env)
    }

    /// The application may cause a switch: its bundle is known and not on the
    /// list of exceptions.
    pub open spec fn may_auto_focus(self, bundle_id: Option<Seq<char>>) -> bool {
        bundle_id matches Some(bundle_id) && !is_listed(
            self.config.settings.auto_focus_blacklist@,
            bundle_id,
        )
    }

    /// A switch would undo the last automatic one, which is not long ago.
    pub open spec fn would_bounce(self, target: ActivationSwitch, now: u64) -> bool {
        match self.switch.last_auto_workspace_switch {
            Some(last) => {
                &&& last.space == target.space
                &&& last.to_workspace == target.from
                &&& last.from_workspace == Some(target.to)
                &&& now - last.occurred_at < AUTO_SWITCH_BOUNCE_NANOS
            },
            None => false,
        }
    }

    /// From the active workspace of a window's space to the window's workspace,
    /// where these differ.
    pub open spec fn switch_toward(self, window: WindowId, env: Surroundings) -> Option<ActivationSwitch> {
        match self.tracked_space(window, env) {
            Some(space) => match (env.workspace_of(space, window), env.active_workspace(space)) {
                (Some(to), Some(from)) if to != from => Some(ActivationSwitch { space, from, to }),
                _ => None,
            },
            None => None,
        }
    }

    /// The switch that the activation of `pid` asks for.
    pub open spec fn activation_switch(
        self,
        pid: pid_t,
        bundle_id: Option<Seq<char>>,
        now: u64,
        env: Surroundings,
    ) -> Option<ActivationSwitch> {
        if self.may_switch_for(pid, env) && self.may_auto_focus(bundle_id) {
            match self.app_window(pid) {
                Some(window) => match self.switch_toward(window, env) {
                    Some(target) if !self.would_bounce(target, now) => Some(target),
                    _ => None,
                },
                None => None,
            }
        } else {
            None
        }
    }

    /// The floating windows of the active workspace of `space` that are
    /// tracked, and where they are.
    pub open spec fn floating_positions(self, space: SpaceId, env: Surroundings) -> Seq<(WindowId, Frame)> {
        env.windows_in(space).filter(
            |w: WindowId| env.is_floating(w) && lookup(self.windows, w) is Some,
        ).map_values(|w: WindowId| (w, self.frame_of(w)))
    }

    pub open spec fn frame_of(self, window: WindowId) -> Frame {
        lookup(self.windows, window)->0.frame_monotonic
    }

    /// What has the layout engine remember the floating windows of `space`.
    pub open spec fn floating_tasks(self, space: SpaceId, env: Surroundings) -> Seq<TaskView> {
        let positions = self.floating_positions(space, env);
        if positions.len() > 0 {
            seq![TaskView::StoreFloatingPositions { space, positions }]
        } else {
            Seq::empty()
        }
    }

    /// The switching state after the automatic switch `target` was started.
    pub open spec fn auto_switched(self, target: ActivationSwitch, now: u64) -> WorkspaceSwitchManager {
        (WorkspaceSwitchManager {
            last_auto_workspace_switch: Some(
                AutoWorkspaceSwitch {
                    occurred_at: now,
                    space: target.space,
                    from_workspace: Some(target.from),
                    to_workspace: target.to,
                },
            ),
            ..self.switch
        }).started(WorkspaceSwitchOrigin::Auto)
    }
}

/// `workspace` stands at `i`.
pub open spec fn stands_at(workspaces: Seq<VirtualWorkspaceId>, workspace: VirtualWorkspaceId) -> spec_fn(int) -> bool {
    |i: int| workspaces[i] == workspace
}

/// The place of `workspace` in `workspaces`.
pub open spec fn workspace_index(workspaces: Seq<VirtualWorkspaceId>, workspace: VirtualWorkspaceId) -> Option<int> {
    first(workspaces.len() as int, stands_at(workspaces, workspace))
}

impl Reactor {
    /// The window is tracked and managed.
    pub fn window_is_standard(&self, id: WindowId) -> (r: bool)
        ensures
            r == self@.is_standard(id),
    {
        match self.window_manager.windows.get(id) {
            Some(window) => window.is_manageable,
            None => false,
        }
    }

    fn is_app_on_visible_workspace(&self, pid: pid_t, env: &Surroundings) -> (r: bool)
        ensures
            r == self@.app_is_visible(pid, *env),
    {
        let mut i: usize = 0;
        while i < self.window_manager.windows.entries.len()
            invariant
                0 <= i <= self@.windows.len(),
                forall|j: int|
                    0 <= j < i ==> (#[trigger] self@.windows[j]).0.pid != pid
                        || !self@.is_on_visible_workspace(self@.windows[j].0, *env),
            decreases self@.windows.len() - i,
        {
            let wid = self.window_manager.windows.entries[i].0;
            if wid.pid == pid {
                if let Some(space) = self.best_space_for_window_id(wid, env) {
                    if self.is_space_on_display(space) {
                        if let Some(active_workspace) = env.active_workspace_on(space) {
                            if env.workspace_for_window(space, wid) == Some(active_workspace) {
                                assert(self@.windows[i as int].0 == wid);
                                assert(self@.is_on_visible_workspace(wid, *env));
                                return true;
                            }
                        }
                    }
                }
            }
            i += 1;
        }
        false
    }

    fn is_auto_focus_blacklisted(&self, bundle_id: &String) -> (r: bool)
        ensures
            r == is_listed(self@.config.settings.auto_focus_blacklist@, bundle_id@),
    {
        let ghost list = self@.config.settings.auto_focus_blacklist@;
        let mut i: usize = 0;
        while i < self.config_manager.config.settings.auto_focus_blacklist.len()
            invariant
                list == self@.config.settings.auto_focus_blacklist@,
                0 <= i <= list.len(),
                forall|j: int| 0 <= j < i ==> (#[trigger] list[j])@ != bundle_id@,
            decreases list.len() - i,
        {
            if self.config_manager.config.settings.auto_focus_blacklist[i].eq(bundle_id) {
                assert(list[i as int]@ == bundle_id@);
                return true;
            }
            i += 1;
        }
        false
    }

    fn window_for_activation(&self, pid: pid_t) -> (r: Option<WindowId>)
        ensures
            r == self@.app_window(pid),
    {
        if let Some(wid) = self.main_window() {
            if wid.pid == pid && self.window_is_standard(wid) {
                return Some(wid);
            }
        }
        let ghost n = self@.windows.len() as int;
        let ghost p = self@.is_standard_of(pid);
        let mut i: usize = 0;
        while i < self.window_manager.windows.entries.len()
            invariant
                n == self@.windows.len(),
                p == self@.is_standard_of(pid),
                !(self@.main_window matches Some(window) && window.pid == pid && self@.is_standard(window)),
                0 <= i <= n,
                forall|j: int| 0 <= j < i ==> !(#[trigger] p(j)),
            decreases n - i,
        {
            let wid = self.window_manager.windows.entries[i].0;
            if wid.pid == pid && self.window_is_standard(wid) {
                proof {
                    assert(p(i as int));
                    lemma_first_is(n, p, i as int);
                }
                return Some(wid);
            }
            i += 1;
        }
        proof {
            lemma_first_none(n, p);
        }
        None
    }

    /// Decides whether the activation of `pid` asks for a workspace switch.
    /// `bundle_id` is the bundle of the running application and `now` a
    /// reading of the clock that runs forward, in nanoseconds.
    pub fn handle_app_activation_workspace_switch(
        &self,
        pid: pid_t,
        bundle_id: Option<&String>,
        now: u64,
        env: &Surroundings,
    ) -> (r: Option<ActivationSwitch>)
        ensures
            r == self@.activation_switch(
                pid,
                match bundle_id {
                    Some(bundle_id) => Some(bundle_id@),
                    None => None,
                },
                now,
                *env,
            ),
    {
        if self.workspace_switch_manager.active_workspace_switch.is_some() {
            return None;
        }
        if self.workspace_switch_manager.manual_switch_in_progress() {
            return None;
        }
        if let Some(active_space) = env.active_space {
            if env.fullscreen_spaces.contains(active_space) {
                return None;
            }
        }
        if self.activation_from_unmanageable_window(pid, env).is_some() {
            return None;
        }
        if self.is_app_on_visible_workspace(pid, env) {
            return None;
        }
        let bundle_id = match bundle_id {
            Some(bundle_id) => bundle_id,
            None => return None,
        };
        if self.is_auto_focus_blacklisted(bundle_id) {
            return None;
        }
        let app_window = match self.window_for_activation(pid) {
            Some(wid) => wid,
            None => return None,
        };
        let space = match self.best_space_for_window_id(app_window, env) {
            Some(space) => space,
            None => return None,
        };
        let to = match env.workspace_for_window(space, app_window) {
            Some(workspace) => workspace,
            None => return None,
        };
        let from = match env.active_workspace_on(space) {
            Some(workspace) => workspace,
            None => return None,
        };
        if to == from {
            return None;
        }
        if let Some(last) = self.workspace_switch_manager.last_auto_workspace_switch {
            if last.space == space && last.to_workspace == from && last.from_workspace == Some(to)
                && now.saturating_sub(last.occurred_at) < AUTO_SWITCH_BOUNCE_NANOS {
                return None;
            }
        }
        Some(ActivationSwitch { space, from, to })
    }

    /// What has the layout engine remember where the floating windows of the
    /// active workspace of `space` are.
    pub fn store_current_floating_positions(&self, space: SpaceId, env: &Surroundings) -> (r: Vec<Task>)
        ensures
            tasks_view(r@) == self@.floating_tasks(space, *env),
    {
        let mut tasks: Vec<Task> = Vec::new();
        let ghost f = |w: WindowId| env.is_floating(w) && lookup(self@.windows, w) is Some;
        let ghost g = |w: WindowId| (w, self@.frame_of(w));
        if let Some(windows) = env.active_windows.get(space) {
            let mut positions: Vec<(WindowId, Frame)> = Vec::new();
            let mut i: usize = 0;
            proof {
                assert(windows@.take(0).filter(f) =~= Seq::empty()) by {
                    reveal_with_fuel(Seq::filter, 1);
                }
                assert(positions@ =~= windows@.take(0).filter(f).map_values(g));
            }
            while i < windows.len()
                invariant
                    0 <= i <= windows@.len(),
                    f == (|w: WindowId| env.is_floating(w) && lookup(self@.windows, w) is Some),
                    g == (|w: WindowId| (w, self@.frame_of(w))),
                    positions@ == windows@.take(i as int).filter(f).map_values(g),
                decreases windows@.len() - i,
            {
                let ghost before = windows@.take(i as int).filter(f);
                proof {
                    assert(windows@.take(i + 1).drop_last() =~= windows@.take(i as int));
                    reveal_with_fuel(Seq::filter, 1);
                }
                let wid = windows[i];
                if env.is_window_floating(wid) {
                    if let Some(window) = self.window_manager.windows.get(wid) {
                        positions.push((wid, window.frame_monotonic));
                        proof {
                            assert(f(wid));
                            assert(positions@ =~= before.push(wid).map_values(g));
                        }
                    }
                }
                i += 1;
            }
            proof {
                assert(windows@.take(i as int) =~= windows@);
            }
            if positions.len() > 0 {
                tasks.push(Task::StoreFloatingPositions { space, positions });
            }
        } else {
            proof {
                reveal_with_fuel(Seq::filter, 1);
                assert(env.windows_in(space).filter(f) =~= Seq::empty());
            }
        }
        proof {
            assert(tasks_view(tasks@) =~= self@.floating_tasks(space, *env));
        }
        tasks
    }

    /// Starts the switch that an activation asks for, where the layout engine
    /// lists the workspace that it leads to.
    pub fn begin_auto_workspace_switch(
        &mut self,
        target: ActivationSwitch,
        workspaces: &Vec<VirtualWorkspaceId>,
        now: u64,
        env: &Surroundings,
    ) -> (r: Vec<Task>)
        ensures
            match workspace_index(workspaces@, target.to) {
                Some(index) => {
                    &&& tasks_view(r@) == old(self)@.floating_tasks(target.space, *env).push(
                        TaskView::SwitchToWorkspace { space: target.space, index: index as usize },
                    )
                    &&& final(self)@ == (ReactorView {
                        switch: old(self)@.auto_switched(target, now),
                        ..old(self)@
                    })
                    &&& 0 <= index < workspaces@.len()
                },
                None => r@.len() == 0 && final(self)@ == old(self)@,
            },
    {
        let ghost n = workspaces@.len() as int;
        let ghost p = stands_at(workspaces@, target.to);
        let mut i: usize = 0;
        while i < workspaces.len()
            invariant
                n == workspaces@.len(),
                p == stands_at(workspaces@, target.to),
                0 <= i <= n,
                forall|j: int| 0 <= j < i ==> !(#[trigger] p(j)),
                *self == *old(self),
            decreases n - i,
        {
            if workspaces[i] == target.to {
                proof {
                    assert(p(i as int));
                    lemma_first_is(n, p, i as int);
                }
                let mut tasks = self.store_current_floating_positions(target.space, env);
                self.workspace_switch_manager.last_auto_workspace_switch = Some(
                    AutoWorkspaceSwitch {
                        occurred_at: now,
                        space: target.space,
                        from_workspace: Some(target.from),
                        to_workspace: target.to,
                    },
                );
                self.workspace_switch_manager.start_workspace_switch(WorkspaceSwitchOrigin::Auto);
                tasks.push(Task::SwitchToWorkspace { space: target.space, index: i });
                return tasks;
            }
            i += 1;
        }
        proof {
            lemma_first_none(n, p);
        }
        Vec::new()
    }
}

} // verus!
