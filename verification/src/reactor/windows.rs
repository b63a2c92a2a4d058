//! The tracked windows and the applications that they belong to.
use crate::geometry::Frame;
use crate::ids::{pid_t, SpaceId, SpaceWorkspace, VirtualWorkspaceId, WindowId, WindowServerId};
use crate::reactor::{Reactor, ReactorView};
use crate::requests::{group_tasks, tasks_view, text_view, AppRequest, BroadcastEvent, BroadcastEventView};
use crate::requests::{LayoutUpdate, Task, TaskView};
use crate::state::{AppState, WindowServerInfo};
use crate::surroundings::Surroundings;
use crate::table::{lookup, put, with_item, without_item};
use vstd::prelude::*;

verus! {

broadcast use group_tasks;

/// What the rule that says which windows are managed is asked.
#[derive(Clone, Copy, Debug, PartialEq, Eq, Structural)]
pub struct ManageabilityQuery {
    pub window_server_id: Option<WindowServerId>,
    pub is_minimized: bool,
    pub is_ax_standard: bool,
    pub is_ax_root: bool,
}

/// A window, as a query answers.
#[derive(Debug, PartialEq, Eq)]
pub struct WindowData {
    pub id: WindowId,
    pub title: String,
    pub frame: Frame,
    pub is_floating: bool,
    pub is_focused: bool,
    /// The application's name, or else its bundle.
    pub bundle_id: Option<String>,
    pub window_server_id: Option<u32>,
}

pub open spec fn or_else(a: Option<String>, b: Option<String>) -> Option<String> {
    match a {
        Some(_) => a,
        None => b,
    }
}

/// The number of a window server id.
pub open spec fn wsid_number(wsid: Option<WindowServerId>) -> Option<u32> {
    match wsid {
        Some(wsid) => Some(wsid.0),
        None => None,
    }
}

impl ReactorView {
    /// What is asked about the window that `info` describes, where it is tracked.
    pub open spec fn query_for(self, info: WindowServerInfo) -> Option<ManageabilityQuery> {
        match self.state_behind(info.id) {
            Some(state) => Some(
                ManageabilityQuery {
                    window_server_id: state.window_server_id,
                    is_minimized: state.is_minimized,
                    is_ax_standard: state.is_ax_standard,
                    is_ax_root: state.is_ax_root,
                },
            ),
            None => None,
        }
    }

    /// The state once the window server has reported `info`: the window is
    /// visible and no longer waited for; if it is tracked, it is as reported.
    pub open spec fn with_server_info(self, info: WindowServerInfo, manageable: bool) -> ReactorView {
        ReactorView {
            visible: with_item(self.visible, info.id),
            observed: without_item(self.observed, info.id),
            server_info: put(self.server_info, info.id, info),
            windows: match lookup(self.window_ids, info.id) {
                Some(window) => match lookup(self.windows, window) {
                    Some(state) => put(self.windows, window, state.reported(info, manageable)),
                    None => self.windows,
                },
                None => self.windows,
            },
            ..self
        }
    }

    /// The state once the window server has reported all of `infos`.
    pub open spec fn with_server_infos(self, infos: Seq<WindowServerInfo>, verdicts: Seq<bool>) -> ReactorView
        decreases infos.len(),
    {
        if infos.len() == 0 {
            self
        } else {
            self.with_server_infos(infos.drop_last(), verdicts.drop_last()).with_server_info(
                infos.last(),
                verdicts.last(),
            )
        }
    }

    /// What asks every application for its windows.
    pub open spec fn list_windows_tasks(self) -> Seq<TaskView> {
        self.apps.map_values(
            |e: (pid_t, AppState)|
                TaskView::SendToApp(e.0, AppRequest::GetVisibleWindows { force_refresh: false }),
        )
    }

    /// What asks every application for all its windows.
    pub open spec fn refresh_tasks(self) -> Seq<TaskView> {
        self.apps.map_values(|e: (pid_t, AppState)| TaskView::RefreshApp(e.0))
    }

    /// How a query about `window` is answered: minimized windows and windows
    /// of applications that are not known are left out.
    pub open spec fn window_data(self, window: WindowId, env: Surroundings) -> Option<WindowData> {
        match (lookup(self.windows, window), lookup(self.apps, window.pid)) {
            (Some(state), Some(app)) if !state.is_minimized => Some(
                WindowData {
                    id: window,
                    title: state.title,
                    frame: state.frame_monotonic,
                    is_floating: env.is_floating(window),
                    is_focused: self.main_window == Some(window),
                    bundle_id: or_else(app.info.localized_name, app.info.bundle_id),
                    window_server_id: wsid_number(state.window_server_id),
                },
            ),
            _ => None,
        }
    }

    /// The process of a window: that of the tracked window, or else the one
    /// that the window server knows.
    pub open spec fn owner(self, wsid: WindowServerId, env: Surroundings) -> Option<pid_t> {
        match lookup(self.window_ids, wsid) {
            Some(window) => Some(window.pid),
            None => self.server_pid(wsid, env),
        }
    }

    /// A window of `pid` is changing screens.
    pub open spec fn is_changing_screens(self, pid: pid_t, env: Surroundings) -> bool {
        exists|i: int| 0 <= i < self.changing.len() && self.owner(#[trigger] self.changing[i], env) == Some(pid)
    }

    /// A tracked window of `pid` is visible.
    pub open spec fn has_visible(self, pid: pid_t) -> bool {
        exists|i: int|
            0 <= i < self.visible.len() && (lookup(self.window_ids, #[trigger] self.visible[i]) matches Some(window)
                && window.pid == pid)
    }

    /// The name of a workspace: its own, or one made of its identifier.
    pub open spec fn workspace_name(self, space: SpaceId, workspace: VirtualWorkspaceId, env: Surroundings) -> Seq<
        char,
    > {
        match lookup(env.workspace_titles@, SpaceWorkspace { space, workspace }) {
            Some(title) => match title.name {
                Some(name) => name@,
                None => "Workspace "@ + title.debug@,
            },
            None => "Workspace "@,
        }
    }

    /// The identifier of the display that shows `space`, where it has one.
    pub open spec fn display_uuid(self, space: SpaceId) -> Option<Seq<char>> {
        match self.screen_showing(space) {
            Some(i) => if self.screens[i].display_uuid@.len() == 0 {
                None
            } else {
                Some(self.screens[i].display_uuid@)
            },
            None => None,
        }
    }

    /// What subscribers are told about a new title: nothing where it is the
    /// old one, or the window is on no space with an active workspace.
    pub open spec fn title_news(
        self,
        window: WindowId,
        previous: Seq<char>,
        new: Seq<char>,
        env: Surroundings,
    ) -> Option<BroadcastEventView> {
        match self.tracked_space(window, env) {
            Some(space) => match env.active_workspace(space) {
                Some(workspace) if previous != new => Some(
                    BroadcastEventView::WindowTitleChanged {
                        window_id: window,
                        workspace_id: workspace,
                        workspace_index: lookup(env.active_workspace_indices@, space),
                        workspace_name: self.workspace_name(space, workspace, env),
                        previous_title: previous,
                        new_title: new,
                        space_id: space,
                        display_uuid: self.display_uuid(space),
                    },
                ),
                _ => None,
            },
            None => None,
        }
    }
}

impl Reactor {
    /// What has to be asked about the windows that `ws_info` describes; the
    /// question about the one at `i` is put when the reports up to `i` are known.
    pub fn manageability_queries(&self, ws_info: &Vec<WindowServerInfo>) -> (r: Vec<Option<ManageabilityQuery>>)
        ensures
            r@.len() == ws_info@.len(),
            forall|i: int| 0 <= i < r@.len() ==> #[trigger] r@[i] == self@.query_for(ws_info@[i]),
    {
        let mut queries: Vec<Option<ManageabilityQuery>> = Vec::new();
        let mut i: usize = 0;
        while i < ws_info.len()
            invariant
                0 <= i <= ws_info@.len(),
                queries@.len() == i,
                forall|j: int| 0 <= j < i ==> #[trigger] queries@[j] == self@.query_for(ws_info@[j]),
            decreases ws_info@.len() - i,
        {
            let query = match self.window_manager.window_ids.get(ws_info[i].id) {
                Some(wid) => match self.window_manager.windows.get(*wid) {
                    Some(window) => Some(
                        ManageabilityQuery {
                            window_server_id: window.window_server_id,
                            is_minimized: window.is_minimized,
                            is_ax_standard: window.is_ax_standard,
                            is_ax_root: window.is_ax_root,
                        },
                    ),
                    None => None,
                },
                None => None,
            };
            queries.push(query);
            i += 1;
        }
        queries
    }

    fn record_server_info(&mut self, info: WindowServerInfo, manageable: bool)
        ensures
            final(self)@ == old(self)@.with_server_info(info, manageable),
    {
        self.window_manager.visible_windows.insert(info.id);
        // If the id was being observed, there is a report of it now.
        self.window_manager.observed_window_server_ids.remove(info.id);
        self.window_server_info_manager.window_server_info.insert(info.id, info);
        let wid = match self.window_manager.window_ids.get(info.id) {
            Some(wid) => *wid,
            None => return,
        };
        if let Some(window) = self.window_manager.windows.get_mut(wid) {
            if info.layer == 0 {
                window.frame_monotonic = info.frame;
            }
            window.is_manageable = manageable;
        }
    }

    /// Takes over reports of the window server. `verdicts` holds, for each
    /// report, the answer to its manageability query.
    pub fn update_partial_window_server_info(&mut self, ws_info: &Vec<WindowServerInfo>, verdicts: &Vec<bool>)
        requires
            ws_info@.len() == verdicts@.len(),
        ensures
            final(self)@ == old(self)@.with_server_infos(ws_info@, verdicts@),
    {
        let mut i: usize = 0;
        proof {
            assert(ws_info@.take(0) =~= Seq::empty());
        }
        while i < ws_info.len()
            invariant
                0 <= i <= ws_info@.len(),
                ws_info@.len() == verdicts@.len(),
                self@ == old(self)@.with_server_infos(ws_info@.take(i as int), verdicts@.take(i as int)),
            decreases ws_info@.len() - i,
        {
            proof {
                assert(ws_info@.take(i + 1).drop_last() =~= ws_info@.take(i as int));
                assert(verdicts@.take(i + 1).drop_last() =~= verdicts@.take(i as int));
            }
            self.record_server_info(ws_info[i], verdicts[i]);
            i += 1;
        }
        proof {
            assert(ws_info@.take(i as int) =~= ws_info@);
            assert(verdicts@.take(i as int) =~= verdicts@);
        }
    }

    /// Takes over a complete list of the visible windows.
    pub fn update_complete_window_server_info(&mut self, ws_info: &Vec<WindowServerInfo>, verdicts: &Vec<bool>)
        requires
            ws_info@.len() == verdicts@.len(),
        ensures
            final(self)@ == (ReactorView { visible: Seq::empty(), ..old(self)@ }).with_server_infos(
                ws_info@,
                verdicts@,
            ),
    {
        self.window_manager.visible_windows.clear();
        self.update_partial_window_server_info(ws_info, verdicts);
    }

    /// What asks every application for its windows.
    pub fn check_for_new_windows(&self) -> (r: Vec<Task>)
        ensures
            tasks_view(r@) == self@.list_windows_tasks(),
    {
        let mut tasks: Vec<Task> = Vec::new();
        let mut i: usize = 0;
        while i < self.app_manager.apps.entries.len()
            invariant
                0 <= i <= self@.apps.len(),
                tasks@.len() == i,
                forall|j: int| 0 <= j < i ==> (#[trigger] tasks@[j])@ == self@.list_windows_tasks()[j],
            decreases self@.apps.len() - i,
        {
            tasks.push(
                Task::SendToApp(
                    self.app_manager.apps.entries[i].0,
                    AppRequest::GetVisibleWindows { force_refresh: false },
                ),
            );
            i += 1;
        }
        proof {
            assert(tasks_view(tasks@) =~= self@.list_windows_tasks());
        }
        tasks
    }

    /// What asks every application for all its windows.
    pub fn force_refresh_all_windows(&self) -> (r: Vec<Task>)
        ensures
            tasks_view(r@) == self@.refresh_tasks(),
    {
        let mut tasks: Vec<Task> = Vec::new();
        let mut i: usize = 0;
        while i < self.app_manager.apps.entries.len()
            invariant
                0 <= i <= self@.apps.len(),
                tasks@.len() == i,
                forall|j: int| 0 <= j < i ==> (#[trigger] tasks@[j])@ == self@.refresh_tasks()[j],
            decreases self@.apps.len() - i,
        {
            tasks.push(Task::RefreshApp(self.app_manager.apps.entries[i].0));
            i += 1;
        }
        proof {
            assert(tasks_view(tasks@) =~= self@.refresh_tasks());
        }
        tasks
    }

    /// Notes that `pid` was asked for all its windows; one that could not be
    /// asked is not waited for.
    pub fn refresh_requested(&mut self, pid: pid_t, was_sent: bool)
        ensures
            final(self)@ == (ReactorView {
                pending_refresh: if was_sent {
                    with_item(old(self)@.pending_refresh, pid)
                } else {
                    old(self)@.pending_refresh
                },
                ..old(self)@
            }),
    {
        if was_sent {
            self.mission_control_manager.pending_mission_control_refresh.insert(pid);
        }
    }

    /// Brings the picture up to date after Mission Control: takes over the
    /// visible windows, and says what else is to be done.
    pub fn refresh_windows_after_mission_control(
        &mut self,
        ws_info: &Vec<WindowServerInfo>,
        verdicts: &Vec<bool>,
    ) -> (r: Vec<Task>)
        requires
            ws_info@.len() == verdicts@.len(),
        ensures
            final(self)@ == (ReactorView {
                pending_refresh: Seq::empty(),
                ..old(self)@.with_server_infos(ws_info@, verdicts@)
            }),
            tasks_view(r@) == final(self)@.refresh_tasks() + final(self)@.list_windows_tasks() + seq![
                TaskView::UpdateLayout(LayoutUpdate { is_resize: false, is_workspace_switch: false }),
                TaskView::SendMenuUpdate,
            ],
    {
        self.update_partial_window_server_info(ws_info, verdicts);
        self.mission_control_manager.pending_mission_control_refresh.clear();
        let mut tasks = self.force_refresh_all_windows();
        let mut listing = self.check_for_new_windows();
        tasks.append(&mut listing);
        let ghost before = tasks_view(tasks@);
        tasks.push(Task::UpdateLayout(LayoutUpdate { is_resize: false, is_workspace_switch: false }));
        tasks.push(Task::SendMenuUpdate);
        proof {
            assert(tasks_view(tasks@) =~= before + seq![
                TaskView::UpdateLayout(LayoutUpdate { is_resize: false, is_workspace_switch: false }),
                TaskView::SendMenuUpdate,
            ]);
        }
        tasks
    }

    /// How a query about a window is answered.
    pub fn create_window_data(&self, window_id: WindowId, env: &Surroundings) -> (r: Option<WindowData>)
        ensures
            r == self@.window_data(window_id, *env),
    {
        let window_state = match self.window_manager.windows.get(window_id) {
            Some(state) => state,
            None => return None,
        };
        if window_state.is_minimized {
            return None;
        }
        let app = match self.app_manager.apps.get(window_id.pid) {
            Some(app) => app,
            None => return None,
        };
        let preferred_name = match &app.info.localized_name {
            Some(_) => app.info.localized_name.clone(),
            None => app.info.bundle_id.clone(),
        };
        Some(
            WindowData {
                id: window_id,
                title: window_state.title.clone(),
                frame: window_state.frame_monotonic,
                is_floating: env.is_window_floating(window_id),
                is_focused: self.main_window() == Some(window_id),
                bundle_id: preferred_name,
                window_server_id: match window_state.window_server_id {
                    Some(wsid) => Some(wsid.as_u32()),
                    None => None,
                },
            },
        )
    }

    /// What asks the application of a window to close it, where it is known.
    pub fn request_close_window(&self, wid: WindowId) -> (r: Option<Task>)
        ensures
            match r {
                Some(task) => lookup(self@.apps, wid.pid) is Some && task@ == TaskView::SendToApp(
                    wid.pid,
                    AppRequest::CloseWindow(wid),
                ),
                None => lookup(self@.apps, wid.pid) is None,
            },
    {
        if self.app_manager.apps.contains_key(wid.pid) {
            Some(Task::SendToApp(wid.pid, AppRequest::CloseWindow(wid)))
        } else {
            None
        }
    }

    /// A window of `pid` is changing screens.
    pub fn pid_has_changing_screens(&self, pid: pid_t, env: &Surroundings) -> (r: bool)
        ensures
            r == self@.is_changing_screens(pid, *env),
    {
        let mut i: usize = 0;
        while i < self.space_manager.changing_screens.items.len()
            invariant
                0 <= i <= self@.changing.len(),
                forall|j: int| 0 <= j < i ==> self@.owner(#[trigger] self@.changing[j], *env) != Some(pid),
            decreases self@.changing.len() - i,
        {
            let wsid = self.space_manager.changing_screens.items[i];
            let owner = if let Some(wid) = self.window_manager.window_ids.get(wsid) {
                Some(wid.pid)
            } else if let Some(info) = self.window_server_info_manager.window_server_info.get(wsid) {
                Some(info.pid)
            } else if let Some(info) = env.server_windows.get(wsid) {
                Some(info.pid)
            } else {
                None
            };
            assert(owner == self@.owner(self@.changing[i as int], *env));
            if owner == Some(pid) {
                return true;
            }
            i += 1;
        }
        false
    }

    /// A tracked window of `pid` is visible.
    pub fn has_visible_window_server_ids_for_pid(&self, pid: pid_t) -> (r: bool)
        ensures
            r == self@.has_visible(pid),
    {
        let mut i: usize = 0;
        while i < self.window_manager.visible_windows.items.len()
            invariant
                0 <= i <= self@.visible.len(),
                forall|j: int|
                    0 <= j < i ==> !(lookup(self@.window_ids, #[trigger] self@.visible[j]) matches Some(window)
                        && window.pid == pid),
            decreases self@.visible.len() - i,
        {
            let wsid = self.window_manager.visible_windows.items[i];
            assert(wsid == self@.visible[i as int]);
            if let Some(wid) = self.window_manager.window_ids.get(wsid) {
                if wid.pid == pid {
                    return true;
                }
            }
            i += 1;
        }
        false
    }

    /// The name of a workspace.
    pub fn workspace_name(&self, space: SpaceId, workspace: VirtualWorkspaceId, env: &Surroundings) -> (r: String)
        ensures
            r@ == self@.workspace_name(space, workspace, *env),
    {
        match env.workspace_titles.get(SpaceWorkspace { space, workspace }) {
            Some(title) => match &title.name {
                Some(name) => name.clone(),
                None => "Workspace ".to_owned().concat(title.debug.as_str()),
            },
            None => "Workspace ".to_owned(),
        }
    }

    /// The identifier of the display that shows `space`, where it has one.
    pub fn display_uuid_of_space(&self, space: SpaceId) -> (r: Option<String>)
        ensures
            text_view(r) == self@.display_uuid(space),
    {
        match self.screen_by_space(space) {
            Some(i) => {
                let uuid = &self.space_manager.screens[i].display_uuid;
                if uuid.as_str().is_empty() {
                    None
                } else {
                    Some(uuid.clone())
                }
            },
            None => None,
        }
    }

    /// What subscribers are told about a new title.
    pub fn broadcast_window_title_changed(
        &self,
        window_id: WindowId,
        previous_title: String,
        new_title: String,
        env: &Surroundings,
    ) -> (r: Option<BroadcastEvent>)
        ensures
            match r {
                Some(event) => Some(event@) == self@.title_news(window_id, previous_title@, new_title@, *env),
                None => self@.title_news(window_id, previous_title@, new_title@, *env) is None,
            },
    {
        if previous_title.eq(&new_title) {
            return None;
        }
        let space = match self.best_space_for_window_id(window_id, env) {
            Some(space) => space,
            None => return None,
        };
        let workspace_id = match env.active_workspace_on(space) {
            Some(workspace) => workspace,
            None => return None,
        };
        let workspace_index = match env.active_workspace_indices.get(space) {
            Some(index) => Some(*index),
            None => None,
        };
        let workspace_name = self.workspace_name(space, workspace_id, env);
        let display_uuid = self.display_uuid_of_space(space);
        Some(
            BroadcastEvent::WindowTitleChanged {
                window_id,
                workspace_id,
                workspace_index,
                workspace_name,
                previous_title,
                new_title,
                space_id: space,
                display_uuid,
            },
        )
    }
}

} // verus!
