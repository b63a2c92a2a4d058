//! What is done about an answer of the layout engine: which window gets the
//! focus, which are raised, and where the cursor goes.
use crate::geometry::Point;
use crate::ids::{pid_t, Key, SpaceId, WindowId, WindowServerId};
use crate::reactor::{Reactor, ReactorView};
use crate::requests::{groups_view, EventResponse, LayoutEvent, LayoutEventView, RaiseRequest, RaiseRequestView};
use crate::state::{DragState, RefocusState, WindowState, WorkspaceSwitchManager, WorkspaceSwitchState};
use crate::surroundings::Surroundings;
use crate::table::{lookup, with_item, IdSet};
use vstd::prelude::*;

verus! {

/// What windows are raised together by: their application and their space.
#[derive(Clone, Copy, Debug, PartialEq, Eq, Structural, Hash)]
pub struct RaiseGroup {
    pub pid: pid_t,
    pub space: Option<SpaceId>,
}

impl Key for RaiseGroup {
    fn same(&self, other: &Self) -> (r: bool) {
        *self == *other
    }
}

/// What follows from an answer of the layout engine.
#[derive(Debug, PartialEq, Eq)]
pub enum ResponseAction {
    Nothing,
    /// The event tap moves the cursor.
    Warp(Point),
    /// The raise manager raises windows.
    Raise(RaiseRequest),
}

/// An action with its windows as sequences.
pub enum ResponseActionView {
    Nothing,
    Warp(Point),
    Raise(RaiseRequestView),
}

impl View for ResponseAction {
    type V = ResponseActionView;

    open spec fn view(&self) -> ResponseActionView {
        match *self {
            ResponseAction::Nothing => ResponseActionView::Nothing,
            ResponseAction::Warp(point) => ResponseActionView::Warp(point),
            ResponseAction::Raise(request) => ResponseActionView::Raise(request@),
        }
    }
}

/// Where the focus goes when the layout engine leaves it open.
#[derive(Clone, Copy, Debug, PartialEq, Eq, Structural)]
pub enum Fallback {
    /// A tracked window, or none.
    Focus(Option<WindowId>),
    /// A window that is not tracked has been made the key window.
    KeyWindow,
    /// The cursor is moved to the middle of a screen.
    Warp(Point),
}

impl ReactorView {
    pub open spec fn in_drag(self) -> bool {
        !(self.drag is Inactive)
    }

    pub open spec fn is_switching(self) -> bool {
        self.switch.workspace_switch_state == WorkspaceSwitchState::Active
    }

    pub open spec fn pending_refocus(self) -> Option<SpaceId> {
        match self.refocus {
            RefocusState::Pending(space) => Some(space),
            RefocusState::Idle => None,
        }
    }

    pub open spec fn follows_focus(self) -> bool {
        self.config.settings.mouse_follows_focus
    }

    /// The tracked window under the cursor.
    pub open spec fn cursor_window(self, env: Surroundings) -> Option<WindowId> {
        match env.window_under_cursor {
            Some(wsid) => lookup(self.window_ids, wsid),
            None => None,
        }
    }

    /// The process of a window that the window server knows.
    pub open spec fn server_pid(self, wsid: WindowServerId, env: Surroundings) -> Option<pid_t> {
        match lookup(self.server_info, wsid) {
            Some(info) => Some(info.pid),
            None => match lookup(env.server_windows@, wsid) {
                Some(info) => Some(info.pid),
                None => None,
            },
        }
    }

    /// The window under the cursor and its process, where it is not tracked
    /// and its process is known.
    pub open spec fn untracked_under_cursor(self, env: Surroundings) -> Option<(pid_t, WindowServerId)> {
        match env.window_under_cursor {
            Some(wsid) => if lookup(self.window_ids, wsid) is Some {
                None
            } else {
                match self.server_pid(wsid, env) {
                    Some(pid) => Some((pid, wsid)),
                    None => None,
                }
            },
            None => None,
        }
    }

    /// The window under the cursor, where it is a tracked window of `pid` that
    /// is not managed.
    pub open spec fn unmanageable_under_cursor(self, pid: pid_t, env: Surroundings) -> Option<WindowServerId> {
        match self.cursor_window(env) {
            Some(window) => match lookup(self.windows, window) {
                Some(state) if window.pid == pid && !state.is_manageable => env.window_under_cursor,
                _ => None,
            },
            None => None,
        }
    }

    /// The window server does not speak against giving the focus to `state`'s
    /// window: it is not changing screens, and it is visible.
    pub open spec fn is_settled(self, state: WindowState) -> bool {
        match state.window_server_id {
            Some(wsid) => !self.changing.contains(wsid) && self.visible.contains(wsid),
            None => true,
        }
    }

    /// The window that had the focus last in the active workspace of `space`,
    /// where it is still there to be focused.
    pub open spec fn last_focused(self, space: SpaceId, env: Surroundings) -> Option<WindowId> {
        match env.active_workspace(space) {
            Some(workspace) => match env.last_focused_in(space, workspace) {
                Some(window) => match lookup(self.windows, window) {
                    Some(state) => if self.tracked_space(window, env) == Some(space) && self.is_settled(state) {
                        Some(window)
                    } else {
                        None
                    },
                    None => None,
                },
                None => None,
            },
            None => None,
        }
    }

    /// To move the cursor to the middle of the screen of `space`, where the
    /// cursor follows the focus and can be moved.
    pub open spec fn warp_to(self, space: Option<SpaceId>) -> Fallback {
        match self.center_of_option(space) {
            Some(center) if self.follows_focus() && self.has_event_tap => Fallback::Warp(center),
            _ => Fallback::Focus(None),
        }
    }

    /// During a workspace switch: the window under the cursor gets the focus
    /// (unless it has it); a window that is not tracked is made key; else the
    /// cursor goes to the middle of the screen, unless the workspace is empty.
    pub open spec fn switch_fallback(
        self,
        switch_space: Option<SpaceId>,
        env: Surroundings,
        made_key: bool,
    ) -> Fallback {
        match self.cursor_window(env) {
            Some(window) => Fallback::Focus(
                if self.main_window == Some(window) {
                    None
                } else {
                    Some(window)
                },
            ),
            None => if made_key && self.untracked_under_cursor(env) is Some {
                Fallback::KeyWindow
            } else {
                match switch_space {
                    Some(space) => if env.windows_in(space).len() == 0 {
                        Fallback::Focus(None)
                    } else {
                        self.warp_to(Some(space))
                    },
                    None => self.warp_to(self.command_space(env)),
                }
            },
        }
    }

    /// When the focus is to be given back on `space`: the window that had it
    /// last gets it, or else the window under the cursor; or else a window
    /// that is not tracked is made key; or else the cursor goes to the middle
    /// of the screen.
    pub open spec fn refocus_fallback(self, space: SpaceId, env: Surroundings, made_key: bool) -> Fallback {
        match self.last_focused(space, env) {
            Some(window) => Fallback::Focus(Some(window)),
            None => match self.cursor_window(env) {
                Some(window) => Fallback::Focus(Some(window)),
                None => if made_key && self.untracked_under_cursor(env) is Some {
                    Fallback::KeyWindow
                } else {
                    self.warp_to(Some(space))
                },
            },
        }
    }

    /// Where the focus goes after an answer that raises `raise` and focuses `focus`.
    pub open spec fn focus_choice(
        self,
        raise: Seq<WindowId>,
        focus: Option<WindowId>,
        switch_space: Option<SpaceId>,
        env: Surroundings,
        made_key: bool,
    ) -> Fallback {
        if raise.len() > 0 || focus is Some {
            Fallback::Focus(focus)
        } else if self.is_switching() {
            self.switch_fallback(switch_space, env, made_key)
        } else {
            match self.pending_refocus() {
                Some(space) => self.refocus_fallback(space, env, made_key),
                None => Fallback::Focus(None),
            }
        }
    }

    /// The window that an untracked window's process must be asked to make
    /// key before the answer can be dealt with.
    pub open spec fn key_request(
        self,
        raise: Seq<WindowId>,
        focus: Option<WindowId>,
        env: Surroundings,
    ) -> Option<(pid_t, WindowServerId)> {
        if self.in_drag() || raise.len() > 0 || focus is Some || self.cursor_window(env) is Some {
            None
        } else if self.is_switching() {
            self.untracked_under_cursor(env)
        } else {
            match self.pending_refocus() {
                Some(space) if self.last_focused(space, env) is None => self.untracked_under_cursor(env),
                _ => None,
            }
        }
    }

    /// Of `focus`, what may be focused: a window that changes screens, that
    /// is not on a space that a screen shows, or (outside a workspace switch)
    /// that is not visible gets no focus.
    pub open spec fn focusable(self, focus: Option<WindowId>, env: Surroundings) -> Option<WindowId> {
        match focus {
            Some(window) => match lookup(self.windows, window) {
                Some(state) => match state.window_server_id {
                    Some(wsid) => {
                        let hidden = self.changing.contains(wsid) || (!self.is_switching()
                            && !self.visible.contains(wsid));
                        match self.tracked_space(window, env) {
                            Some(space) if !hidden && self.on_display(space) => focus,
                            _ => None,
                        }
                    },
                    None => focus,
                },
                None => focus,
            },
            None => None,
        }
    }

    /// The applications among those of `windows` that are known, each once.
    pub open spec fn known_apps(self, windows: Seq<WindowId>) -> Seq<pid_t>
        decreases windows.len(),
    {
        if windows.len() == 0 {
            Seq::empty()
        } else {
            let before = self.known_apps(windows.drop_last());
            let pid = windows.last().pid;
            if lookup(self.apps, pid) is Some {
                with_item(before, pid)
            } else {
                before
            }
        }
    }

    /// What a tracked window is raised together by.
    pub open spec fn raise_group(self, window: WindowId, env: Surroundings) -> Option<RaiseGroup> {
        if lookup(self.windows, window) is Some {
            Some(RaiseGroup { pid: window.pid, space: self.tracked_space(window, env) })
        } else {
            None
        }
    }

    /// The groups of the tracked windows among `windows`, each once, in the
    /// order in which they come up.
    pub open spec fn raise_groups(self, windows: Seq<WindowId>, env: Surroundings) -> Seq<RaiseGroup>
        decreases windows.len(),
    {
        if windows.len() == 0 {
            Seq::empty()
        } else {
            let before = self.raise_groups(windows.drop_last(), env);
            match self.raise_group(windows.last(), env) {
                Some(group) => with_item(before, group),
                None => before,
            }
        }
    }

    /// The windows of one group.
    pub open spec fn group_members(self, windows: Seq<WindowId>, group: RaiseGroup, env: Surroundings) -> Seq<
        WindowId,
    > {
        windows.filter(|w: WindowId| self.raise_group(w, env) == Some(group))
    }

    /// The windows by group.
    pub open spec fn grouped(self, windows: Seq<WindowId>, env: Surroundings) -> Seq<Seq<WindowId>> {
        self.raise_groups(windows, env).map_values(|g: RaiseGroup| self.group_members(windows, g, env))
    }

    /// Where the cursor goes with the focus: to the middle of the window,
    /// where the cursor follows the focus and that is on a screen. During a
    /// workspace switch it goes nowhere yet.
    pub open spec fn focus_warp(self, window: WindowId, env: Surroundings) -> Option<Point> {
        if self.follows_focus() && !self.is_switching() {
            match lookup(self.windows, window) {
                Some(state) if self.is_on_any_screen(state.frame_monotonic, env) => {
                    Some(state.frame_monotonic.center)
                },
                _ => None,
            }
        } else {
            None
        }
    }

    /// The request to raise `raise` and focus `kept`, where the answer named `focus`.
    pub open spec fn raise_request(
        self,
        raise: Seq<WindowId>,
        focus: Option<WindowId>,
        kept: Option<WindowId>,
        env: Surroundings,
    ) -> RaiseRequestView {
        RaiseRequestView {
            raise_windows: self.grouped(raise, env),
            focus_window: match kept {
                Some(window) => Some((window, self.focus_warp(window, env))),
                None => None,
            },
            apps: match focus {
                Some(window) => self.known_apps(raise.push(window)),
                None => self.known_apps(raise),
            },
        }
    }

    /// The state and the action after an answer of the layout engine that
    /// raises `raise` and focuses `focus`.
    pub open spec fn respond(
        self,
        raise: Seq<WindowId>,
        focus: Option<WindowId>,
        switch_space: Option<SpaceId>,
        env: Surroundings,
        made_key: bool,
    ) -> (ReactorView, ResponseActionView) {
        let calm = ReactorView { switch: self.switch.marked_inactive(), ..self };
        if self.in_drag() {
            (calm, ResponseActionView::Nothing)
        } else {
            match self.focus_choice(raise, focus, switch_space, env, made_key) {
                Fallback::KeyWindow => (
                    ReactorView { refocus: RefocusState::Idle, ..calm },
                    ResponseActionView::Nothing,
                ),
                Fallback::Warp(center) => (
                    ReactorView { refocus: RefocusState::Idle, ..calm },
                    ResponseActionView::Warp(center),
                ),
                Fallback::Focus(chosen) => {
                    let kept = self.focusable(chosen, env);
                    let consumed = raise.len() == 0 && focus is None && !self.is_switching();
                    let refocus = if consumed {
                        RefocusState::Idle
                    } else {
                        self.refocus
                    };
                    if raise.len() == 0 && kept is None && !self.is_switching() {
                        (ReactorView { refocus, ..self }, ResponseActionView::Nothing)
                    } else {
                        let switch = if kept is Some && self.follows_focus() && self.is_switching() {
                            WorkspaceSwitchManager { pending_workspace_mouse_warp: kept, ..self.switch }
                        } else {
                            self.switch
                        };
                        (
                            ReactorView { refocus, switch, ..self },
                            ResponseActionView::Raise(self.raise_request(raise, focus, kept, env)),
                        )
                    }
                },
            }
        }
    }

    /// A window that went to another workspace than the active one asks for
    /// the focus to be given back on its space.
    pub open spec fn hides(self, space: SpaceId, window: WindowId, env: Surroundings) -> bool {
        match (env.active_workspace(space), env.workspace_of(space, window)) {
            (Some(active), Some(workspace)) => workspace != active,
            _ => false,
        }
    }

    /// The refocus state once the layout engine has dealt with `event`.
    pub open spec fn refocus_after(self, event: LayoutEventView, env: Surroundings) -> RefocusState {
        match event {
            LayoutEventView::WindowAdded(space, window) => if self.hides(space, window, env) {
                RefocusState::Pending(space)
            } else {
                self.refocus
            },
            LayoutEventView::WindowsOnScreenUpdated(space, _, windows, _) => if exists|i: int|
                0 <= i < windows.len() && self.hides(space, (#[trigger] windows[i]).window, env) {
                RefocusState::Pending(space)
            } else {
                self.refocus
            },
            _ => self.refocus,
        }
    }
}

impl Reactor {
    pub fn is_in_drag(&self) -> (r: bool)
        ensures
            r == self@.in_drag(),
    {
        match &self.drag_manager.drag_state {
            DragState::Inactive => false,
            _ => true,
        }
    }

    /// The tracked window under the cursor.
    pub fn window_id_under_cursor(&self, env: &Surroundings) -> (r: Option<WindowId>)
        ensures
            r == self@.cursor_window(*env),
    {
        match env.window_under_cursor {
            Some(wsid) => match self.window_manager.window_ids.get(wsid) {
                Some(window) => Some(*window),
                None => None,
            },
            None => None,
        }
    }

    /// The window under the cursor that may be made the key window of its
    /// process: one that is not tracked.
    pub fn focus_untracked_window_under_cursor(&self, env: &Surroundings) -> (r: Option<(pid_t, WindowServerId)>)
        ensures
            r == self@.untracked_under_cursor(*env),
    {
        match env.window_under_cursor {
            Some(wsid) => {
                if self.window_manager.window_ids.contains_key(wsid) {
                    return None;
                }
                match self.window_server_info_manager.window_server_info.get(wsid) {
                    Some(info) => Some((info.pid, wsid)),
                    None => match env.server_windows.get(wsid) {
                        Some(info) => Some((info.pid, wsid)),
                        None => None,
                    },
                }
            },
            None => None,
        }
    }

    /// The window under the cursor, where it belongs to `pid` and is tracked
    /// but not managed.
    pub fn activation_from_unmanageable_window(&self, pid: pid_t, env: &Surroundings) -> (r: Option<WindowServerId>)
        ensures
            r == self@.unmanageable_under_cursor(pid, *env),
    {
        let wsid = match env.window_under_cursor {
            Some(wsid) => wsid,
            None => return None,
        };
        let wid = match self.window_manager.window_ids.get(wsid) {
            Some(wid) => *wid,
            None => return None,
        };
        if wid.pid != pid {
            return None;
        }
        match self.window_manager.windows.get(wid) {
            Some(window) => if window.is_manageable {
                None
            } else {
                Some(wsid)
            },
            None => None,
        }
    }

    /// The window that had the focus last in the active workspace of `space`,
    /// where it is still there to be focused.
    pub fn last_focused_window_in_space(&self, space: SpaceId, env: &Surroundings) -> (r: Option<WindowId>)
        ensures
            r == self@.last_focused(space, *env),
    {
        let active_workspace = match env.active_workspace_on(space) {
            Some(workspace) => workspace,
            None => return None,
        };
        let wid = match env.last_focused_window(space, active_workspace) {
            Some(wid) => wid,
            None => return None,
        };
        let window = match self.window_manager.windows.get(wid) {
            Some(window) => window,
            None => return None,
        };
        if self.best_space_for_window(&window.frame_monotonic, window.window_server_id, env) != Some(space) {
            return None;
        }
        if let Some(wsid) = window.window_server_id {
            if self.space_manager.changing_screens.contains(wsid) {
                return None;
            }
            if !self.window_manager.visible_windows.contains(wsid) {
                return None;
            }
        }
        Some(wid)
    }

    fn warp_fallback(&self, space: Option<SpaceId>) -> (r: Fallback)
        ensures
            r == self@.warp_to(space),
    {
        if self.config_manager.config.settings.mouse_follows_focus {
            if let Some(space) = space {
                if let Some(center) = self.center_of_space(space) {
                    if self.communication_manager.has_event_tap {
                        return Fallback::Warp(center);
                    }
                }
            }
        }
        Fallback::Focus(None)
    }

    fn choose_focus(
        &self,
        response: &EventResponse,
        workspace_switch_space: Option<SpaceId>,
        env: &Surroundings,
        made_key: bool,
    ) -> (r: Fallback)
        ensures
            r == self@.focus_choice(
                response.raise_windows@,
                response.focus_window,
                workspace_switch_space,
                *env,
                made_key,
            ),
    {
        if response.raise_windows.len() > 0 || response.focus_window.is_some() {
            return Fallback::Focus(response.focus_window);
        }
        if self.workspace_switch_manager.workspace_switch_state == WorkspaceSwitchState::Active {
            if let Some(wid) = self.window_id_under_cursor(env) {
                // Only focus it if it does not have the focus already.
                if self.main_window() != Some(wid) {
                    Fallback::Focus(Some(wid))
                } else {
                    Fallback::Focus(None)
                }
            } else if made_key && self.focus_untracked_window_under_cursor(env).is_some() {
                Fallback::KeyWindow
            } else {
                match workspace_switch_space {
                    Some(space) => {
                        let is_empty = match env.active_windows.get(space) {
                            Some(windows) => windows.len() == 0,
                            None => true,
                        };
                        if is_empty {
                            Fallback::Focus(None)
                        } else {
                            self.warp_fallback(Some(space))
                        }
                    },
                    None => self.warp_fallback(self.workspace_command_space(env)),
                }
            }
        } else if let RefocusState::Pending(space) = self.refocus_manager.refocus_state {
            if let Some(wid) = self.last_focused_window_in_space(space, env) {
                Fallback::Focus(Some(wid))
            } else if let Some(wid) = self.window_id_under_cursor(env) {
                Fallback::Focus(Some(wid))
            } else if made_key && self.focus_untracked_window_under_cursor(env).is_some() {
                Fallback::KeyWindow
            } else {
                self.warp_fallback(Some(space))
            }
        } else {
            Fallback::Focus(None)
        }
    }

    /// Which untracked window must be made key before `response` can be dealt
    /// with; whether that worked goes into `handle_layout_response`.
    pub fn key_window_request(&self, response: &EventResponse, env: &Surroundings) -> (r: Option<(pid_t, WindowServerId)>)
        ensures
            r == self@.key_request(response.raise_windows@, response.focus_window, *env),
    {
        if self.is_in_drag() || response.raise_windows.len() > 0 || response.focus_window.is_some()
            || self.window_id_under_cursor(env).is_some() {
            return None;
        }
        if self.workspace_switch_manager.workspace_switch_state == WorkspaceSwitchState::Active {
            return self.focus_untracked_window_under_cursor(env);
        }
        match self.refocus_manager.refocus_state {
            RefocusState::Pending(space) => if self.last_focused_window_in_space(space, env).is_none() {
                self.focus_untracked_window_under_cursor(env)
            } else {
                None
            },
            RefocusState::Idle => None,
        }
    }

    fn keep_focusable(&self, focus_window: Option<WindowId>, env: &Surroundings) -> (r: Option<WindowId>)
        ensures
            r == self@.focusable(focus_window, *env),
    {
        if let Some(wid) = focus_window {
            if let Some(state) = self.window_manager.windows.get(wid) {
                if let Some(wsid) = state.window_server_id {
                    let require_visible = self.workspace_switch_manager.workspace_switch_state
                        == WorkspaceSwitchState::Inactive;
                    if self.space_manager.changing_screens.contains(wsid) || (require_visible
                        && !self.window_manager.visible_windows.contains(wsid)) {
                        return None;
                    }
                    return match self.best_space_for_window(
                        &state.frame_monotonic,
                        state.window_server_id,
                        env,
                    ) {
                        Some(space) => if self.is_space_on_display(space) {
                            focus_window
                        } else {
                            None
                        },
                        None => None,
                    };
                }
            }
        }
        focus_window
    }

    /// The applications that are known among those of the windows to be
    /// raised and of the window that the answer focuses.
    fn apps_to_raise(&self, raise_windows: &Vec<WindowId>, focus: Option<WindowId>) -> (r: Vec<pid_t>)
        ensures
            r@ == match focus {
                Some(window) => self@.known_apps(raise_windows@.push(window)),
                None => self@.known_apps(raise_windows@),
            },
    {
        let mut apps: IdSet<pid_t> = IdSet::new();
        let mut i: usize = 0;
        proof {
            assert(raise_windows@.take(0) =~= Seq::empty());
        }
        while i < raise_windows.len()
            invariant
                0 <= i <= raise_windows@.len(),
                apps@ == self@.known_apps(raise_windows@.take(i as int)),
            decreases raise_windows@.len() - i,
        {
            proof {
                assert(raise_windows@.take(i + 1).drop_last() =~= raise_windows@.take(i as int));
            }
            let wid = raise_windows[i];
            if self.app_manager.apps.contains_key(wid.pid) {
                apps.insert(wid.pid);
            }
            i += 1;
        }
        proof {
            assert(raise_windows@.take(i as int) =~= raise_windows@);
        }
        if let Some(wid) = focus {
            proof {
                assert(raise_windows@.push(wid).drop_last() =~= raise_windows@);
            }
            if self.app_manager.apps.contains_key(wid.pid) {
                apps.insert(wid.pid);
            }
        }
        apps.items
    }

    fn raise_group_of(&self, wid: WindowId, env: &Surroundings) -> (r: Option<RaiseGroup>)
        ensures
            r == self@.raise_group(wid, *env),
    {
        match self.window_manager.windows.get(wid) {
            Some(window) => Some(
                RaiseGroup {
                    pid: wid.pid,
                    space: self.best_space_for_window(
                        &window.frame_monotonic,
                        window.window_server_id,
                        env,
                    ),
                },
            ),
            None => None,
        }
    }

    fn windows_of_group(&self, raise_windows: &Vec<WindowId>, group: RaiseGroup, env: &Surroundings) -> (r: Vec<WindowId>)
        ensures
            r@ == self@.group_members(raise_windows@, group, *env),
    {
        let ghost f = |w: WindowId| self@.raise_group(w, *env) == Some(group);
        let mut members: Vec<WindowId> = Vec::new();
        let mut i: usize = 0;
        proof {
            assert(raise_windows@.take(0).filter(f) =~= Seq::empty()) by {
                reveal_with_fuel(Seq::filter, 1);
            }
        }
        while i < raise_windows.len()
            invariant
                0 <= i <= raise_windows@.len(),
                f == (|w: WindowId| self@.raise_group(w, *env) == Some(group)),
                members@ == raise_windows@.take(i as int).filter(f),
            decreases raise_windows@.len() - i,
        {
            proof {
                assert(raise_windows@.take(i + 1).drop_last() =~= raise_windows@.take(i as int));
                reveal_with_fuel(Seq::filter, 1);
            }
            let wid = raise_windows[i];
            if self.raise_group_of(wid, env) == Some(group) {
                members.push(wid);
            }
            i += 1;
        }
        proof {
            assert(raise_windows@.take(i as int) =~= raise_windows@);
        }
        members
    }

    fn group_windows(&self, raise_windows: &Vec<WindowId>, env: &Surroundings) -> (r: Vec<Vec<WindowId>>)
        ensures
            groups_view(r@) == self@.grouped(raise_windows@, *env),
    {
        let mut keys: IdSet<RaiseGroup> = IdSet::new();
        let mut i: usize = 0;
        proof {
            assert(raise_windows@.take(0) =~= Seq::empty());
        }
        while i < raise_windows.len()
            invariant
                0 <= i <= raise_windows@.len(),
                keys@ == self@.raise_groups(raise_windows@.take(i as int), *env),
            decreases raise_windows@.len() - i,
        {
            proof {
                assert(raise_windows@.take(i + 1).drop_last() =~= raise_windows@.take(i as int));
            }
            if let Some(group) = self.raise_group_of(raise_windows[i], env) {
                keys.insert(group);
            }
            i += 1;
        }
        proof {
            assert(raise_windows@.take(i as int) =~= raise_windows@);
        }
        let mut groups: Vec<Vec<WindowId>> = Vec::new();
        let mut k: usize = 0;
        while k < keys.items.len()
            invariant
                0 <= k <= keys@.len(),
                groups@.len() == k,
                forall|j: int| 0 <= j < k ==> (#[trigger] groups@[j])@ == self@.group_members(
                    raise_windows@,
                    keys@[j],
                    *env,
                ),
            decreases keys@.len() - k,
        {
            let members = self.windows_of_group(raise_windows, keys.items[k], env);
            groups.push(members);
            k += 1;
        }
        proof {
            assert(groups_view(groups@) =~= self@.grouped(raise_windows@, *env));
        }
        groups
    }

    /// Deals with an answer of the layout engine. `made_key` says whether the
    /// window of `key_window_request` could be made the key window.
    pub fn handle_layout_response(
        &mut self,
        response: &EventResponse,
        workspace_switch_space: Option<SpaceId>,
        env: &Surroundings,
        made_key: bool,
    ) -> (r: ResponseAction)
        ensures
            (final(self)@, r@) == old(self)@.respond(
                response.raise_windows@,
                response.focus_window,
                workspace_switch_space,
                *env,
                made_key,
            ),
    {
        if self.is_in_drag() {
            self.workspace_switch_manager.mark_workspace_switch_inactive();
            return ResponseAction::Nothing;
        }
        let focus_window = match self.choose_focus(response, workspace_switch_space, env, made_key) {
            Fallback::KeyWindow => {
                self.refocus_manager.refocus_state = RefocusState::Idle;
                self.workspace_switch_manager.mark_workspace_switch_inactive();
                return ResponseAction::Nothing;
            },
            Fallback::Warp(center) => {
                self.refocus_manager.refocus_state = RefocusState::Idle;
                self.workspace_switch_manager.mark_workspace_switch_inactive();
                return ResponseAction::Warp(center);
            },
            Fallback::Focus(focus) => self.keep_focusable(focus, env),
        };
        let switching = self.workspace_switch_manager.workspace_switch_state == WorkspaceSwitchState::Active;
        let is_empty = response.raise_windows.len() == 0;
        let mut warp: Option<Point> = None;
        if let Some(wid) = focus_window {
            if self.config_manager.config.settings.mouse_follows_focus && !switching {
                if let Some(window) = self.window_manager.windows.get(wid) {
                    // Only warp if the window's center is actually on a screen.
                    if self.is_center_on_screen(&window.frame_monotonic, env) {
                        warp = Some(window.frame_monotonic.center);
                    }
                }
            }
        }
        let raise_windows = self.group_windows(&response.raise_windows, env);
        let apps = self.apps_to_raise(&response.raise_windows, response.focus_window);
        if is_empty && response.focus_window.is_none() && !switching {
            self.refocus_manager.refocus_state = RefocusState::Idle;
        }
        if is_empty && focus_window.is_none() && !switching {
            return ResponseAction::Nothing;
        }
        if focus_window.is_some() && self.config_manager.config.settings.mouse_follows_focus && switching {
            // During workspace switches the cursor moves once the layout is done.
            self.workspace_switch_manager.pending_workspace_mouse_warp = focus_window;
        }
        ResponseAction::Raise(
            RaiseRequest {
                raise_windows,
                focus_window: match focus_window {
                    Some(wid) => Some((wid, warp)),
                    None => None,
                },
                apps,
            },
        )
    }

    fn is_hidden_in(&self, space: SpaceId, window: WindowId, env: &Surroundings) -> (r: bool)
        ensures
            r == self@.hides(space, window, *env),
    {
        match env.active_workspace_on(space) {
            Some(active) => match env.workspace_for_window(space, window) {
                Some(workspace) => workspace != active,
                None => false,
            },
            None => false,
        }
    }

    /// Asks for the focus to be given back on `space` if `window_id` is in
    /// another workspace than the active one.
    pub fn request_refocus_if_hidden(&mut self, space: SpaceId, window_id: WindowId, env: &Surroundings)
        ensures
            final(self)@ == (ReactorView {
                refocus: if old(self)@.hides(space, window_id, *env) {
                    RefocusState::Pending(space)
                } else {
                    old(self)@.refocus
                },
                ..old(self)@
            }),
    {
        if self.is_hidden_in(space, window_id, env) {
            self.refocus_manager.refocus_state = RefocusState::Pending(space);
        }
    }

    /// Notes whether the focus has to be given back after a layout event.
    pub fn prepare_refocus_after_layout_event(&mut self, event: &LayoutEvent, env: &Surroundings)
        ensures
            final(self)@ == (ReactorView {
                refocus: old(self)@.refocus_after(event@, *env),
                ..old(self)@
            }),
    {
        match event {
            LayoutEvent::WindowAdded(space, wid) => {
                self.request_refocus_if_hidden(*space, *wid, env);
            },
            LayoutEvent::WindowsOnScreenUpdated(space, _, windows, _) => {
                let mut i: usize = 0;
                while i < windows.len()
                    invariant
                        0 <= i <= windows@.len(),
                        forall|j: int| 0 <= j < i ==> !self@.hides(*space, (#[trigger] windows@[j]).window, *env),
                        self@ == old(self)@,
                        event@ matches LayoutEventView::WindowsOnScreenUpdated(s, _, w, _) && s == *space && w == windows@,
                    decreases windows@.len() - i,
                {
                    if self.is_hidden_in(*space, windows[i].window, env) {
                        assert(self@.hides(*space, windows@[i as int].window, *env));
                        self.refocus_manager.refocus_state = RefocusState::Pending(*space);
                        return;
                    }
                    i += 1;
                }
            },
            _ => {},
        }
    }

    /// Takes note of a layout event that the layout engine answered with
    /// `response`, and says which untracked window must be made key before the
    /// answer goes to `handle_layout_response`.
    pub fn send_layout_event(
        &mut self,
        event: &LayoutEvent,
        response: &EventResponse,
        env: &Surroundings,
    ) -> (r: Option<(pid_t, WindowServerId)>)
        ensures
            final(self)@ == (ReactorView {
                refocus: old(self)@.refocus_after(event@, *env),
                ..old(self)@
            }),
            r == final(self)@.key_request(response.raise_windows@, response.focus_window, *env),
    {
        self.prepare_refocus_after_layout_event(event, env);
        self.key_window_request(response, env)
    }

    /// The request to raise one window and give it the focus.
    pub fn raise_window(&self, wid: WindowId, warp: Option<Point>) -> (r: RaiseRequest)
        ensures
            r@ == (RaiseRequestView {
                raise_windows: seq![seq![wid]],
                focus_window: Some((wid, warp)),
                apps: self@.known_apps(seq![wid]),
            }),
    {
        let mut window: Vec<WindowId> = Vec::new();
        window.push(wid);
        let apps = self.apps_to_raise(&window, None);
        proof {
            assert(window@ =~= seq![wid]);
        }
        let mut raise_windows: Vec<Vec<WindowId>> = Vec::new();
        raise_windows.push(window);
        proof {
            assert(groups_view(raise_windows@) =~= seq![seq![wid]]);
        }
        RaiseRequest { raise_windows, focus_window: Some((wid, warp)), apps }
    }
}

} // verus!
