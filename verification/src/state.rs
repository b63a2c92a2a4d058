//! What the reactor remembers.
use crate::geometry::Frame;
use crate::ids::{pid_t, ScreenId, SpaceId, VirtualWorkspaceId, WindowId, WindowServerId};
use crate::table::{IdSet, Table};
use vstd::prelude::*;

verus! {

/// The settings that the reactor's decisions depend on.
#[derive(Debug)]
pub struct Settings {
    /// The cursor is moved to a window that gets the focus.
    pub mouse_follows_focus: bool,
    /// Bundle identifiers of the applications whose activation switches no workspace.
    pub auto_focus_blacklist: Vec<String>,
}

#[derive(Debug)]
pub struct VirtualWorkspaceSettings {
    pub reapply_app_rules_on_title_change: bool,
}

#[derive(Debug)]
pub struct Config {
    pub settings: Settings,
    pub virtual_workspaces: VirtualWorkspaceSettings,
}

/// An application, as it introduces itself.
#[derive(Debug, PartialEq, Eq)]
pub struct AppInfo {
    pub bundle_id: Option<String>,
    pub localized_name: Option<String>,
}

impl Clone for AppInfo {
    fn clone(&self) -> (r: AppInfo)
        ensures
            r == *self,
    {
        AppInfo { bundle_id: self.bundle_id.clone(), localized_name: self.localized_name.clone() }
    }
}

/// A window, as the accessibility interface describes it.
#[derive(Debug, PartialEq, Eq)]
pub struct WindowInfo {
    pub is_standard: bool,
    pub is_root: bool,
    pub is_minimized: bool,
    pub title: String,
    pub frame: Frame,
    pub sys_id: Option<WindowServerId>,
    pub bundle_id: Option<String>,
    pub path: Option<String>,
    pub ax_role: Option<String>,
    pub ax_subrole: Option<String>,
}

/// A window, as the window server describes it.
#[derive(Clone, Copy, Debug, PartialEq, Eq, Structural, Hash)]
pub struct WindowServerInfo {
    pub id: WindowServerId,
    pub pid: pid_t,
    pub layer: i32,
    pub frame: Frame,
}

/// A display, as an event reports it.
#[derive(Debug, PartialEq, Eq)]
pub struct ScreenSnapshot {
    pub frame: Frame,
    pub space: Option<SpaceId>,
    pub display_uuid: String,
    pub name: Option<String>,
    pub screen_id: u32,
}

/// Who asked for a frame change: true where it was this program.
#[derive(Clone, Copy, Debug, PartialEq, Eq, Structural, Hash)]
pub struct Requested(pub bool);

/// A window that is being dragged.
#[derive(Debug, PartialEq, Eq)]
pub struct DragSession {
    pub window: WindowId,
    pub last_frame: Frame,
    /// The space that the window was on when the drag began.
    pub origin_space: Option<SpaceId>,
    /// The space that the window has been dragged to.
    pub settled_space: Option<SpaceId>,
    pub layout_dirty: bool,
}

#[derive(Debug, PartialEq, Eq)]
pub enum DragState {
    Inactive,
    Active { session: DragSession },
    PendingSwap { session: DragSession, target: WindowId },
}

#[derive(Clone, Copy, Debug, PartialEq, Eq, Structural)]
pub enum MissionControlState {
    Inactive,
    Active,
    Transitioning,
}

#[derive(Clone, Copy, Debug, PartialEq, Eq, Structural)]
pub enum MenuState {
    Closed,
    Open(usize),
}

#[derive(Clone, Copy, Debug, PartialEq, Eq, Structural)]
pub enum WorkspaceSwitchState {
    Inactive,
    Active,
}

#[derive(Clone, Copy, Debug, PartialEq, Eq, Structural)]
pub enum WorkspaceSwitchOrigin {
    Manual,
    Auto,
}

#[derive(Clone, Copy, Debug, PartialEq, Eq, Structural)]
pub enum StaleCleanupState {
    Enabled,
    Suppressed,
}

#[derive(Clone, Copy, Debug, PartialEq, Eq, Structural)]
pub enum RefocusState {
    Idle,
    Pending(SpaceId),
}

/// The applications of a space that went fullscreen.
#[derive(Debug)]
pub struct FullscreenTrack {
    pub pids: IdSet<pid_t>,
    pub last_removed: Vec<WindowServerId>,
}

#[derive(Debug)]
pub struct AppState {
    pub info: AppInfo,
}

/// A space change that has to wait for its screens.
#[derive(Debug)]
pub struct PendingSpaceChange {
    pub spaces: Vec<Option<SpaceId>>,
    pub ws_info: Vec<WindowServerInfo>,
}

#[derive(Debug, PartialEq, Eq)]
pub struct Screen {
    pub frame: Frame,
    pub space: Option<SpaceId>,
    pub display_uuid: String,
    pub name: Option<String>,
    pub screen_id: ScreenId,
}

/// A switch that the activation of an application caused.
#[derive(Clone, Copy, Debug, PartialEq, Eq, Structural)]
pub struct AutoWorkspaceSwitch {
    /// Nanoseconds on a clock that does not run backwards.
    pub occurred_at: u64,
    pub space: SpaceId,
    pub from_workspace: Option<VirtualWorkspaceId>,
    pub to_workspace: VirtualWorkspaceId,
}

#[derive(Debug, PartialEq, Eq)]
pub struct WindowState {
    pub title: String,
    /// The last known frame of the window. Always includes the last write.
    ///
    /// This value only updates monotonically with respect to writes; in other
    /// words, we only accept reads when we know they come after the last write.
    pub frame_monotonic: Frame,
    pub is_ax_standard: bool,
    pub is_ax_root: bool,
    pub is_minimized: bool,
    pub is_manageable: bool,
    pub window_server_id: Option<WindowServerId>,
    pub bundle_id: Option<String>,
    pub bundle_path: Option<String>,
    pub ax_role: Option<String>,
    pub ax_subrole: Option<String>,
}

impl WindowState {
    /// The window once the window server has reported `info`: it is managed as
    /// found, and a window of the ordinary layer is where the report has it.
    pub open spec fn reported(self, info: WindowServerInfo, manageable: bool) -> WindowState {
        WindowState {
            frame_monotonic: if info.layer == 0 {
                info.frame
            } else {
                self.frame_monotonic
            },
            is_manageable: manageable,
            ..self
        }
    }
}

impl vstd::std_specs::convert::FromSpecImpl<WindowInfo> for WindowState {
    open spec fn obeys_from_spec() -> bool {
        true
    }

    /// A window is taken over as it is described, and is not manageable until
    /// it has been found to be.
    open spec fn from_spec(info: WindowInfo) -> WindowState {
        WindowState {
            title: info.title,
            frame_monotonic: info.frame,
            is_ax_standard: info.is_standard,
            is_ax_root: info.is_root,
            is_minimized: info.is_minimized,
            is_manageable: false,
            window_server_id: info.sys_id,
            bundle_id: info.bundle_id,
            bundle_path: info.path,
            ax_role: info.ax_role,
            ax_subrole: info.ax_subrole,
        }
    }
}

impl From<WindowInfo> for WindowState {
    fn from(info: WindowInfo) -> (r: WindowState) {
        WindowState {
            title: info.title,
            frame_monotonic: info.frame,
            is_ax_standard: info.is_standard,
            is_ax_root: info.is_root,
            is_minimized: info.is_minimized,
            is_manageable: false,
            window_server_id: info.sys_id,
            bundle_id: info.bundle_id,
            bundle_path: info.path,
            ax_role: info.ax_role,
            ax_subrole: info.ax_subrole,
        }
    }
}

#[derive(Debug)]
pub struct ConfigManager {
    pub config: Config,
}

#[derive(Debug)]
pub struct AppManager {
    pub apps: Table<pid_t, AppState>,
}

#[derive(Debug)]
pub struct WindowManager {
    pub windows: Table<WindowId, WindowState>,
    pub window_ids: Table<WindowServerId, WindowId>,
    pub visible_windows: IdSet<WindowServerId>,
    pub observed_window_server_ids: IdSet<WindowServerId>,
}

#[derive(Debug)]
pub struct WindowServerInfoManager {
    pub window_server_info: Table<WindowServerId, WindowServerInfo>,
}

#[derive(Debug)]
pub struct SpaceManager {
    pub screens: Vec<Screen>,
    pub fullscreen_by_space: Table<SpaceId, FullscreenTrack>,
    pub changing_screens: IdSet<WindowServerId>,
    pub screen_space_by_id: Table<ScreenId, SpaceId>,
}

#[derive(Debug)]
pub struct MainWindowTrackerManager {
    /// The main window of the active application, as the tracker last had it.
    pub main_window: Option<WindowId>,
}

#[derive(Debug)]
pub struct DragManager {
    pub drag_state: DragState,
    pub skip_layout_for_window: Option<WindowId>,
}

#[derive(Clone, Copy, Debug, PartialEq, Eq, Structural)]
pub struct WorkspaceSwitchManager {
    pub workspace_switch_state: WorkspaceSwitchState,
    pub workspace_switch_generation: u64,
    pub active_workspace_switch: Option<u64>,
    pub last_auto_workspace_switch: Option<AutoWorkspaceSwitch>,
    pub pending_workspace_switch_origin: Option<WorkspaceSwitchOrigin>,
    pub pending_workspace_mouse_warp: Option<WindowId>,
}

#[derive(Debug)]
pub struct CommunicationManager {
    /// There is an event tap to send to.
    pub has_event_tap: bool,
}

#[derive(Debug)]
pub struct NotificationManager {
    pub last_sls_notification_ids: Vec<u32>,
}

#[derive(Debug)]
pub struct MenuManager {
    pub menu_state: MenuState,
}

#[derive(Debug)]
pub struct MissionControlManager {
    pub mission_control_state: MissionControlState,
    pub pending_mission_control_refresh: IdSet<pid_t>,
}

#[derive(Debug)]
pub struct RefocusManager {
    pub stale_cleanup_state: StaleCleanupState,
    pub refocus_state: RefocusState,
}

#[derive(Debug)]
pub struct PendingSpaceChangeManager {
    pub pending_space_change: Option<PendingSpaceChange>,
}

impl WorkspaceSwitchManager {
    /// No workspace switch has ever been started.
    pub open spec fn initial() -> WorkspaceSwitchManager {
        WorkspaceSwitchManager {
            workspace_switch_state: WorkspaceSwitchState::Inactive,
            workspace_switch_generation: 0,
            active_workspace_switch: None,
            last_auto_workspace_switch: None,
            pending_workspace_switch_origin: None,
            pending_workspace_mouse_warp: None,
        }
    }

    pub open spec fn marked_inactive(self) -> WorkspaceSwitchManager {
        WorkspaceSwitchManager {
            workspace_switch_state: WorkspaceSwitchState::Inactive,
            pending_workspace_switch_origin: None,
            ..self
        }
    }

    pub open spec fn started(self, origin: WorkspaceSwitchOrigin) -> WorkspaceSwitchManager {
        let generation = self.workspace_switch_generation.wrapping_add(1);
        WorkspaceSwitchManager {
            workspace_switch_state: WorkspaceSwitchState::Active,
            workspace_switch_generation: generation,
            active_workspace_switch: Some(generation),
            pending_workspace_switch_origin: Some(origin),
            ..self
        }
    }

    pub open spec fn is_manual(self) -> bool {
        &&& self.workspace_switch_state == WorkspaceSwitchState::Active
        &&& self.pending_workspace_switch_origin == Some(WorkspaceSwitchOrigin::Manual)
    }

    /// No switch is under way any more. It is an assumption that who asked for
    /// it is forgotten then, and that its number and its cursor move are not.
    pub fn mark_workspace_switch_inactive(&mut self)
        ensures
            *final(self) == old(self).marked_inactive(),
    {
        self.workspace_switch_state = WorkspaceSwitchState::Inactive;
        self.pending_workspace_switch_origin = None;
    }

    /// A switch is under way. It is an assumption that switches are numbered
    /// from 1 on, that the number wraps, and that the new one is the active one.
    pub fn start_workspace_switch(&mut self, origin: WorkspaceSwitchOrigin)
        ensures
            *final(self) == old(self).started(origin),
    {
        self.workspace_switch_generation = self.workspace_switch_generation.wrapping_add(1);
        self.active_workspace_switch = Some(self.workspace_switch_generation);
        self.workspace_switch_state = WorkspaceSwitchState::Active;
        self.pending_workspace_switch_origin = Some(origin);
    }

    /// A switch that the user asked for is under way. It is an assumption that
    /// one that has been marked inactive does not count.
    pub fn manual_switch_in_progress(&self) -> (r: bool)
        ensures
            r == self.is_manual(),
    {
        self.workspace_switch_state == WorkspaceSwitchState::Active
            && self.pending_workspace_switch_origin == Some(WorkspaceSwitchOrigin::Manual)
    }
}

} // verus!
