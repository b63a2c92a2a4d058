//! The reactor's job is to maintain coherence between the system and model state.
//!
//! It takes events from the rest of the system and builds a coherent picture of
//! what is going on. It shares this with the layout engine, and reacts to layout
//! changes by asking the other parts of the system to do things.
use crate::ids::{pid_t, ScreenId, SpaceId, WindowId, WindowServerId};
use crate::state::{
    AppManager, AppState, CommunicationManager, Config, ConfigManager, DragManager, DragState,
    FullscreenTrack, MainWindowTrackerManager, MenuManager, MenuState, MissionControlManager,
    MissionControlState, NotificationManager, PendingSpaceChange, PendingSpaceChangeManager,
    RefocusManager, RefocusState, Screen, SpaceManager, StaleCleanupState, WindowManager,
    WindowServerInfo, WindowServerInfoManager, WindowState, WorkspaceSwitchManager,
    WorkspaceSwitchState,
};
use crate::table::{distinct_keys, IdSet, Table};
use vstd::prelude::*;

pub mod activation;
pub mod cycle;
pub mod drag;
pub mod focus;
pub mod mouse;
pub mod rules;
pub mod space_change;
pub mod spaces;
pub mod system;
pub mod windows;

verus! {

#[derive(Debug)]
pub struct Reactor {
    pub config_manager: ConfigManager,
    pub app_manager: AppManager,
    pub window_manager: WindowManager,
    pub window_server_info_manager: WindowServerInfoManager,
    pub space_manager: SpaceManager,
    pub main_window_tracker_manager: MainWindowTrackerManager,
    pub drag_manager: DragManager,
    pub workspace_switch_manager: WorkspaceSwitchManager,
    pub communication_manager: CommunicationManager,
    pub notification_manager: NotificationManager,
    pub menu_manager: MenuManager,
    pub mission_control_manager: MissionControlManager,
    pub refocus_manager: RefocusManager,
    pub pending_space_change_manager: PendingSpaceChangeManager,
    pub active_spaces: IdSet<SpaceId>,
}

/// The reactor's state, as sequences and values.
#[verifier::ext_equal]
pub struct ReactorView {
    pub config: Config,
    pub apps: Seq<(pid_t, AppState)>,
    pub windows: Seq<(WindowId, WindowState)>,
    pub window_ids: Seq<(WindowServerId, WindowId)>,
    pub visible: Seq<WindowServerId>,
    pub observed: Seq<WindowServerId>,
    pub server_info: Seq<(WindowServerId, WindowServerInfo)>,
    pub screens: Seq<Screen>,
    pub fullscreen: Seq<(SpaceId, FullscreenTrack)>,
    pub changing: Seq<WindowServerId>,
    pub screen_spaces: Seq<(ScreenId, SpaceId)>,
    pub main_window: Option<WindowId>,
    pub drag: DragState,
    pub skip_layout: Option<WindowId>,
    pub switch: WorkspaceSwitchManager,
    pub has_event_tap: bool,
    pub notified: Seq<u32>,
    pub menu: MenuState,
    pub mission_control: MissionControlState,
    pub pending_refresh: Seq<pid_t>,
    pub stale_cleanup: StaleCleanupState,
    pub refocus: RefocusState,
    pub pending_space_change: Option<PendingSpaceChange>,
    pub active_spaces: Seq<SpaceId>,
}

impl View for Reactor {
    type V = ReactorView;

    open spec fn view(&self) -> ReactorView {
        ReactorView {
            config: self.config_manager.config,
            apps: self.app_manager.apps@,
            windows: self.window_manager.windows@,
            window_ids: self.window_manager.window_ids@,
            visible: self.window_manager.visible_windows@,
            observed: self.window_manager.observed_window_server_ids@,
            server_info: self.window_server_info_manager.window_server_info@,
            screens: self.space_manager.screens@,
            fullscreen: self.space_manager.fullscreen_by_space@,
            changing: self.space_manager.changing_screens@,
            screen_spaces: self.space_manager.screen_space_by_id@,
            main_window: self.main_window_tracker_manager.main_window,
            drag: self.drag_manager.drag_state,
            skip_layout: self.drag_manager.skip_layout_for_window,
            switch: self.workspace_switch_manager,
            has_event_tap: self.communication_manager.has_event_tap,
            notified: self.notification_manager.last_sls_notification_ids@,
            menu: self.menu_manager.menu_state,
            mission_control: self.mission_control_manager.mission_control_state,
            pending_refresh: self.mission_control_manager.pending_mission_control_refresh@,
            stale_cleanup: self.refocus_manager.stale_cleanup_state,
            refocus: self.refocus_manager.refocus_state,
            pending_space_change: self.pending_space_change_manager.pending_space_change,
            active_spaces: self.active_spaces@,
        }
    }
}

impl ReactorView {
    /// A reactor that knows its settings and nothing else.
    pub open spec fn initial(config: Config) -> ReactorView {
        ReactorView {
            config,
            apps: Seq::empty(),
            windows: Seq::empty(),
            window_ids: Seq::empty(),
            visible: Seq::empty(),
            observed: Seq::empty(),
            server_info: Seq::empty(),
            screens: Seq::empty(),
            fullscreen: Seq::empty(),
            changing: Seq::empty(),
            screen_spaces: Seq::empty(),
            main_window: None,
            drag: DragState::Inactive,
            skip_layout: None,
            switch: WorkspaceSwitchManager::initial(),
            has_event_tap: false,
            notified: Seq::empty(),
            menu: MenuState::Closed,
            mission_control: MissionControlState::Inactive,
            pending_refresh: Seq::empty(),
            stale_cleanup: StaleCleanupState::Enabled,
            refocus: RefocusState::Idle,
            pending_space_change: None,
            active_spaces: Seq::empty(),
        }
    }

    /// No key stands twice in a table, and no item twice in a set.
    pub open spec fn well_formed(self) -> bool {
        &&& distinct_keys(self.apps)
        &&& distinct_keys(self.windows)
        &&& distinct_keys(self.window_ids)
        &&& distinct_keys(self.server_info)
        &&& distinct_keys(self.fullscreen)
        &&& distinct_keys(self.screen_spaces)
        &&& self.visible.no_duplicates()
        &&& self.observed.no_duplicates()
        &&& self.changing.no_duplicates()
        &&& self.pending_refresh.no_duplicates()
        &&& self.active_spaces.no_duplicates()
    }
}

impl Reactor {
    pub fn new(config: Config) -> (r: Reactor)
        ensures
            r@ == ReactorView::initial(config),
            r@.well_formed(),
    {
        Reactor {
            config_manager: ConfigManager { config },
            app_manager: AppManager { apps: Table::new() },
            window_manager: WindowManager {
                windows: Table::new(),
                window_ids: Table::new(),
                visible_windows: IdSet::new(),
                observed_window_server_ids: IdSet::new(),
            },
            window_server_info_manager: WindowServerInfoManager { window_server_info: Table::new() },
            space_manager: SpaceManager {
                screens: Vec::new(),
                fullscreen_by_space: Table::new(),
                changing_screens: IdSet::new(),
                screen_space_by_id: Table::new(),
            },
            main_window_tracker_manager: MainWindowTrackerManager { main_window: None },
            drag_manager: DragManager {
                drag_state: DragState::Inactive,
                skip_layout_for_window: None,
            },
            workspace_switch_manager: WorkspaceSwitchManager {
                workspace_switch_state: WorkspaceSwitchState::Inactive,
                workspace_switch_generation: 0,
                active_workspace_switch: None,
                last_auto_workspace_switch: None,
                pending_workspace_switch_origin: None,
                pending_workspace_mouse_warp: None,
            },
            communication_manager: CommunicationManager { has_event_tap: false },
            notification_manager: NotificationManager { last_sls_notification_ids: Vec::new() },
            menu_manager: MenuManager { menu_state: MenuState::Closed },
            mission_control_manager: MissionControlManager {
                mission_control_state: MissionControlState::Inactive,
                pending_mission_control_refresh: IdSet::new(),
            },
            refocus_manager: RefocusManager {
                stale_cleanup_state: StaleCleanupState::Enabled,
                refocus_state: RefocusState::Idle,
            },
            pending_space_change_manager: PendingSpaceChangeManager { pending_space_change: None },
            active_spaces: IdSet::new(),
        }
    }
}

} // verus!
