//! What happens in the system, and which part of the window manager deals with it.
use crate::command::{Command, Direction, DisplaySelector, LayoutCommand, MetricsCommand, ReactorCommand};
use crate::geometry::Frame;
use crate::ids::{pid_t, SpaceId, TransactionId, WindowId, WindowServerId};
use crate::state::{AppInfo, Config, Requested, ScreenSnapshot, WindowInfo, WindowServerInfo};
use vstd::prelude::*;

verus! {

/// Whether an activation was caused by this program.
#[derive(Clone, Copy, Debug, PartialEq, Eq, Structural, Hash)]
pub enum Quiet {
    Yes,
    No,
}

/// The left mouse button.
#[derive(Clone, Copy, Debug, PartialEq, Eq, Structural, Hash)]
pub enum MouseState {
    Down,
    Up,
}

/// What is asked of the reactor from outside.
#[derive(Clone, Copy, Debug, PartialEq, Eq, Structural)]
#[allow(inconsistent_fields)]
pub enum Query {
    Workspaces { space_id: Option<SpaceId> },
    Windows { space_id: Option<SpaceId> },
    ActiveWorkspace { space_id: Option<SpaceId> },
    Displays,
    WindowInfo { window_id: WindowId },
    Applications,
    LayoutState { space_id: u64 },
    Metrics,
}

#[derive(Debug)]
#[allow(inconsistent_fields)]
pub enum Event {
    /// The screen layout, including resolution, changed. This is always the
    /// first event sent on startup.
    ///
    /// The first vec describes each screen. The main screen is always first in
    /// the list.
    ///
    /// See the `SpaceChanged` event for an explanation of the other parameters.
    ScreenParametersChanged(Vec<ScreenSnapshot>, Vec<WindowServerInfo>),
    /// The current space changed.
    ///
    /// There is one SpaceId per screen in the last ScreenParametersChanged
    /// event. `None` in the SpaceId vec disables managing windows on that
    /// screen until the next space change.
    ///
    /// A snapshot of visible windows from the window server is also taken and
    /// sent with this message. This allows us to determine more precisely which
    /// windows are visible on a given space, since app actor events like
    /// WindowsDiscovered are not ordered with respect to space events.
    SpaceChanged(Vec<Option<SpaceId>>, Vec<WindowServerInfo>),
    /// Which spaces are being managed (subset of the SpaceChanged list).
    ActiveSpacesChanged(Vec<Option<SpaceId>>),
    /// An application was launched. This event is also sent for every running
    /// application on startup.
    ///
    /// Both WindowInfo (accessibility) and WindowServerInfo are collected for
    /// any already-open windows when the launch event is sent.
    ApplicationLaunched {
        pid: pid_t,
        info: AppInfo,
        is_frontmost: bool,
        main_window: Option<WindowId>,
        visible_windows: Vec<(WindowId, WindowInfo)>,
        window_server_info: Vec<WindowServerInfo>,
    },
    ApplicationTerminated(pid_t),
    ApplicationThreadTerminated(pid_t),
    ApplicationActivated(pid_t, Quiet),
    ApplicationDeactivated(pid_t),
    ApplicationGloballyActivated(pid_t),
    ApplicationGloballyDeactivated(pid_t),
    ApplicationMainWindowChanged(pid_t, Option<WindowId>, Quiet),
    WindowsDiscovered { pid: pid_t, new: Vec<(WindowId, WindowInfo)>, known_visible: Vec<WindowId> },
    WindowCreated(WindowId, WindowInfo, Option<WindowServerInfo>, Option<MouseState>),
    WindowDestroyed(WindowId),
    WindowServerDestroyed(WindowServerId, SpaceId),
    WindowServerAppeared(WindowServerId, SpaceId),
    WindowMinimized(WindowId),
    WindowDeminiaturized(WindowId),
    WindowFrameChanged(WindowId, Frame, Option<TransactionId>, Requested, Option<MouseState>),
    WindowTitleChanged(WindowId, String),
    ResyncAppForWindow(WindowServerId),
    MenuOpened,
    MenuClosed,
    /// Left mouse button was released.
    ///
    /// Layout changes are suppressed while the button is down so that they
    /// don't interfere with drags. This event is used to update the layout in
    /// case updates were suppressed while the button was down.
    MouseUp,
    /// The mouse cursor moved over a new window. Only sent if focus-follows-
    /// mouse is enabled.
    MouseMovedOverWindow(WindowServerId),
    /// System woke from sleep; used to re-subscribe to notifications.
    SystemWoke,
    MissionControlNativeEntered,
    MissionControlNativeExited,
    /// A raise request completed. Used by the raise manager to track when
    /// all raise requests in a sequence have finished.
    RaiseCompleted { window_id: WindowId, sequence_id: u64 },
    /// A raise sequence timed out. Used by the raise manager to clean up
    /// pending raises that took too long.
    RaiseTimeout { sequence_id: u64 },
    Command(Command),
    RegisterWmSender,
    QueryWorkspaces { space_id: Option<SpaceId> },
    QueryWindows { space_id: Option<SpaceId> },
    QueryActiveWorkspace { space_id: Option<SpaceId> },
    QueryDisplays,
    QueryWindowInfo { window_id: WindowId },
    QueryApplications,
    QueryLayoutState { space_id: u64 },
    QueryMetrics,
    ConfigUpdated(Config),
    /// Apply app rules to existing windows when a space is activated
    ApplyAppRulesToExistingWindows { pid: pid_t, app_info: AppInfo, windows: Vec<WindowServerInfo> },
}

/// What deals with an event, and what it is given.
#[derive(Debug)]
#[allow(inconsistent_fields)]
pub enum Handler {
    /// There is nothing to do.
    Nothing,
    Query(Query),
    ApplicationLaunched {
        pid: pid_t,
        info: AppInfo,
        visible_windows: Vec<(WindowId, WindowInfo)>,
        window_server_info: Vec<WindowServerInfo>,
        is_frontmost: bool,
        main_window: Option<WindowId>,
    },
    ApplyAppRulesToExistingWindows { pid: pid_t, app_info: AppInfo, windows: Vec<WindowServerInfo> },
    ApplicationTerminated(pid_t),
    ApplicationThreadTerminated(pid_t),
    ApplicationActivated(pid_t),
    ResyncAppForWindow(WindowServerId),
    RegisterWmSender,
    WindowsDiscovered { pid: pid_t, new: Vec<(WindowId, WindowInfo)>, known_visible: Vec<WindowId> },
    WindowCreated(WindowId, WindowInfo, Option<WindowServerInfo>, Option<MouseState>),
    /// Answers whether a window is gone.
    WindowDestroyed(WindowId),
    WindowServerDestroyed(WindowServerId, SpaceId),
    WindowServerAppeared(WindowServerId, SpaceId),
    WindowMinimized(WindowId),
    WindowDeminiaturized(WindowId),
    /// Answers whether the window was resized.
    WindowFrameChanged(WindowId, Frame, Option<TransactionId>, Requested, Option<MouseState>),
    WindowTitleChanged(WindowId, String),
    ScreenParametersChanged(Vec<ScreenSnapshot>, Vec<WindowServerInfo>),
    ActiveSpacesChanged(Vec<Option<SpaceId>>),
    SpaceChanged(Vec<Option<SpaceId>>, Vec<WindowServerInfo>),
    MouseUp,
    MenuOpened,
    MenuClosed,
    MouseMovedOverWindow(WindowServerId),
    SystemWoke,
    MissionControlNativeEntered,
    MissionControlNativeExited,
    RaiseCompleted { window_id: WindowId, sequence_id: u64 },
    RaiseTimeout { sequence_id: u64 },
    LayoutCommand(LayoutCommand),
    MetricsCommand(MetricsCommand),
    ConfigUpdated(Config),
    Debug,
    Serialize,
    SaveAndExit,
    SwitchSpace(Direction),
    FocusWindow { window_id: WindowId, window_server_id: Option<WindowServerId> },
    ShowMissionControlAll,
    ShowMissionControlCurrent,
    DismissMissionControl,
    MoveMouseToDisplay(DisplaySelector),
    FocusDisplay(DisplaySelector),
    /// Moves the window with this index, or the focused window where none is given.
    MoveWindowToDisplay { selector: DisplaySelector, window_id: Option<u32> },
    CloseWindow { window_server_id: Option<WindowServerId> },
}

/// What the yes or no of a handler means.
#[derive(Clone, Copy, Debug, PartialEq, Eq, Structural)]
pub enum Verdict {
    /// Nothing.
    Ignored,
    /// The window was resized.
    Resized,
    /// A window is gone.
    Destroyed,
}

impl Command {
    /// What deals with a command.
    pub open spec fn handler(self) -> Handler {
        match self {
            Command::Layout(command) => Handler::LayoutCommand(command),
            Command::Metrics(command) => Handler::MetricsCommand(command),
            Command::Reactor(command) => match command {
                ReactorCommand::Debug => Handler::Debug,
                ReactorCommand::Serialize => Handler::Serialize,
                ReactorCommand::SaveAndExit => Handler::SaveAndExit,
                ReactorCommand::SwitchSpace(direction) => Handler::SwitchSpace(direction),
                ReactorCommand::FocusWindow { window_id, window_server_id } => {
                    Handler::FocusWindow { window_id, window_server_id }
                },
                ReactorCommand::ShowMissionControlAll => Handler::ShowMissionControlAll,
                ReactorCommand::ShowMissionControlCurrent => Handler::ShowMissionControlCurrent,
                ReactorCommand::DismissMissionControl => Handler::DismissMissionControl,
                ReactorCommand::MoveMouseToDisplay(selector) => Handler::MoveMouseToDisplay(selector),
                ReactorCommand::FocusDisplay(selector) => Handler::FocusDisplay(selector),
                ReactorCommand::CloseWindow { window_server_id } => Handler::CloseWindow { window_server_id },
                ReactorCommand::MoveWindowToDisplay { selector, window_id } => {
                    Handler::MoveWindowToDisplay { selector, window_id }
                },
            },
        }
    }

    pub fn into_handler(self) -> (r: Handler)
        ensures
            r == self.handler(),
    {
        match self {
            Command::Layout(command) => Handler::LayoutCommand(command),
            Command::Metrics(command) => Handler::MetricsCommand(command),
            Command::Reactor(command) => match command {
                ReactorCommand::Debug => Handler::Debug,
                ReactorCommand::Serialize => Handler::Serialize,
                ReactorCommand::SaveAndExit => Handler::SaveAndExit,
                ReactorCommand::SwitchSpace(direction) => Handler::SwitchSpace(direction),
                ReactorCommand::FocusWindow { window_id, window_server_id } => {
                    Handler::FocusWindow { window_id, window_server_id }
                },
                ReactorCommand::ShowMissionControlAll => Handler::ShowMissionControlAll,
                ReactorCommand::ShowMissionControlCurrent => Handler::ShowMissionControlCurrent,
                ReactorCommand::DismissMissionControl => Handler::DismissMissionControl,
                ReactorCommand::MoveMouseToDisplay(selector) => Handler::MoveMouseToDisplay(selector),
                ReactorCommand::FocusDisplay(selector) => Handler::FocusDisplay(selector),
                ReactorCommand::CloseWindow { window_server_id } => Handler::CloseWindow { window_server_id },
                ReactorCommand::MoveWindowToDisplay { selector, window_id } => {
                    Handler::MoveWindowToDisplay { selector, window_id }
                },
            },
        }
    }
}

impl Event {
    /// The question that an event puts, where it puts one.
    pub open spec fn query(self) -> Option<Query> {
        match self {
            Event::QueryWorkspaces { space_id } => Some(Query::Workspaces { space_id }),
            Event::QueryWindows { space_id } => Some(Query::Windows { space_id }),
            Event::QueryActiveWorkspace { space_id } => Some(Query::ActiveWorkspace { space_id }),
            Event::QueryDisplays => Some(Query::Displays),
            Event::QueryWindowInfo { window_id } => Some(Query::WindowInfo { window_id }),
            Event::QueryApplications => Some(Query::Applications),
            Event::QueryLayoutState { space_id } => Some(Query::LayoutState { space_id }),
            Event::QueryMetrics => Some(Query::Metrics),
            _ => None,
        }
    }

    /// The set of windows may be another one after the event.
    pub open spec fn changes_windows(self) -> bool {
        ||| self is WindowCreated
        ||| self is WindowDestroyed
        ||| self is WindowServerDestroyed
        ||| self is WindowServerAppeared
        ||| self is WindowsDiscovered
        ||| self is ApplicationLaunched
        ||| self is ApplicationTerminated
        ||| self is ApplicationThreadTerminated
        ||| self is SpaceChanged
        ||| self is ScreenParametersChanged
    }

    /// What the yes or no of the event's handler means.
    pub open spec fn verdict(self) -> Verdict {
        match self {
            Event::WindowFrameChanged(..) => Verdict::Resized,
            Event::WindowDestroyed(_) => Verdict::Destroyed,
            _ => Verdict::Ignored,
        }
    }

    /// What deals with the event.
    pub open spec fn handler(self) -> Handler {
        match self {
            Event::ApplicationLaunched {
                pid,
                info,
                is_frontmost,
                main_window,
                visible_windows,
                window_server_info,
            } => Handler::ApplicationLaunched {
                pid,
                info,
                visible_windows,
                window_server_info,
                is_frontmost,
                main_window,
            },
            Event::ApplyAppRulesToExistingWindows { pid, app_info, windows } => {
                Handler::ApplyAppRulesToExistingWindows { pid, app_info, windows }
            },
            Event::ApplicationTerminated(pid) => Handler::ApplicationTerminated(pid),
            Event::ApplicationThreadTerminated(pid) => Handler::ApplicationThreadTerminated(pid),
            Event::ApplicationActivated(pid, _) => Handler::ApplicationActivated(pid),
            Event::ApplicationDeactivated(_) => Handler::Nothing,
            Event::ApplicationGloballyActivated(_) => Handler::Nothing,
            Event::ApplicationGloballyDeactivated(_) => Handler::Nothing,
            Event::ApplicationMainWindowChanged(..) => Handler::Nothing,
            Event::ResyncAppForWindow(wsid) => Handler::ResyncAppForWindow(wsid),
            Event::RegisterWmSender => Handler::RegisterWmSender,
            Event::WindowsDiscovered { pid, new, known_visible } => {
                Handler::WindowsDiscovered { pid, new, known_visible }
            },
            Event::WindowCreated(window, info, ws_info, mouse_state) => {
                Handler::WindowCreated(window, info, ws_info, mouse_state)
            },
            Event::WindowDestroyed(window) => Handler::WindowDestroyed(window),
            Event::WindowServerDestroyed(wsid, space) => Handler::WindowServerDestroyed(wsid, space),
            Event::WindowServerAppeared(wsid, space) => Handler::WindowServerAppeared(wsid, space),
            Event::WindowMinimized(window) => Handler::WindowMinimized(window),
            Event::WindowDeminiaturized(window) => Handler::WindowDeminiaturized(window),
            Event::WindowFrameChanged(window, frame, last_seen, requested, mouse_state) => {
                Handler::WindowFrameChanged(window, frame, last_seen, requested, mouse_state)
            },
            Event::WindowTitleChanged(window, title) => Handler::WindowTitleChanged(window, title),
            Event::ScreenParametersChanged(screens, ws_info) => {
                Handler::ScreenParametersChanged(screens, ws_info)
            },
            Event::ActiveSpacesChanged(spaces) => Handler::ActiveSpacesChanged(spaces),
            Event::SpaceChanged(spaces, ws_info) => Handler::SpaceChanged(spaces, ws_info),
            Event::MouseUp => Handler::MouseUp,
            Event::MenuOpened => Handler::MenuOpened,
            Event::MenuClosed => Handler::MenuClosed,
            Event::MouseMovedOverWindow(wsid) => Handler::MouseMovedOverWindow(wsid),
            Event::SystemWoke => Handler::SystemWoke,
            Event::MissionControlNativeEntered => Handler::MissionControlNativeEntered,
            Event::MissionControlNativeExited => Handler::MissionControlNativeExited,
            Event::RaiseCompleted { window_id, sequence_id } => {
                Handler::RaiseCompleted { window_id, sequence_id }
            },
            Event::RaiseTimeout { sequence_id } => Handler::RaiseTimeout { sequence_id },
            Event::Command(command) => command.handler(),
            Event::ConfigUpdated(config) => Handler::ConfigUpdated(config),
            Event::QueryWorkspaces { .. } => Handler::Query(self.query()->0),
            Event::QueryWindows { .. } => Handler::Query(self.query()->0),
            Event::QueryActiveWorkspace { .. } => Handler::Query(self.query()->0),
            Event::QueryDisplays => Handler::Query(self.query()->0),
            Event::QueryWindowInfo { .. } => Handler::Query(self.query()->0),
            Event::QueryApplications => Handler::Query(self.query()->0),
            Event::QueryLayoutState { .. } => Handler::Query(self.query()->0),
            Event::QueryMetrics => Handler::Query(self.query()->0),
        }
    }

    /// The event puts a question.
    pub fn is_query(&self) -> (r: bool)
        ensures
            r == (self.query() is Some),
    {
        match self {
            Event::QueryWorkspaces { .. } => true,
            Event::QueryWindows { .. } => true,
            Event::QueryActiveWorkspace { .. } => true,
            Event::QueryDisplays => true,
            Event::QueryWindowInfo { .. } => true,
            Event::QueryApplications => true,
            Event::QueryLayoutState { .. } => true,
            Event::QueryMetrics => true,
            _ => false,
        }
    }

    /// The windows to be notified about may be others after the event.
    pub fn should_update_notifications(&self) -> (r: bool)
        ensures
            r == self.changes_windows(),
    {
        match self {
            Event::WindowCreated(..) => true,
            Event::WindowDestroyed(_) => true,
            Event::WindowServerDestroyed(..) => true,
            Event::WindowServerAppeared(..) => true,
            Event::WindowsDiscovered { .. } => true,
            Event::ApplicationLaunched { .. } => true,
            Event::ApplicationTerminated(_) => true,
            Event::ApplicationThreadTerminated(_) => true,
            Event::SpaceChanged(..) => true,
            Event::ScreenParametersChanged(..) => true,
            _ => false,
        }
    }

    /// What the yes or no of the event's handler means.
    pub fn verdict_of_handler(&self) -> (r: Verdict)
        ensures
            r == self.verdict(),
    {
        match self {
            Event::WindowFrameChanged(..) => Verdict::Resized,
            Event::WindowDestroyed(_) => Verdict::Destroyed,
            _ => Verdict::Ignored,
        }
    }

    /// What deals with the event.
    pub fn into_handler(self) -> (r: Handler)
        ensures
            r == self.handler(),
    {
        match self {
            Event::ApplicationLaunched {
                pid,
                info,
                is_frontmost,
                main_window,
                visible_windows,
                window_server_info,
            } => Handler::ApplicationLaunched {
                pid,
                info,
                visible_windows,
                window_server_info,
                is_frontmost,
                main_window,
            },
            Event::ApplyAppRulesToExistingWindows { pid, app_info, windows } => {
                Handler::ApplyAppRulesToExistingWindows { pid, app_info, windows }
            },
            Event::ApplicationTerminated(pid) => Handler::ApplicationTerminated(pid),
            Event::ApplicationThreadTerminated(pid) => Handler::ApplicationThreadTerminated(pid),
            Event::ApplicationActivated(pid, _) => Handler::ApplicationActivated(pid),
            Event::ApplicationDeactivated(_) => Handler::Nothing,
            // The activation is taken from the application itself.
            Event::ApplicationGloballyActivated(_) => Handler::Nothing,
            Event::ApplicationGloballyDeactivated(_) => Handler::Nothing,
            Event::ApplicationMainWindowChanged(..) => Handler::Nothing,
            Event::ResyncAppForWindow(wsid) => Handler::ResyncAppForWindow(wsid),
            Event::RegisterWmSender => Handler::RegisterWmSender,
            Event::WindowsDiscovered { pid, new, known_visible } => {
                Handler::WindowsDiscovered { pid, new, known_visible }
            },
            Event::WindowCreated(window, info, ws_info, mouse_state) => {
                Handler::WindowCreated(window, info, ws_info, mouse_state)
            },
            Event::WindowDestroyed(window) => Handler::WindowDestroyed(window),
            Event::WindowServerDestroyed(wsid, space) => Handler::WindowServerDestroyed(wsid, space),
            Event::WindowServerAppeared(wsid, space) => Handler::WindowServerAppeared(wsid, space),
            Event::WindowMinimized(window) => Handler::WindowMinimized(window),
            Event::WindowDeminiaturized(window) => Handler::WindowDeminiaturized(window),
            Event::WindowFrameChanged(window, frame, last_seen, requested, mouse_state) => {
                Handler::WindowFrameChanged(window, frame, last_seen, requested, mouse_state)
            },
            Event::WindowTitleChanged(window, title) => Handler::WindowTitleChanged(window, title),
            Event::ScreenParametersChanged(screens, ws_info) => {
                Handler::ScreenParametersChanged(screens, ws_info)
            },
            Event::ActiveSpacesChanged(spaces) => Handler::ActiveSpacesChanged(spaces),
            Event::SpaceChanged(spaces, ws_info) => Handler::SpaceChanged(spaces, ws_info),
            Event::MouseUp => Handler::MouseUp,
            Event::MenuOpened => Handler::MenuOpened,
            Event::MenuClosed => Handler::MenuClosed,
            Event::MouseMovedOverWindow(wsid) => Handler::MouseMovedOverWindow(wsid),
            Event::SystemWoke => Handler::SystemWoke,
            Event::MissionControlNativeEntered => Handler::MissionControlNativeEntered,
            Event::MissionControlNativeExited => Handler::MissionControlNativeExited,
            Event::RaiseCompleted { window_id, sequence_id } => {
                Handler::RaiseCompleted { window_id, sequence_id }
            },
            Event::RaiseTimeout { sequence_id } => Handler::RaiseTimeout { sequence_id },
            Event::Command(command) => command.into_handler(),
            Event::ConfigUpdated(config) => Handler::ConfigUpdated(config),
            Event::QueryWorkspaces { space_id } => Handler::Query(Query::Workspaces { space_id }),
            Event::QueryWindows { space_id } => Handler::Query(Query::Windows { space_id }),
            Event::QueryActiveWorkspace { space_id } => Handler::Query(Query::ActiveWorkspace { space_id }),
            Event::QueryDisplays => Handler::Query(Query::Displays),
            Event::QueryWindowInfo { window_id } => Handler::Query(Query::WindowInfo { window_id }),
            Event::QueryApplications => Handler::Query(Query::Applications),
            Event::QueryLayoutState { space_id } => Handler::Query(Query::LayoutState { space_id }),
            Event::QueryMetrics => Handler::Query(Query::Metrics),
        }
    }
}

} // verus!
