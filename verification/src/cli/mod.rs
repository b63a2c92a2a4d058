//! The command line: what can be typed, and which request it becomes.
use crate::command::Command;
use crate::geometry::Scalar;
use vstd::prelude::*;

pub mod mapping;
pub mod request;

verus! {

#[derive(Debug)]
pub enum Commands {
    /// Query information from rift
    Query { query: QueryCommands },
    /// Execute commands in rift
    Execute { command: ExecuteCommands },
    /// Event subscription commands
    Subscribe { subscribe: SubscribeCommands },
    /// Manage the launchd service for rift
    Service { service: ServiceCommands },
}

#[derive(Clone, Copy, Debug, PartialEq, Eq, Structural)]
pub enum ServiceCommands {
    Install,
    Uninstall,
    Start,
    Stop,
    Restart,
}

#[derive(Debug)]
#[allow(inconsistent_fields)]
pub enum QueryCommands {
    Workspaces { space_id: Option<u64> },
    Windows { space_id: Option<u64> },
    Displays,
    Window { window_id: String },
    Applications,
    Layout { space_id: u64 },
    Metrics,
}

#[derive(Debug)]
pub enum ExecuteCommands {
    Window { window_cmd: WindowCommands },
    Workspace { workspace_cmd: WorkspaceCommands },
    Layout { layout_cmd: LayoutCommands },
    Config { config_cmd: ConfigCommands },
    MissionControl { mission_cmd: MissionControlCommands },
    Display { display_cmd: DisplayCommands },
    SaveAndExit,
    ShowTiming,
}

#[derive(Debug)]
pub enum WindowCommands {
    Next,
    Prev,
    Focus { direction: String },
    ToggleFloat,
    ToggleFullscreen,
    ToggleFullscreenWithinGaps,
    ResizeGrow,
    ResizeShrink,
    ResizeBy { amount: Scalar },
    Close { window_id: String },
}

#[derive(Clone, Copy, Debug, PartialEq, Eq, Structural)]
pub enum WorkspaceCommands {
    Next { skip_empty: Option<bool> },
    Prev { skip_empty: Option<bool> },
    Switch { workspace_id: usize },
    MoveWindow { workspace_id: usize, window_id: Option<u32> },
    Create,
    Last,
}

#[derive(Debug)]
pub enum LayoutCommands {
    Ascend,
    Descend,
    MoveNode { direction: String },
    JoinWindow { direction: String },
    ToggleStack,
    ToggleOrientation,
    Unjoin,
    ToggleFocusFloat,
}

#[derive(Debug)]
#[allow(inconsistent_fields)]
pub enum ConfigCommands {
    SetAnimate { value: String },
    SetAnimationDuration { value: Scalar },
    SetAnimationFps { value: Scalar },
    SetAnimationEasing { value: String },
    SetMouseFollowsFocus { value: bool },
    SetMouseHidesOnFocus { value: bool },
    SetFocusFollowsMouse { value: bool },
    SetStackOffset { value: Scalar },
    /// Set the default stack orientation behavior. Value should be one of:
    /// "perpendicular", "same", "horizontal", or "vertical"
    SetStackDefaultOrientation { value: String },
    SetOuterGaps { top: Scalar, left: Scalar, bottom: Scalar, right: Scalar },
    SetInnerGaps { horizontal: Scalar, vertical: Scalar },
    SetWorkspaceNames { names: Vec<String> },
    /// Generic set: set an arbitrary config key (dot-separated path) to a JSON
    /// value. A value that is not valid JSON is treated as a string.
    SetKey { key: String, value: String },
    Get,
    Save,
    Reload,
}

#[derive(Clone, Copy, Debug, PartialEq, Eq, Structural)]
pub enum MissionControlCommands {
    ShowAll,
    ShowCurrent,
    Dismiss,
}

#[derive(Debug)]
#[allow(inconsistent_fields)]
pub enum DisplayCommands {
    Focus { direction: Option<String>, index: Option<usize>, uuid: Option<String> },
    MoveMouseToIndex { index: usize },
    MoveMouseToUuid { uuid: String },
    MoveWindow {
        direction: Option<String>,
        index: Option<usize>,
        uuid: Option<String>,
        window_id: Option<u32>,
    },
}

#[derive(Debug)]
pub enum SubscribeCommands {
    Mach { event: String },
    Cli { event: String, command: String, args: Vec<String> },
    UnsubMach { event: String },
    UnsubCli { event: String },
    ListCli,
}

/// How an animation runs.
#[derive(Clone, Copy, Debug, PartialEq, Eq, Structural)]
pub enum AnimationEasing {
    EaseInOut,
    Linear,
    EaseInSine,
    EaseOutSine,
    EaseInOutSine,
    EaseInQuad,
    EaseOutQuad,
    EaseInOutQuad,
    EaseInCubic,
    EaseOutCubic,
    EaseInOutCubic,
    EaseInQuart,
    EaseOutQuart,
    EaseInOutQuart,
    EaseInQuint,
    EaseOutQuint,
    EaseInOutQuint,
    EaseInExpo,
    EaseOutExpo,
    EaseInOutExpo,
    EaseInCirc,
    EaseOutCirc,
    EaseInOutCirc,
}

/// A change of the settings, or a question about them.
#[derive(Debug, PartialEq)]
pub enum ConfigCommand {
    SetAnimate(bool),
    SetAnimationDuration(Scalar),
    SetAnimationFps(Scalar),
    SetAnimationEasing(AnimationEasing),
    SetMouseFollowsFocus(bool),
    SetMouseHidesOnFocus(bool),
    SetFocusFollowsMouse(bool),
    SetStackOffset(Scalar),
    SetOuterGaps { top: Scalar, left: Scalar, bottom: Scalar, right: Scalar },
    SetInnerGaps { horizontal: Scalar, vertical: Scalar },
    SetWorkspaceNames(Vec<String>),
    SetKey { key: String, value: serde_json::Value },
    GetConfig,
    SaveConfig,
    ReloadConfig,
}

/// A command to the server.
#[derive(Debug, PartialEq)]
pub enum RiftCommand {
    Reactor(Command),
    Config(ConfigCommand),
}

/// A request to the server.
#[derive(Debug, PartialEq, Eq)]
#[allow(inconsistent_fields)]
pub enum RiftRequest {
    GetWorkspaces { space_id: Option<u64> },
    GetWindows { space_id: Option<u64> },
    GetDisplays,
    GetWindowInfo { window_id: String },
    GetApplications,
    GetLayoutState { space_id: u64 },
    GetMetrics,
    GetConfig,
    ExecuteCommand { command: String, args: Vec<String> },
    Subscribe { event: String },
    SubscribeCli { event: String, command: String, args: Vec<String> },
    Unsubscribe { event: String },
    UnsubscribeCli { event: String },
    ListCliSubscriptions,
}

/// A request that can be sent, or a command that has to be written down as
/// JSON first and goes to `frame_command` then.
#[derive(Debug, PartialEq)]
pub enum Prepared {
    Request(RiftRequest),
    Command(RiftCommand),
}

/// An outcome with its message as a sequence.
pub open spec fn outcome<T>(r: Result<T, String>) -> Result<T, Seq<char>> {
    match r {
        Ok(value) => Ok(value),
        Err(message) => Err(message@),
    }
}

} // verus!
