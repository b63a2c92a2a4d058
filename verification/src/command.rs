//! Commands that a user can give.
use crate::geometry::Scalar;
use crate::ids::{WindowId, WindowServerId};
use vstd::prelude::*;

verus! {

#[derive(Clone, Copy, Debug, PartialEq, Eq, Structural, Hash)]
pub enum Direction {
    Left,
    Right,
    Up,
    Down,
}

/// A direction in the words of the user; the layout engine reads it.
#[derive(Debug, PartialEq, Eq)]
pub struct DirectionName(pub String);

/// What the layout engine can be told to do.
#[derive(Debug, PartialEq, Eq)]
pub enum LayoutCommand {
    NextWindow,
    PrevWindow,
    MoveFocus(DirectionName),
    Ascend,
    Descend,
    MoveNode(DirectionName),
    JoinWindow(DirectionName),
    ToggleStack,
    ToggleOrientation,
    UnjoinWindows,
    ToggleFocusFloating,
    ToggleWindowFloating,
    ToggleFullscreen,
    ToggleFullscreenWithinGaps,
    ResizeWindowGrow,
    ResizeWindowShrink,
    ResizeWindowBy { amount: Scalar },
    NextWorkspace(Option<bool>),
    PrevWorkspace(Option<bool>),
    SwitchToWorkspace(usize),
    MoveWindowToWorkspace { workspace: usize, window_id: Option<u32> },
    CreateWorkspace,
    SwitchToLastWorkspace,
}

#[derive(Clone, Copy, Debug, PartialEq, Eq, Structural, Hash)]
pub enum MetricsCommand {
    ShowTiming,
}

/// How a display is named in a command.
#[derive(Debug, PartialEq, Eq)]
pub enum DisplaySelector {
    /// The next display in a direction.
    Direction(Direction),
    /// The display's place in the list of screens.
    Index(usize),
    /// The display's own identifier.
    Uuid(String),
}

/// What the reactor itself can be told to do.
#[derive(Debug, PartialEq, Eq)]
#[allow(inconsistent_fields)]
pub enum ReactorCommand {
    Debug,
    Serialize,
    SaveAndExit,
    SwitchSpace(Direction),
    FocusWindow { window_id: WindowId, window_server_id: Option<WindowServerId> },
    ShowMissionControlAll,
    ShowMissionControlCurrent,
    DismissMissionControl,
    MoveMouseToDisplay(DisplaySelector),
    FocusDisplay(DisplaySelector),
    CloseWindow { window_server_id: Option<WindowServerId> },
    /// Moves the window with this index, or the focused window where none is given.
    MoveWindowToDisplay { selector: DisplaySelector, window_id: Option<u32> },
}

#[derive(Debug, PartialEq, Eq)]
pub enum Command {
    Layout(LayoutCommand),
    Metrics(MetricsCommand),
    Reactor(ReactorCommand),
}

} // verus!
