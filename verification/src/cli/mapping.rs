//! Which command to the server a command that was typed becomes.
use crate::cli::{
    outcome, AnimationEasing, ConfigCommand, ConfigCommands, DisplayCommands, LayoutCommands,
    MissionControlCommands, RiftCommand, WindowCommands, WorkspaceCommands,
};
use crate::command::{Command, Direction, DirectionName, DisplaySelector, LayoutCommand, ReactorCommand};
use crate::ids::WindowServerId;
use crate::json::{json_string, json_value, parse_json, string_value};
use crate::text::{
    ascii_lowercase, has_hex_mark, lowercase, number, parse_number, starts_with_hex_mark,
    strip_hex_marks, text_is, trim, trimmed, without_hex_marks,
};
use vstd::prelude::*;

verus! {

pub open spec fn layout(command: LayoutCommand) -> RiftCommand {
    RiftCommand::Reactor(Command::Layout(command))
}

pub open spec fn reactor(command: ReactorCommand) -> RiftCommand {
    RiftCommand::Reactor(Command::Reactor(command))
}

/// The window that a text names, once white characters are off its ends: a
/// hexadecimal number after its mark, or a decimal number.
pub open spec fn window_named(text: Seq<char>) -> Result<WindowServerId, Seq<char>> {
    if text.len() == 0 {
        Err("window_server_id cannot be empty"@)
    } else if has_hex_mark(text) {
        match number(without_hex_marks(text), 16) {
            Some(id) => Ok(WindowServerId(id)),
            None => Err("Invalid hexadecimal window server id: "@ + text),
        }
    } else {
        match number(text, 10) {
            Some(id) => Ok(WindowServerId(id)),
            None => Err("Invalid window server id: "@ + text),
        }
    }
}

/// The direction that a word names.
pub open spec fn direction_named(word: Seq<char>) -> Result<Direction, Seq<char>> {
    if word == "left"@ {
        Ok(Direction::Left)
    } else if word == "right"@ {
        Ok(Direction::Right)
    } else if word == "up"@ {
        Ok(Direction::Up)
    } else if word == "down"@ {
        Ok(Direction::Down)
    } else {
        Err("Invalid focus direction '"@ + word + "'; must be left, right, up, or down"@)
    }
}

/// The display that is named by a direction, an index or an identifier;
/// exactly one of them must be given.
pub open spec fn display_named(
    direction: Option<String>,
    index: Option<usize>,
    uuid: Option<String>,
) -> Result<DisplaySelector, Seq<char>> {
    match (direction, index, uuid) {
        (Some(direction), None, None) => match direction_named(ascii_lowercase(trimmed(direction@))) {
            Ok(direction) => Ok(DisplaySelector::Direction(direction)),
            Err(message) => Err(message),
        },
        (None, Some(index), None) => Ok(DisplaySelector::Index(index)),
        (None, None, Some(uuid)) => Ok(DisplaySelector::Uuid(uuid)),
        _ => Err("display selection requires exactly one of --direction, --index, or --uuid"@),
    }
}

/// The truth value that a word in lower case stands for.
pub open spec fn switch_named(word: Seq<char>) -> Option<bool> {
    if word == "true"@ || word == "on"@ {
        Some(true)
    } else if word == "false"@ || word == "off"@ {
        Some(false)
    } else {
        None
    }
}

/// The easing that a word names.
pub open spec fn easing_named(word: Seq<char>) -> Option<AnimationEasing> {
    if word == "ease_in_out"@ {
        Some(AnimationEasing::EaseInOut)
    } else if word == "linear"@ {
        Some(AnimationEasing::Linear)
    } else if word == "ease_in_sine"@ {
        Some(AnimationEasing::EaseInSine)
    } else if word == "ease_out_sine"@ {
        Some(AnimationEasing::EaseOutSine)
    } else if word == "ease_in_out_sine"@ {
        Some(AnimationEasing::EaseInOutSine)
    } else if word == "ease_in_quad"@ {
        Some(AnimationEasing::EaseInQuad)
    } else if word == "ease_out_quad"@ {
        Some(AnimationEasing::EaseOutQuad)
    } else if word == "ease_in_out_quad"@ {
        Some(AnimationEasing::EaseInOutQuad)
    } else if word == "ease_in_cubic"@ {
        Some(AnimationEasing::EaseInCubic)
    } else if word == "ease_out_cubic"@ {
        Some(AnimationEasing::EaseOutCubic)
    } else if word == "ease_in_out_cubic"@ {
        Some(AnimationEasing::EaseInOutCubic)
    } else if word == "ease_in_quart"@ {
        Some(AnimationEasing::EaseInQuart)
    } else if word == "ease_out_quart"@ {
        Some(AnimationEasing::EaseOutQuart)
    } else if word == "ease_in_out_quart"@ {
        Some(AnimationEasing::EaseInOutQuart)
    } else if word == "ease_in_quint"@ {
        Some(AnimationEasing::EaseInQuint)
    } else if word == "ease_out_quint"@ {
        Some(AnimationEasing::EaseOutQuint)
    } else if word == "ease_in_out_quint"@ {
        Some(AnimationEasing::EaseInOutQuint)
    } else if word == "ease_in_expo"@ {
        Some(AnimationEasing::EaseInExpo)
    } else if word == "ease_out_expo"@ {
        Some(AnimationEasing::EaseOutExpo)
    } else if word == "ease_in_out_expo"@ {
        Some(AnimationEasing::EaseInOutExpo)
    } else if word == "ease_in_circ"@ {
        Some(AnimationEasing::EaseInCirc)
    } else if word == "ease_out_circ"@ {
        Some(AnimationEasing::EaseOutCirc)
    } else if word == "ease_in_out_circ"@ {
        Some(AnimationEasing::EaseInOutCirc)
    } else {
        None
    }
}

/// The command that a window command becomes.
pub open spec fn window_mapped(cmd: WindowCommands) -> Result<RiftCommand, Seq<char>> {
    match cmd {
        WindowCommands::Next => Ok(layout(LayoutCommand::NextWindow)),
        WindowCommands::Prev => Ok(layout(LayoutCommand::PrevWindow)),
        WindowCommands::Focus { direction } => Ok(layout(LayoutCommand::MoveFocus(DirectionName(direction)))),
        WindowCommands::ToggleFloat => Ok(layout(LayoutCommand::ToggleWindowFloating)),
        WindowCommands::ToggleFullscreen => Ok(layout(LayoutCommand::ToggleFullscreen)),
        WindowCommands::ToggleFullscreenWithinGaps => Ok(layout(LayoutCommand::ToggleFullscreenWithinGaps)),
        WindowCommands::ResizeGrow => Ok(layout(LayoutCommand::ResizeWindowGrow)),
        WindowCommands::ResizeShrink => Ok(layout(LayoutCommand::ResizeWindowShrink)),
        WindowCommands::ResizeBy { amount } => Ok(layout(LayoutCommand::ResizeWindowBy { amount })),
        WindowCommands::Close { window_id } => match window_named(trimmed(window_id@)) {
            Ok(id) => Ok(reactor(ReactorCommand::CloseWindow { window_server_id: Some(id) })),
            Err(message) => Err(message),
        },
    }
}

/// The command that a workspace command becomes.
pub open spec fn workspace_mapped(cmd: WorkspaceCommands) -> RiftCommand {
    layout(
        match cmd {
            WorkspaceCommands::Next { skip_empty } => LayoutCommand::NextWorkspace(skip_empty),
            WorkspaceCommands::Prev { skip_empty } => LayoutCommand::PrevWorkspace(skip_empty),
            WorkspaceCommands::Switch { workspace_id } => LayoutCommand::SwitchToWorkspace(workspace_id),
            WorkspaceCommands::MoveWindow { workspace_id, window_id } => {
                LayoutCommand::MoveWindowToWorkspace { workspace: workspace_id, window_id }
            },
            WorkspaceCommands::Create => LayoutCommand::CreateWorkspace,
            WorkspaceCommands::Last => LayoutCommand::SwitchToLastWorkspace,
        },
    )
}

/// The command that a layout command becomes.
pub open spec fn layout_mapped(cmd: LayoutCommands) -> RiftCommand {
    layout(
        match cmd {
            LayoutCommands::Ascend => LayoutCommand::Ascend,
            LayoutCommands::Descend => LayoutCommand::Descend,
            LayoutCommands::MoveNode { direction } => LayoutCommand::MoveNode(DirectionName(direction)),
            LayoutCommands::JoinWindow { direction } => LayoutCommand::JoinWindow(DirectionName(direction)),
            LayoutCommands::ToggleStack => LayoutCommand::ToggleStack,
            LayoutCommands::ToggleOrientation => LayoutCommand::ToggleOrientation,
            LayoutCommands::Unjoin => LayoutCommand::UnjoinWindows,
            LayoutCommands::ToggleFocusFloat => LayoutCommand::ToggleFocusFloating,
        },
    )
}

/// The command that a Mission Control command becomes.
pub open spec fn mission_control_mapped(cmd: MissionControlCommands) -> RiftCommand {
    reactor(
        match cmd {
            MissionControlCommands::ShowAll => ReactorCommand::ShowMissionControlAll,
            MissionControlCommands::ShowCurrent => ReactorCommand::ShowMissionControlCurrent,
            MissionControlCommands::Dismiss => ReactorCommand::DismissMissionControl,
        },
    )
}

/// The command that a display command becomes. The window that is moved to a
/// display is the one whose index is given, or else the focused one.
pub open spec fn display_mapped(cmd: DisplayCommands) -> Result<RiftCommand, Seq<char>> {
    match cmd {
        DisplayCommands::Focus { direction, index, uuid } => match display_named(direction, index, uuid) {
            Ok(selector) => Ok(reactor(ReactorCommand::FocusDisplay(selector))),
            Err(message) => Err(message),
        },
        DisplayCommands::MoveMouseToIndex { index } => Ok(
            reactor(ReactorCommand::MoveMouseToDisplay(DisplaySelector::Index(index))),
        ),
        DisplayCommands::MoveMouseToUuid { uuid } => Ok(
            reactor(ReactorCommand::MoveMouseToDisplay(DisplaySelector::Uuid(uuid))),
        ),
        DisplayCommands::MoveWindow { direction, index, uuid, window_id } => {
            match display_named(direction, index, uuid) {
                Ok(selector) => Ok(reactor(ReactorCommand::MoveWindowToDisplay { selector, window_id })),
                Err(message) => Err(message),
            }
        },
    }
}

/// `r` sets the key to the value.
pub open spec fn sets(r: Result<ConfigCommand, String>, key: Seq<char>, value: serde_json::Value) -> bool {
    r matches Ok(ConfigCommand::SetKey { key: k, value: v }) && k@ == key && v == value
}

/// The value that a setting is set to: what the text writes down in JSON,
/// where it is JSON, or else the text itself.
pub open spec fn setting(parsed: Option<serde_json::Value>, text: Seq<char>) -> serde_json::Value {
    match parsed {
        Some(value) => value,
        None => json_string(text),
    }
}

/// `r` is what becomes of `cmd`, where `lowered` is its word in lower case
/// and `parsed` its value read as JSON.
pub open spec fn config_mapped(
    cmd: ConfigCommands,
    lowered: Seq<char>,
    parsed: Option<serde_json::Value>,
    r: Result<ConfigCommand, String>,
) -> bool {
    match cmd {
        ConfigCommands::SetAnimate { value } => outcome(r) == match switch_named(lowered) {
            Some(on) => Ok::<ConfigCommand, Seq<char>>(ConfigCommand::SetAnimate(on)),
            None => Err("Invalid boolean value: "@ + value@ + ". Use true/false"@),
        },
        ConfigCommands::SetAnimationDuration { value } => r == Ok::<ConfigCommand, String>(
            ConfigCommand::SetAnimationDuration(value),
        ),
        ConfigCommands::SetAnimationFps { value } => r == Ok::<ConfigCommand, String>(
            ConfigCommand::SetAnimationFps(value),
        ),
        ConfigCommands::SetAnimationEasing { value } => outcome(r) == match easing_named(value@) {
            Some(easing) => Ok::<ConfigCommand, Seq<char>>(ConfigCommand::SetAnimationEasing(easing)),
            None => Err("Invalid animation easing: "@ + value@),
        },
        ConfigCommands::SetMouseFollowsFocus { value } => r == Ok::<ConfigCommand, String>(
            ConfigCommand::SetMouseFollowsFocus(value),
        ),
        ConfigCommands::SetMouseHidesOnFocus { value } => r == Ok::<ConfigCommand, String>(
            ConfigCommand::SetMouseHidesOnFocus(value),
        ),
        ConfigCommands::SetFocusFollowsMouse { value } => r == Ok::<ConfigCommand, String>(
            ConfigCommand::SetFocusFollowsMouse(value),
        ),
        ConfigCommands::SetStackOffset { value } => r == Ok::<ConfigCommand, String>(
            ConfigCommand::SetStackOffset(value),
        ),
        ConfigCommands::SetStackDefaultOrientation { value } => sets(
            r,
            "settings.layout.stack.default_orientation"@,
            json_string(value@),
        ),
        ConfigCommands::SetOuterGaps { top, left, bottom, right } => r == Ok::<ConfigCommand, String>(
            ConfigCommand::SetOuterGaps { top, left, bottom, right },
        ),
        ConfigCommands::SetInnerGaps { horizontal, vertical } => r == Ok::<ConfigCommand, String>(
            ConfigCommand::SetInnerGaps { horizontal, vertical },
        ),
        ConfigCommands::SetWorkspaceNames { names } => r == Ok::<ConfigCommand, String>(
            ConfigCommand::SetWorkspaceNames(names),
        ),
        ConfigCommands::SetKey { key, value } => sets(r, key@, setting(parsed, value@)),
        ConfigCommands::Get => r == Ok::<ConfigCommand, String>(ConfigCommand::GetConfig),
        ConfigCommands::Save => r == Ok::<ConfigCommand, String>(ConfigCommand::SaveConfig),
        ConfigCommands::Reload => r == Ok::<ConfigCommand, String>(ConfigCommand::ReloadConfig),
    }
}

/// Where the word of `cmd` is all ASCII, lower case makes the letters `A` to
/// `Z` small and changes nothing else.
pub open spec fn ascii_is_lowered(cmd: ConfigCommands) -> bool {
    cmd matches ConfigCommands::SetAnimate { value } ==> (vstd::utf8::is_ascii_chars(value@) ==> lowered_word(cmd)
        == ascii_lowercase(value@))
}

/// The word of a configuration command that is read in lower case.
pub open spec fn lowered_word(cmd: ConfigCommands) -> Seq<char> {
    match cmd {
        ConfigCommands::SetAnimate { value } => lowercase(value@),
        _ => Seq::empty(),
    }
}

/// The value of a configuration command, read as JSON.
pub open spec fn parsed_value(cmd: ConfigCommands) -> Option<serde_json::Value> {
    match cmd {
        ConfigCommands::SetKey { value, .. } => json_value(value@),
        _ => None,
    }
}

/// `r` is `wrapped` as a command to the server.
pub open spec fn is_config(r: Result<RiftCommand, String>, wrapped: Result<ConfigCommand, String>) -> bool {
    match wrapped {
        Ok(command) => r == Ok::<RiftCommand, String>(RiftCommand::Config(command)),
        Err(message) => r == Err::<RiftCommand, String>(message),
    }
}

/// The window that `trimmed` names.
pub fn parse_window_number(trimmed: &str) -> (r: Result<WindowServerId, String>)
    ensures
        outcome(r) == window_named(trimmed@),
{
    if trimmed.is_empty() {
        return Err("window_server_id cannot be empty".to_owned());
    }
    if starts_with_hex_mark(trimmed) {
        match parse_number(strip_hex_marks(trimmed), 16) {
            Some(id) => Ok(WindowServerId::new(id)),
            None => Err("Invalid hexadecimal window server id: ".to_owned().concat(trimmed)),
        }
    } else {
        match parse_number(trimmed, 10) {
            Some(id) => Ok(WindowServerId::new(id)),
            None => Err("Invalid window server id: ".to_owned().concat(trimmed)),
        }
    }
}

pub fn parse_window_server_id(input: &str) -> (r: Result<WindowServerId, String>)
    ensures
        outcome(r) == window_named(trimmed(input@)),
{
    parse_window_number(trim(input))
}

pub fn parse_focus_direction(value: &str) -> (r: Result<Direction, String>)
    ensures
        outcome(r) == direction_named(ascii_lowercase(trimmed(value@))),
{
    let lowered = trim(value).to_ascii_lowercase();
    let word = lowered.as_str();
    if text_is(word, "left") {
        Ok(Direction::Left)
    } else if text_is(word, "right") {
        Ok(Direction::Right)
    } else if text_is(word, "up") {
        Ok(Direction::Up)
    } else if text_is(word, "down") {
        Ok(Direction::Down)
    } else {
        Err(
            "Invalid focus direction '".to_owned().concat(word).concat(
                "'; must be left, right, up, or down",
            ),
        )
    }
}

pub fn build_display_selector(
    direction: Option<String>,
    index: Option<usize>,
    uuid: Option<String>,
) -> (r: Result<DisplaySelector, String>)
    ensures
        outcome(r) == display_named(direction, index, uuid),
{
    match (direction, index, uuid) {
        (Some(direction), None, None) => match parse_focus_direction(direction.as_str()) {
            Ok(direction) => Ok(DisplaySelector::Direction(direction)),
            Err(message) => Err(message),
        },
        (None, Some(index), None) => Ok(DisplaySelector::Index(index)),
        (None, None, Some(uuid)) => Ok(DisplaySelector::Uuid(uuid)),
        _ => Err("display selection requires exactly one of --direction, --index, or --uuid".to_owned()),
    }
}

pub fn map_window_command(cmd: WindowCommands) -> (r: Result<RiftCommand, String>)
    ensures
        outcome(r) == window_mapped(cmd),
{
    let command = match cmd {
        WindowCommands::Next => LayoutCommand::NextWindow,
        WindowCommands::Prev => LayoutCommand::PrevWindow,
        WindowCommands::Focus { direction } => LayoutCommand::MoveFocus(DirectionName(direction)),
        WindowCommands::ToggleFloat => LayoutCommand::ToggleWindowFloating,
        WindowCommands::ToggleFullscreen => LayoutCommand::ToggleFullscreen,
        WindowCommands::ToggleFullscreenWithinGaps => LayoutCommand::ToggleFullscreenWithinGaps,
        WindowCommands::ResizeGrow => LayoutCommand::ResizeWindowGrow,
        WindowCommands::ResizeShrink => LayoutCommand::ResizeWindowShrink,
        WindowCommands::ResizeBy { amount } => LayoutCommand::ResizeWindowBy { amount },
        WindowCommands::Close { window_id } => {
            return match parse_window_server_id(window_id.as_str()) {
                Ok(id) => Ok(
                    RiftCommand::Reactor(
                        Command::Reactor(ReactorCommand::CloseWindow { window_server_id: Some(id) }),
                    ),
                ),
                Err(message) => Err(message),
            };
        },
    };
    Ok(RiftCommand::Reactor(Command::Layout(command)))
}

pub fn map_workspace_command(cmd: WorkspaceCommands) -> (r: Result<RiftCommand, String>)
    ensures
        r == Ok::<RiftCommand, String>(workspace_mapped(cmd)),
{
    let command = match cmd {
        WorkspaceCommands::Next { skip_empty } => LayoutCommand::NextWorkspace(skip_empty),
        WorkspaceCommands::Prev { skip_empty } => LayoutCommand::PrevWorkspace(skip_empty),
        WorkspaceCommands::Switch { workspace_id } => LayoutCommand::SwitchToWorkspace(workspace_id),
        WorkspaceCommands::MoveWindow { workspace_id, window_id } => {
            LayoutCommand::MoveWindowToWorkspace { workspace: workspace_id, window_id }
        },
        WorkspaceCommands::Create => LayoutCommand::CreateWorkspace,
        WorkspaceCommands::Last => LayoutCommand::SwitchToLastWorkspace,
    };
    Ok(RiftCommand::Reactor(Command::Layout(command)))
}

pub fn map_layout_command(cmd: LayoutCommands) -> (r: Result<RiftCommand, String>)
    ensures
        r == Ok::<RiftCommand, String>(layout_mapped(cmd)),
{
    let command = match cmd {
        LayoutCommands::Ascend => LayoutCommand::Ascend,
        LayoutCommands::Descend => LayoutCommand::Descend,
        LayoutCommands::MoveNode { direction } => LayoutCommand::MoveNode(DirectionName(direction)),
        LayoutCommands::JoinWindow { direction } => LayoutCommand::JoinWindow(DirectionName(direction)),
        LayoutCommands::ToggleStack => LayoutCommand::ToggleStack,
        LayoutCommands::ToggleOrientation => LayoutCommand::ToggleOrientation,
        LayoutCommands::Unjoin => LayoutCommand::UnjoinWindows,
        LayoutCommands::ToggleFocusFloat => LayoutCommand::ToggleFocusFloating,
    };
    Ok(RiftCommand::Reactor(Command::Layout(command)))
}

pub fn map_mission_control_command(cmd: MissionControlCommands) -> (r: Result<RiftCommand, String>)
    ensures
        r == Ok::<RiftCommand, String>(mission_control_mapped(cmd)),
{
    let command = match cmd {
        MissionControlCommands::ShowAll => ReactorCommand::ShowMissionControlAll,
        MissionControlCommands::ShowCurrent => ReactorCommand::ShowMissionControlCurrent,
        MissionControlCommands::Dismiss => ReactorCommand::DismissMissionControl,
    };
    Ok(RiftCommand::Reactor(Command::Reactor(command)))
}

pub fn map_display_command(cmd: DisplayCommands) -> (r: Result<RiftCommand, String>)
    ensures
        outcome(r) == display_mapped(cmd),
{
    let command = match cmd {
        DisplayCommands::Focus { direction, index, uuid } => {
            match build_display_selector(direction, index, uuid) {
                Ok(selector) => ReactorCommand::FocusDisplay(selector),
                Err(message) => return Err(message),
            }
        },
        DisplayCommands::MoveMouseToIndex { index } => {
            ReactorCommand::MoveMouseToDisplay(DisplaySelector::Index(index))
        },
        DisplayCommands::MoveMouseToUuid { uuid } => {
            ReactorCommand::MoveMouseToDisplay(DisplaySelector::Uuid(uuid))
        },
        DisplayCommands::MoveWindow { direction, index, uuid, window_id } => {
            match build_display_selector(direction, index, uuid) {
                Ok(selector) => ReactorCommand::MoveWindowToDisplay { selector, window_id },
                Err(message) => return Err(message),
            }
        },
    };
    Ok(RiftCommand::Reactor(Command::Reactor(command)))
}

/// The truth value that a word in lower case stands for.
pub fn parse_switch(word: &str) -> (r: Option<bool>)
    ensures
        r == switch_named(word@),
{
    if text_is(word, "true") || text_is(word, "on") {
        Some(true)
    } else if text_is(word, "false") || text_is(word, "off") {
        Some(false)
    } else {
        None
    }
}

/// The easing that a word names.
pub fn parse_easing(word: &str) -> (r: Option<AnimationEasing>)
    ensures
        r == easing_named(word@),
{
    if text_is(word, "ease_in_out") {
        Some(AnimationEasing::EaseInOut)
    } else if text_is(word, "linear") {
        Some(AnimationEasing::Linear)
    } else if text_is(word, "ease_in_sine") {
        Some(AnimationEasing::EaseInSine)
    } else if text_is(word, "ease_out_sine") {
        Some(AnimationEasing::EaseOutSine)
    } else if text_is(word, "ease_in_out_sine") {
        Some(AnimationEasing::EaseInOutSine)
    } else if text_is(word, "ease_in_quad") {
        Some(AnimationEasing::EaseInQuad)
    } else if text_is(word, "ease_out_quad") {
        Some(AnimationEasing::EaseOutQuad)
    } else if text_is(word, "ease_in_out_quad") {
        Some(AnimationEasing::EaseInOutQuad)
    } else if text_is(word, "ease_in_cubic") {
        Some(AnimationEasing::EaseInCubic)
    } else if text_is(word, "ease_out_cubic") {
        Some(AnimationEasing::EaseOutCubic)
    } else if text_is(word, "ease_in_out_cubic") {
        Some(AnimationEasing::EaseInOutCubic)
    } else if text_is(word, "ease_in_quart") {
        Some(AnimationEasing::EaseInQuart)
    } else if text_is(word, "ease_out_quart") {
        Some(AnimationEasing::EaseOutQuart)
    } else if text_is(word, "ease_in_out_quart") {
        Some(AnimationEasing::EaseInOutQuart)
    } else if text_is(word, "ease_in_quint") {
        Some(AnimationEasing::EaseInQuint)
    } else if text_is(word, "ease_out_quint") {
        Some(AnimationEasing::EaseOutQuint)
    } else if text_is(word, "ease_in_out_quint") {
        Some(AnimationEasing::EaseInOutQuint)
    } else if text_is(word, "ease_in_expo") {
        Some(AnimationEasing::EaseInExpo)
    } else if text_is(word, "ease_out_expo") {
        Some(AnimationEasing::EaseOutExpo)
    } else if text_is(word, "ease_in_out_expo") {
        Some(AnimationEasing::EaseInOutExpo)
    } else if text_is(word, "ease_in_circ") {
        Some(AnimationEasing::EaseInCirc)
    } else if text_is(word, "ease_out_circ") {
        Some(AnimationEasing::EaseOutCirc)
    } else if text_is(word, "ease_in_out_circ") {
        Some(AnimationEasing::EaseInOutCirc)
    } else {
        None
    }
}

/// The change of the settings that a configuration command asks for. `lowered`
/// is its word in lower case, and `parsed` its value where that is JSON.
pub fn config_command(
    cmd: ConfigCommands,
    lowered: &str,
    parsed: Option<serde_json::Value>,
) -> (r: Result<ConfigCommand, String>)
    ensures
        config_mapped(cmd, lowered@, parsed, r),
{
    match cmd {
        ConfigCommands::SetAnimate { value } => match parse_switch(lowered) {
            Some(on) => Ok(ConfigCommand::SetAnimate(on)),
            None => Err(
                "Invalid boolean value: ".to_owned().concat(value.as_str()).concat(". Use true/false"),
            ),
        },
        ConfigCommands::SetAnimationDuration { value } => Ok(ConfigCommand::SetAnimationDuration(value)),
        ConfigCommands::SetAnimationFps { value } => Ok(ConfigCommand::SetAnimationFps(value)),
        ConfigCommands::SetAnimationEasing { value } => match parse_easing(value.as_str()) {
            Some(easing) => Ok(ConfigCommand::SetAnimationEasing(easing)),
            None => Err("Invalid animation easing: ".to_owned().concat(value.as_str())),
        },
        ConfigCommands::SetMouseFollowsFocus { value } => Ok(ConfigCommand::SetMouseFollowsFocus(value)),
        ConfigCommands::SetMouseHidesOnFocus { value } => Ok(ConfigCommand::SetMouseHidesOnFocus(value)),
        ConfigCommands::SetFocusFollowsMouse { value } => Ok(ConfigCommand::SetFocusFollowsMouse(value)),
        ConfigCommands::SetStackOffset { value } => Ok(ConfigCommand::SetStackOffset(value)),
        ConfigCommands::SetStackDefaultOrientation { value } => Ok(
            ConfigCommand::SetKey {
                key: "settings.layout.stack.default_orientation".to_owned(),
                value: string_value(value),
            },
        ),
        ConfigCommands::SetOuterGaps { top, left, bottom, right } => Ok(
            ConfigCommand::SetOuterGaps { top, left, bottom, right },
        ),
        ConfigCommands::SetInnerGaps { horizontal, vertical } => Ok(
            ConfigCommand::SetInnerGaps { horizontal, vertical },
        ),
        ConfigCommands::SetWorkspaceNames { names } => Ok(ConfigCommand::SetWorkspaceNames(names)),
        ConfigCommands::SetKey { key, value } => {
            let value = match parsed {
                Some(parsed) => parsed,
                None => string_value(value),
            };
            Ok(ConfigCommand::SetKey { key, value })
        },
        ConfigCommands::Get => Ok(ConfigCommand::GetConfig),
        ConfigCommands::Save => Ok(ConfigCommand::SaveConfig),
        ConfigCommands::Reload => Ok(ConfigCommand::ReloadConfig),
    }
}

pub fn map_config_command(cmd: ConfigCommands) -> (r: Result<RiftCommand, String>)
    ensures
        exists|mapped: Result<ConfigCommand, String>|
            #[trigger] config_mapped(cmd, lowered_word(cmd), parsed_value(cmd), mapped) && is_config(r, mapped),
        ascii_is_lowered(cmd),
{
    let lowered = match &cmd {
        ConfigCommands::SetAnimate { value } => value.as_str().to_lowercase(),
        _ => String::new(),
    };
    let parsed = match &cmd {
        ConfigCommands::SetKey { value, .. } => match parse_json(value.as_str()) {
            Ok(parsed) => Some(parsed),
            Err(_) => None,
        },
        _ => None,
    };
    let mapped = config_command(cmd, lowered.as_str(), parsed);
    assert(lowered@ =~= lowered_word(cmd));
    let ghost witness = mapped;
    match mapped {
        Ok(command) => {
            let r: Result<RiftCommand, String> = Ok(RiftCommand::Config(command));
            assert(config_mapped(cmd, lowered_word(cmd), parsed_value(cmd), witness) && is_config(r, witness));
            r
        },
        Err(message) => {
            let r: Result<RiftCommand, String> = Err(message);
            assert(config_mapped(cmd, lowered_word(cmd), parsed_value(cmd), witness) && is_config(r, witness));
            r
        },
    }
}

} // verus!
