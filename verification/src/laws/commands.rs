//! What holds of single commands of the command line: what each of them becomes.
use crate::cli::mapping::{
    config_mapped, direction_named, display_mapped, display_named, easing_named, is_config, layout_mapped,
    lowered_word, mission_control_mapped, parsed_value, switch_named, window_mapped, window_named, workspace_mapped,
};
use crate::cli::request::{execute_mapped, is_prepared, query_request, subscribe_request, texts};
use crate::cli::{
    outcome, AnimationEasing, ConfigCommand, ConfigCommands, DisplayCommands, ExecuteCommands, LayoutCommands,
    MissionControlCommands, Prepared, QueryCommands, RiftCommand, RiftRequest, SubscribeCommands, WindowCommands,
    WorkspaceCommands,
};
use crate::command::{
    Command, Direction, DirectionName, DisplaySelector, LayoutCommand, MetricsCommand, ReactorCommand,
};
use crate::ids::WindowServerId;
use crate::json::{json_string, json_value};
use crate::text::{
    ascii_lowercase, digit_value, digits_value, has_hex_mark, is_white, lowercase, number, trimmed,
    without_hex_marks, without_plus,
};
use vstd::prelude::*;

verus! {

/// The word for a direction.
pub open spec fn direction_word(direction: Direction) -> Seq<char> {
    match direction {
        Direction::Left => "left"@,
        Direction::Right => "right"@,
        Direction::Up => "up"@,
        Direction::Down => "down"@,
    }
}

/// Each direction goes by its one word. Any other word is refused, and told of.
pub proof fn law_directions_go_by_their_word(word: Seq<char>, direction: Direction)
    ensures
        direction_named(word) == Ok::<Direction, Seq<char>>(direction) <==> word == direction_word(direction),
        (forall|d: Direction| word != #[trigger] direction_word(d)) ==> direction_named(word) == Err::<
            Direction,
            Seq<char>,
        >("Invalid focus direction '"@ + word + "'; must be left, right, up, or down"@),
{
    reveal_strlit("left");
    reveal_strlit("right");
    reveal_strlit("up");
    reveal_strlit("down");
    assert("left"@.len() == 4 && "right"@.len() == 5 && "up"@.len() == 2 && "down"@.len() == 4);
    assert("left"@[0] == 'l' && "down"@[0] == 'd');
    assert(word == direction_word(Direction::Left) || word != direction_word(Direction::Left));
    assert(word == direction_word(Direction::Right) || word != direction_word(Direction::Right));
    assert(word == direction_word(Direction::Up) || word != direction_word(Direction::Up));
    assert(word == direction_word(Direction::Down) || word != direction_word(Direction::Down));
}

/// A switch is turned on by two words and off by two, and by no other.
pub proof fn law_switches_go_by_their_words(word: Seq<char>)
    ensures
        switch_named(word) == Some(true) <==> word == "true"@ || word == "on"@,
        switch_named(word) == Some(false) <==> word == "false"@ || word == "off"@,
{
    reveal_strlit("true");
    reveal_strlit("on");
    reveal_strlit("false");
    reveal_strlit("off");
    assert("true"@.len() == 4 && "on"@.len() == 2 && "false"@.len() == 5 && "off"@.len() == 3);
}

/// The word for an easing.
pub open spec fn easing_word(easing: AnimationEasing) -> Seq<char> {
    match easing {
        AnimationEasing::EaseInOut => "ease_in_out"@,
        AnimationEasing::Linear => "linear"@,
        AnimationEasing::EaseInSine => "ease_in_sine"@,
        AnimationEasing::EaseOutSine => "ease_out_sine"@,
        AnimationEasing::EaseInOutSine => "ease_in_out_sine"@,
        AnimationEasing::EaseInQuad => "ease_in_quad"@,
        AnimationEasing::EaseOutQuad => "ease_out_quad"@,
        AnimationEasing::EaseInOutQuad => "ease_in_out_quad"@,
        AnimationEasing::EaseInCubic => "ease_in_cubic"@,
        AnimationEasing::EaseOutCubic => "ease_out_cubic"@,
        AnimationEasing::EaseInOutCubic => "ease_in_out_cubic"@,
        AnimationEasing::EaseInQuart => "ease_in_quart"@,
        AnimationEasing::EaseOutQuart => "ease_out_quart"@,
        AnimationEasing::EaseInOutQuart => "ease_in_out_quart"@,
        AnimationEasing::EaseInQuint => "ease_in_quint"@,
        AnimationEasing::EaseOutQuint => "ease_out_quint"@,
        AnimationEasing::EaseInOutQuint => "ease_in_out_quint"@,
        AnimationEasing::EaseInExpo => "ease_in_expo"@,
        AnimationEasing::EaseOutExpo => "ease_out_expo"@,
        AnimationEasing::EaseInOutExpo => "ease_in_out_expo"@,
        AnimationEasing::EaseInCirc => "ease_in_circ"@,
        AnimationEasing::EaseOutCirc => "ease_out_circ"@,
        AnimationEasing::EaseInOutCirc => "ease_in_out_circ"@,
    }
}

/// Each easing goes by its one word, and is found by it.
#[verifier::rlimit(60)]
pub proof fn law_easings_go_by_their_word(word: Seq<char>, easing: AnimationEasing)
    ensures
        easing_named(easing_word(easing)) == Some(easing),
        easing_named(word) == Some(easing) ==> word == easing_word(easing),
{
    reveal_strlit("ease_in_out");
    reveal_strlit("linear");
    reveal_strlit("ease_in_sine");
    reveal_strlit("ease_out_sine");
    reveal_strlit("ease_in_out_sine");
    reveal_strlit("ease_in_quad");
    reveal_strlit("ease_out_quad");
    reveal_strlit("ease_in_out_quad");
    reveal_strlit("ease_in_cubic");
    reveal_strlit("ease_out_cubic");
    reveal_strlit("ease_in_out_cubic");
    reveal_strlit("ease_in_quart");
    reveal_strlit("ease_out_quart");
    reveal_strlit("ease_in_out_quart");
    reveal_strlit("ease_in_quint");
    reveal_strlit("ease_out_quint");
    reveal_strlit("ease_in_out_quint");
    reveal_strlit("ease_in_expo");
    reveal_strlit("ease_out_expo");
    reveal_strlit("ease_in_out_expo");
    reveal_strlit("ease_in_circ");
    reveal_strlit("ease_out_circ");
    reveal_strlit("ease_in_out_circ");
    assert("linear"@.len() == 6);
    assert("ease_in_out"@.len() == 11);
    assert("ease_in_sine"@.len() == 12 && "ease_in_sine"@[8] == 's');
    assert("ease_in_quad"@.len() == 12 && "ease_in_quad"@[8] == 'q');
    assert("ease_in_expo"@.len() == 12 && "ease_in_expo"@[8] == 'e');
    assert("ease_in_circ"@.len() == 12 && "ease_in_circ"@[8] == 'c');
    assert("ease_out_sine"@.len() == 13 && "ease_out_sine"@[5] == 'o' && "ease_out_sine"@[11] == 'n');
    assert("ease_out_quad"@.len() == 13 && "ease_out_quad"@[5] == 'o' && "ease_out_quad"@[11] == 'a');
    assert("ease_in_cubic"@.len() == 13 && "ease_in_cubic"@[5] == 'i' && "ease_in_cubic"@[11] == 'i');
    assert("ease_in_quart"@.len() == 13 && "ease_in_quart"@[5] == 'i' && "ease_in_quart"@[11] == 'r');
    assert("ease_in_quint"@.len() == 13 && "ease_in_quint"@[5] == 'i' && "ease_in_quint"@[11] == 'n');
    assert("ease_out_expo"@.len() == 13 && "ease_out_expo"@[5] == 'o' && "ease_out_expo"@[11] == 'p');
    assert("ease_out_circ"@.len() == 13 && "ease_out_circ"@[5] == 'o' && "ease_out_circ"@[11] == 'r');
    assert("ease_out_cubic"@.len() == 14 && "ease_out_cubic"@[11] == 'b');
    assert("ease_out_quart"@.len() == 14 && "ease_out_quart"@[11] == 'a');
    assert("ease_out_quint"@.len() == 14 && "ease_out_quint"@[11] == 'i');
    assert("ease_in_out_sine"@.len() == 16 && "ease_in_out_sine"@[12] == 's');
    assert("ease_in_out_quad"@.len() == 16 && "ease_in_out_quad"@[12] == 'q');
    assert("ease_in_out_expo"@.len() == 16 && "ease_in_out_expo"@[12] == 'e');
    assert("ease_in_out_circ"@.len() == 16 && "ease_in_out_circ"@[12] == 'c');
    assert("ease_in_out_cubic"@.len() == 17 && "ease_in_out_cubic"@[14] == 'b');
    assert("ease_in_out_quart"@.len() == 17 && "ease_in_out_quart"@[14] == 'a');
    assert("ease_in_out_quint"@.len() == 17 && "ease_in_out_quint"@[14] == 'i');
}

/// The command is one for the layout.
pub open spec fn is_layout(r: Result<RiftCommand, Seq<char>>, command: LayoutCommand) -> bool {
    r matches Ok(RiftCommand::Reactor(Command::Layout(c))) && c == command
}

/// The command is one for the reactor itself.
pub open spec fn is_reactor(r: Result<RiftCommand, Seq<char>>, command: ReactorCommand) -> bool {
    r matches Ok(RiftCommand::Reactor(Command::Reactor(c))) && c == command
}

/// Each window command becomes the layout command that does what it says, with
/// what it says; to close a window goes to the reactor.
pub proof fn law_window_commands_do_what_they_say(cmd: WindowCommands)
    ensures
        cmd is Next ==> is_layout(window_mapped(cmd), LayoutCommand::NextWindow),
        cmd is Prev ==> is_layout(window_mapped(cmd), LayoutCommand::PrevWindow),
        cmd matches WindowCommands::Focus { direction } ==> is_layout(
            window_mapped(cmd),
            LayoutCommand::MoveFocus(DirectionName(direction)),
        ),
        cmd is ToggleFloat ==> is_layout(window_mapped(cmd), LayoutCommand::ToggleWindowFloating),
        cmd is ToggleFullscreen ==> is_layout(window_mapped(cmd), LayoutCommand::ToggleFullscreen),
        cmd is ToggleFullscreenWithinGaps ==> is_layout(
            window_mapped(cmd),
            LayoutCommand::ToggleFullscreenWithinGaps,
        ),
        cmd is ResizeGrow ==> is_layout(window_mapped(cmd), LayoutCommand::ResizeWindowGrow),
        cmd is ResizeShrink ==> is_layout(window_mapped(cmd), LayoutCommand::ResizeWindowShrink),
        cmd matches WindowCommands::ResizeBy { amount } ==> is_layout(
            window_mapped(cmd),
            LayoutCommand::ResizeWindowBy { amount },
        ),
        cmd matches WindowCommands::Close { window_id } ==> match window_named(trimmed(window_id@)) {
            Ok(id) => is_reactor(
                window_mapped(cmd),
                ReactorCommand::CloseWindow { window_server_id: Some(id) },
            ),
            Err(message) => window_mapped(cmd) == Err::<RiftCommand, Seq<char>>(message),
        },
{
}

/// Each workspace command becomes the layout command that does what it says,
/// with what it says.
pub proof fn law_workspace_commands_do_what_they_say(cmd: WorkspaceCommands)
    ensures
        ({
            let r = Ok::<RiftCommand, Seq<char>>(workspace_mapped(cmd));
            &&& cmd matches WorkspaceCommands::Next { skip_empty } ==> is_layout(
                r,
                LayoutCommand::NextWorkspace(skip_empty),
            )
            &&& cmd matches WorkspaceCommands::Prev { skip_empty } ==> is_layout(
                r,
                LayoutCommand::PrevWorkspace(skip_empty),
            )
            &&& cmd matches WorkspaceCommands::Switch { workspace_id } ==> is_layout(
                r,
                LayoutCommand::SwitchToWorkspace(workspace_id),
            )
            &&& cmd matches WorkspaceCommands::MoveWindow { workspace_id, window_id } ==> is_layout(
                r,
                LayoutCommand::MoveWindowToWorkspace { workspace: workspace_id, window_id },
            )
            &&& cmd is Create ==> is_layout(r, LayoutCommand::CreateWorkspace)
            &&& cmd is Last ==> is_layout(r, LayoutCommand::SwitchToLastWorkspace)
        }),
{
}

/// Each layout command becomes the one of the layout engine that does what it
/// says, in the direction that it says.
pub proof fn law_layout_commands_do_what_they_say(cmd: LayoutCommands)
    ensures
        ({
            let r = Ok::<RiftCommand, Seq<char>>(layout_mapped(cmd));
            &&& cmd is Ascend ==> is_layout(r, LayoutCommand::Ascend)
            &&& cmd is Descend ==> is_layout(r, LayoutCommand::Descend)
            &&& cmd matches LayoutCommands::MoveNode { direction } ==> is_layout(
                r,
                LayoutCommand::MoveNode(DirectionName(direction)),
            )
            &&& cmd matches LayoutCommands::JoinWindow { direction } ==> is_layout(
                r,
                LayoutCommand::JoinWindow(DirectionName(direction)),
            )
            &&& cmd is ToggleStack ==> is_layout(r, LayoutCommand::ToggleStack)
            &&& cmd is ToggleOrientation ==> is_layout(r, LayoutCommand::ToggleOrientation)
            &&& cmd is Unjoin ==> is_layout(r, LayoutCommand::UnjoinWindows)
            &&& cmd is ToggleFocusFloat ==> is_layout(r, LayoutCommand::ToggleFocusFloating)
        }),
{
}

/// Each Mission Control command becomes the one of the reactor that does what it
/// says.
pub proof fn law_mission_control_commands_do_what_they_say(cmd: MissionControlCommands)
    ensures
        ({
            let r = Ok::<RiftCommand, Seq<char>>(mission_control_mapped(cmd));
            &&& cmd is ShowAll ==> is_reactor(r, ReactorCommand::ShowMissionControlAll)
            &&& cmd is ShowCurrent ==> is_reactor(r, ReactorCommand::ShowMissionControlCurrent)
            &&& cmd is Dismiss ==> is_reactor(r, ReactorCommand::DismissMissionControl)
        }),
{
}

/// A display is named by the direction, the index or the identifier that is
/// given, where it is the only one; a direction is read without the white
/// characters at its ends and whatever the case of its letters.
pub proof fn law_displays_are_named_as_given(direction: Option<String>, index: Option<usize>, uuid: Option<String>)
    ensures
        match (direction, index, uuid) {
            (Some(word), None, None) => match direction_named(ascii_lowercase(trimmed(word@))) {
                Ok(toward) => display_named(direction, index, uuid) == Ok::<DisplaySelector, Seq<char>>(
                    DisplaySelector::Direction(toward),
                ),
                Err(message) => display_named(direction, index, uuid) == Err::<DisplaySelector, Seq<char>>(message),
            },
            (None, Some(place), None) => display_named(direction, index, uuid) == Ok::<DisplaySelector, Seq<char>>(
                DisplaySelector::Index(place),
            ),
            (None, None, Some(id)) => display_named(direction, index, uuid) == Ok::<DisplaySelector, Seq<char>>(
                DisplaySelector::Uuid(id),
            ),
            _ => display_named(direction, index, uuid) == Err::<DisplaySelector, Seq<char>>(
                "display selection requires exactly one of --direction, --index, or --uuid"@,
            ),
        },
{
}

/// A display command goes to the reactor for the display that is named: the
/// focus, the cursor or a window, as it says.
pub proof fn law_display_commands_do_what_they_say(cmd: DisplayCommands)
    ensures
        cmd matches DisplayCommands::Focus { direction, index, uuid } ==> match display_named(direction, index, uuid) {
            Ok(selector) => is_reactor(display_mapped(cmd), ReactorCommand::FocusDisplay(selector)),
            Err(message) => display_mapped(cmd) == Err::<RiftCommand, Seq<char>>(message),
        },
        cmd matches DisplayCommands::MoveMouseToIndex { index } ==> is_reactor(
            display_mapped(cmd),
            ReactorCommand::MoveMouseToDisplay(DisplaySelector::Index(index)),
        ),
        cmd matches DisplayCommands::MoveMouseToUuid { uuid } ==> is_reactor(
            display_mapped(cmd),
            ReactorCommand::MoveMouseToDisplay(DisplaySelector::Uuid(uuid)),
        ),
        cmd matches DisplayCommands::MoveWindow { direction, index, uuid, window_id } ==> match display_named(
            direction,
            index,
            uuid,
        ) {
            Ok(selector) => is_reactor(
                display_mapped(cmd),
                ReactorCommand::MoveWindowToDisplay { selector, window_id },
            ),
            Err(message) => display_mapped(cmd) == Err::<RiftCommand, Seq<char>>(message),
        },
{
}

/// Each configuration command sets what it names to the value that it gives, or
/// asks for what it names. A word that turns a setting on or off and the name of
/// an easing are refused where they are not known, and told of. A key is set to
/// its value read as JSON, where that works, and else to the text.
pub proof fn law_config_commands_do_what_they_say(
    cmd: ConfigCommands,
    lowered: Seq<char>,
    parsed: Option<serde_json::Value>,
    r: Result<ConfigCommand, String>,
)
    requires
        config_mapped(cmd, lowered, parsed, r),
    ensures
        cmd matches ConfigCommands::SetAnimate { value } ==> {
            &&& switch_named(lowered) matches Some(on) ==> (r matches Ok(ConfigCommand::SetAnimate(set)) && set == on)
            &&& switch_named(lowered) is None ==> (r matches Err(message) && message@ == "Invalid boolean value: "@
                + value@ + ". Use true/false"@)
        },
        cmd matches ConfigCommands::SetAnimationEasing { value } ==> {
            &&& easing_named(value@) matches Some(easing) ==> (r matches Ok(ConfigCommand::SetAnimationEasing(set))
                && set == easing)
            &&& easing_named(value@) is None ==> (r matches Err(message) && message@ == "Invalid animation easing: "@
                + value@)
        },
        cmd matches ConfigCommands::SetAnimationDuration { value } ==> (r matches Ok(
            ConfigCommand::SetAnimationDuration(set),
        ) && set == value),
        cmd matches ConfigCommands::SetAnimationFps { value } ==> (r matches Ok(ConfigCommand::SetAnimationFps(set))
            && set == value),
        cmd matches ConfigCommands::SetMouseFollowsFocus { value } ==> (r matches Ok(
            ConfigCommand::SetMouseFollowsFocus(set),
        ) && set == value),
        cmd matches ConfigCommands::SetMouseHidesOnFocus { value } ==> (r matches Ok(
            ConfigCommand::SetMouseHidesOnFocus(set),
        ) && set == value),
        cmd matches ConfigCommands::SetFocusFollowsMouse { value } ==> (r matches Ok(
            ConfigCommand::SetFocusFollowsMouse(set),
        ) && set == value),
        cmd matches ConfigCommands::SetStackOffset { value } ==> (r matches Ok(ConfigCommand::SetStackOffset(set))
            && set == value),
        cmd matches ConfigCommands::SetOuterGaps { top, left, bottom, right } ==> (r matches Ok(
            ConfigCommand::SetOuterGaps { top: t, left: l, bottom: b, right: g },
        ) && t == top && l == left && b == bottom && g == right),
        cmd matches ConfigCommands::SetInnerGaps { horizontal, vertical } ==> (r matches Ok(
            ConfigCommand::SetInnerGaps { horizontal: h, vertical: v },
        ) && h == horizontal && v == vertical),
        cmd matches ConfigCommands::SetWorkspaceNames { names } ==> (r matches Ok(
            ConfigCommand::SetWorkspaceNames(set),
        ) && set == names),
        cmd matches ConfigCommands::SetStackDefaultOrientation { value } ==> (r matches Ok(
            ConfigCommand::SetKey { key, value: set },
        ) && key@ == "settings.layout.stack.default_orientation"@ && set == json_string(value@)),
        cmd matches ConfigCommands::SetKey { key, value } ==> (r matches Ok(
            ConfigCommand::SetKey { key: k, value: set },
        ) && k@ == key@ && {
            &&& parsed matches Some(json) ==> set == json
            &&& parsed is None ==> set == json_string(value@)
        }),
        cmd is Get ==> r == Ok::<ConfigCommand, String>(ConfigCommand::GetConfig),
        cmd is Save ==> r == Ok::<ConfigCommand, String>(ConfigCommand::SaveConfig),
        cmd is Reload ==> r == Ok::<ConfigCommand, String>(ConfigCommand::ReloadConfig),
{
}

/// What a configuration command is read with: the word of the animation switch
/// in lower case, and the value of a key as JSON. What becomes of it goes to the
/// server as a command about the settings.
pub proof fn law_config_words_are_read(
    cmd: ConfigCommands,
    r: Result<RiftCommand, String>,
    mapped: Result<ConfigCommand, String>,
)
    ensures
        cmd matches ConfigCommands::SetAnimate { value } ==> lowered_word(cmd) == lowercase(value@),
        cmd matches ConfigCommands::SetKey { key, value } ==> parsed_value(cmd) == json_value(value@),
        is_config(r, mapped) <==> match mapped {
            Ok(command) => r matches Ok(RiftCommand::Config(c)) && c == command,
            Err(message) => r matches Err(m) && m == message,
        },
{
}

/// Each query asks for what it names, of the space or the window that it names.
pub proof fn law_queries_ask_for_what_they_name(query: QueryCommands)
    ensures
        query matches QueryCommands::Workspaces { space_id } ==> query_request(query) == (RiftRequest::GetWorkspaces {
            space_id,
        }),
        query matches QueryCommands::Windows { space_id } ==> query_request(query) == (RiftRequest::GetWindows {
            space_id,
        }),
        query matches QueryCommands::Window { window_id } ==> query_request(query) == (RiftRequest::GetWindowInfo {
            window_id,
        }),
        query matches QueryCommands::Layout { space_id } ==> query_request(query) == (RiftRequest::GetLayoutState {
            space_id,
        }),
        query is Displays <==> query_request(query) is GetDisplays,
        query is Applications <==> query_request(query) is GetApplications,
        query is Metrics <==> query_request(query) is GetMetrics,
{
}

/// Each subscription command asks for what it names: to subscribe or to give up
/// a subscription, by messages or by a command of its own, to the event that it
/// names.
pub proof fn law_subscriptions_ask_for_what_they_name(subscribe: SubscribeCommands)
    ensures
        subscribe matches SubscribeCommands::Mach { event } ==> subscribe_request(subscribe) == (
        RiftRequest::Subscribe { event }),
        subscribe matches SubscribeCommands::Cli { event, command, args } ==> subscribe_request(subscribe) == (
        RiftRequest::SubscribeCli { event, command, args }),
        subscribe matches SubscribeCommands::UnsubMach { event } ==> subscribe_request(subscribe) == (
        RiftRequest::Unsubscribe { event }),
        subscribe matches SubscribeCommands::UnsubCli { event } ==> subscribe_request(subscribe) == (
        RiftRequest::UnsubscribeCli { event }),
        subscribe is ListCli <==> subscribe_request(subscribe) is ListCliSubscriptions,
{
}

/// A command to be executed becomes what its own kind of command becomes; to
/// save and exit goes to the reactor, and to show the timing to the metrics. It
/// is prepared as it is, and refused with the same message.
pub proof fn law_executed_commands_go_by_their_kind(
    execute: ExecuteCommands,
    mapped: Result<RiftCommand, String>,
    r: Result<Prepared, String>,
)
    requires
        execute_mapped(execute, mapped),
        is_prepared(r, mapped),
    ensures
        execute matches ExecuteCommands::Window { window_cmd } ==> outcome(mapped) == window_mapped(window_cmd),
        execute matches ExecuteCommands::Workspace { workspace_cmd } ==> (mapped matches Ok(command) && command
            == workspace_mapped(workspace_cmd)),
        execute matches ExecuteCommands::Layout { layout_cmd } ==> (mapped matches Ok(command) && command
            == layout_mapped(layout_cmd)),
        execute matches ExecuteCommands::MissionControl { mission_cmd } ==> (mapped matches Ok(command) && command
            == mission_control_mapped(mission_cmd)),
        execute matches ExecuteCommands::Display { display_cmd } ==> outcome(mapped) == display_mapped(display_cmd),
        execute matches ExecuteCommands::Config { config_cmd } ==> exists|config: Result<ConfigCommand, String>|
            #[trigger] config_mapped(config_cmd, lowered_word(config_cmd), parsed_value(config_cmd), config)
                && is_config(mapped, config),
        execute is SaveAndExit ==> is_reactor(outcome(mapped), ReactorCommand::SaveAndExit),
        execute is ShowTiming ==> (mapped matches Ok(RiftCommand::Reactor(Command::Metrics(command))) && command
            == MetricsCommand::ShowTiming),
        mapped matches Err(message) ==> (r matches Err(m) && m == message),
        mapped matches Ok(command) ==> {
            &&& command == RiftCommand::Config(ConfigCommand::GetConfig) ==> (r matches Ok(
                Prepared::Request(request),
            ) && request == RiftRequest::GetConfig)
            &&& command != RiftCommand::Config(ConfigCommand::GetConfig) ==> (r matches Ok(Prepared::Command(c)) && c
                == command)
        },
        outcome(mapped) is Err <==> mapped is Err,
        mapped matches Err(message) ==> outcome(mapped) == Err::<RiftCommand, Seq<char>>(message@),
        mapped matches Ok(command) ==> outcome(mapped) == Ok::<RiftCommand, Seq<char>>(command),
{
}

/// The texts of a list are those of its items, one for one.
pub proof fn law_texts_are_those_of_the_items(list: Seq<String>, i: int)
    requires
        0 <= i < list.len(),
    ensures
        texts(list).len() == list.len(),
        texts(list)[i] == list[i]@,
{
}

/// A window is named by a hexadecimal number after its mark, or else by a
/// decimal one. A text that is empty or is no such number is refused, and told
/// of.
pub proof fn law_windows_are_named_by_number(text: Seq<char>)
    ensures
        text.len() == 0 ==> window_named(text) == Err::<WindowServerId, Seq<char>>(
            "window_server_id cannot be empty"@,
        ),
        has_hex_mark(text) <==> text.len() >= 2 && text.take(2) == seq!['0', 'x'],
        has_hex_mark(text) ==> match number(without_hex_marks(text), 16) {
            Some(id) => window_named(text) == Ok::<WindowServerId, Seq<char>>(WindowServerId(id)),
            None => window_named(text) == Err::<WindowServerId, Seq<char>>(
                "Invalid hexadecimal window server id: "@ + text,
            ),
        },
        text.len() > 0 && !has_hex_mark(text) ==> match number(text, 10) {
            Some(id) => window_named(text) == Ok::<WindowServerId, Seq<char>>(WindowServerId(id)),
            None => window_named(text) == Err::<WindowServerId, Seq<char>>("Invalid window server id: "@ + text),
        },
        without_hex_marks(seq!['0', 'x'] + text) == without_hex_marks(text),
        !has_hex_mark(text) ==> without_hex_marks(text) == text,
        !has_hex_mark(without_hex_marks(text)),
    decreases text.len(),
{
    let marked = seq!['0', 'x'] + text;
    assert(has_hex_mark(marked));
    assert(marked.skip(2) =~= text);
    if has_hex_mark(text) {
        assert(text.take(2) =~= seq!['0', 'x']);
        law_windows_are_named_by_number(text.skip(2));
    }
    if text.len() >= 2 && text.take(2) == seq!['0', 'x'] {
        assert(text.take(2)[0] == '0' && text.take(2)[1] == 'x');
    }
}

/// A digit counts by its place in the row of digits, letters after numerals,
/// whatever their case; nothing else is a digit, and none is as large as the
/// radix.
pub proof fn law_digits_have_their_value(c: char, radix: int)
    requires
        2 <= radix <= 36,
    ensures
        '0' <= c && c <= '9' ==> (digit_value(c, radix) matches Some(v) <==> c as int - 48 < radix),
        '0' <= c && c <= '9' ==> (digit_value(c, radix) matches Some(v) ==> v == c as int - 48),
        'a' <= c && c <= 'z' ==> (digit_value(c, radix) matches Some(v) <==> c as int - 87 < radix),
        'a' <= c && c <= 'z' ==> (digit_value(c, radix) matches Some(v) ==> v == c as int - 87),
        'A' <= c && c <= 'Z' ==> (digit_value(c, radix) matches Some(v) <==> c as int - 55 < radix),
        'A' <= c && c <= 'Z' ==> (digit_value(c, radix) matches Some(v) ==> v == c as int - 55),
        !('0' <= c && c <= '9') && !('a' <= c && c <= 'z') && !('A' <= c && c <= 'Z') ==> digit_value(c, radix) is None,
{
}

/// A digit that is added makes what stands before it larger by the radix, and is
/// added itself. A number is what its digits stand for, after a plus sign if
/// there is one; it has at least one digit, and fits into 32 bits.
pub proof fn law_numbers_are_what_their_digits_stand_for(text: Seq<char>, digits: Seq<char>, c: char, radix: int)
    requires
        2 <= radix <= 36,
    ensures
        digits_value(Seq::empty(), radix) == Some(0int),
        digits_value(digits.push(c), radix) is Some <==> digits_value(digits, radix) is Some && digit_value(
            c,
            radix,
        ) is Some,
        digits_value(digits.push(c), radix) is Some ==> digits_value(digits.push(c), radix)->0 == digits_value(
            digits,
            radix,
        )->0 * radix + digit_value(c, radix)->0,
        number(Seq::empty(), radix) is None,
        number(seq!['+'] + digits, radix) == (if digits.len() == 0 {
            None
        } else {
            match digits_value(digits, radix) {
                Some(value) if value <= 0xffff_ffff => Some(value as u32),
                _ => None,
            }
        }),
        digits.len() > 0 && digits[0] != '+' ==> number(digits, radix) == number(seq!['+'] + digits, radix),
{
    assert(digits.push(c).drop_last() =~= digits);
    assert((seq!['+'] + digits).drop_first() =~= digits);
    assert(without_plus(seq!['+'] + digits) =~= digits);
}

/// A text without white characters at its ends stays as it is.
pub proof fn law_text_without_white_ends_stays(text: Seq<char>)
    ensures
        text.len() == 0 || (!is_white(text[0]) && !is_white(text.last())) ==> trimmed(text) == text,
{
}

/// The characters that are white are the tabs, line ends and spaces of Unicode.
pub proof fn law_white_characters(c: char)
    ensures
        is_white(c) <==> seq![
            0x9u32, 0xa, 0xb, 0xc, 0xd, 0x20, 0x85, 0xa0, 0x1680, 0x2000, 0x2001, 0x2002, 0x2003, 0x2004, 0x2005,
            0x2006, 0x2007, 0x2008, 0x2009, 0x200a, 0x2028, 0x2029, 0x202f, 0x205f, 0x3000,
        ].contains(c as u32),
{
    let codes = seq![
        0x9u32, 0xa, 0xb, 0xc, 0xd, 0x20, 0x85, 0xa0, 0x1680, 0x2000, 0x2001, 0x2002, 0x2003, 0x2004, 0x2005,
        0x2006, 0x2007, 0x2008, 0x2009, 0x200a, 0x2028, 0x2029, 0x202f, 0x205f, 0x3000,
    ];
    assert(codes[0] == 0x9 && codes[1] == 0xa && codes[2] == 0xb && codes[3] == 0xc && codes[4] == 0xd);
    assert(codes[5] == 0x20 && codes[6] == 0x85 && codes[7] == 0xa0 && codes[8] == 0x1680);
    assert(codes[9] == 0x2000 && codes[10] == 0x2001 && codes[11] == 0x2002 && codes[12] == 0x2003);
    assert(codes[13] == 0x2004 && codes[14] == 0x2005 && codes[15] == 0x2006 && codes[16] == 0x2007);
    assert(codes[17] == 0x2008 && codes[18] == 0x2009 && codes[19] == 0x200a && codes[20] == 0x2028);
    assert(codes[21] == 0x2029 && codes[22] == 0x202f && codes[23] == 0x205f && codes[24] == 0x3000);
}

/// The capital letters of ASCII become their small letters, in order, and every
/// other character stays; so a text keeps its length.
pub proof fn law_capitals_become_small(text: Seq<char>, i: int)
    requires
        0 <= i < text.len(),
    ensures
        ascii_lowercase(text).len() == text.len(),
        0x41 <= text[i] as u32 <= 0x5a ==> ascii_lowercase(text)[i] as u32 == text[i] as u32 + 0x20,
        !(0x41 <= text[i] as u32 <= 0x5a) ==> ascii_lowercase(text)[i] == text[i],
{
}

} // verus!
