use rift_wm::cli::mapping::{
    build_display_selector, config_command, map_config_command, map_display_command, map_layout_command,
    map_mission_control_command, map_window_command, map_workspace_command, parse_easing, parse_focus_direction,
    parse_switch, parse_window_number, parse_window_server_id,
};
use rift_wm::cli::request::{
    build_execute_request, build_query_request, build_request, build_subscribe_request, frame_command,
};
use rift_wm::cli::{
    AnimationEasing, Commands, ConfigCommand, ConfigCommands, DisplayCommands, ExecuteCommands, LayoutCommands,
    MissionControlCommands, Prepared, QueryCommands, RiftCommand, RiftRequest, ServiceCommands, SubscribeCommands,
    WindowCommands, WorkspaceCommands,
};
use rift_wm::command::{
    Command, Direction, DirectionName, DisplaySelector, LayoutCommand, MetricsCommand, ReactorCommand,
};
use rift_wm::geometry::Scalar;
use rift_wm::ids::WindowServerId;
use rift_wm::text::{parse_number, strip_hex_marks, text_is, trim};
use serde_json::Value;

fn text(s: &str) -> String {
    s.to_string()
}

fn double(x: f64) -> Scalar {
    Scalar(x.to_bits())
}

fn layout(command: LayoutCommand) -> Result<RiftCommand, String> {
    Ok(RiftCommand::Reactor(Command::Layout(command)))
}

fn reactor(command: ReactorCommand) -> Result<RiftCommand, String> {
    Ok(RiftCommand::Reactor(Command::Reactor(command)))
}

fn config(command: ConfigCommand) -> Result<RiftCommand, String> {
    Ok(RiftCommand::Config(command))
}

#[test]
fn trims_all_white_space() {
    assert_eq!(trim("  a b\t\n"), "a b");
    assert_eq!(trim("\u{a0}\u{3000}x\u{2028}\u{85}"), "x");
    assert_eq!(trim(" \t "), "");
    assert_eq!(trim(""), "");
    assert_eq!(trim("\u{200b}x"), "\u{200b}x");
}

#[test]
fn white_characters_are_those_of_unicode() {
    for c in '\0'..=char::MAX {
        let white = matches!(
            c,
            '\u{9}'..='\u{d}'
                | ' '
                | '\u{85}'
                | '\u{a0}'
                | '\u{1680}'
                | '\u{2000}'..='\u{200a}'
                | '\u{2028}'
                | '\u{2029}'
                | '\u{202f}'
                | '\u{205f}'
                | '\u{3000}'
        );
        assert_eq!(c.is_whitespace(), white, "{:?}", c);
    }
}

#[test]
fn ascii_texts_are_lowered_letter_by_letter() {
    for c in '\0'..='\u{7f}' {
        let text = format!("{}{}", c, c);
        assert_eq!(text.to_lowercase(), text.to_ascii_lowercase());
    }
}

#[test]
fn compares_texts() {
    assert!(text_is("on", "on"));
    assert!(!text_is("on", "On"));
    assert!(!text_is("on", "only"));
}

#[test]
fn reads_numbers() {
    assert_eq!(parse_number("0", 10), Some(0));
    assert_eq!(parse_number("+17", 10), Some(17));
    assert_eq!(parse_number("4294967295", 10), Some(u32::MAX));
    assert_eq!(parse_number("4294967296", 10), None);
    assert_eq!(parse_number("00000000000000000000012", 10), Some(12));
    assert_eq!(parse_number("99999999999999999999999", 10), None);
    assert_eq!(parse_number("", 10), None);
    assert_eq!(parse_number("+", 10), None);
    assert_eq!(parse_number("-1", 10), None);
    assert_eq!(parse_number("1_000", 10), None);
    assert_eq!(parse_number("12a", 10), None);
    assert_eq!(parse_number("1F", 16), Some(31));
    assert_eq!(parse_number("ffffffff", 16), Some(u32::MAX));
    assert_eq!(parse_number("100000000", 16), None);
    assert_eq!(parse_number("g", 16), None);
    assert_eq!(parse_number("z", 36), Some(35));
}

#[test]
fn reads_numbers_as_the_standard_library_does() {
    for s in ["", "+", "-", "++1", "+1", "1", "007", "4294967295", "4294967296", " 1", "1 ", "0x1", "é", "１"] {
        assert_eq!(parse_number(s, 10), s.parse().ok(), "{:?}", s);
        assert_eq!(parse_number(s, 16), u32::from_str_radix(s, 16).ok(), "{:?}", s);
    }
}

#[test]
fn strips_hexadecimal_marks() {
    assert_eq!(strip_hex_marks("0x1f"), "1f");
    assert_eq!(strip_hex_marks("0x0x1f"), "1f");
    assert_eq!(strip_hex_marks("0X1f"), "0X1f");
    assert_eq!(strip_hex_marks("0x"), "");
    assert_eq!(strip_hex_marks("00x1"), "00x1");
}

#[test]
fn reads_window_ids() {
    assert_eq!(parse_window_server_id("42"), Ok(WindowServerId(42)));
    assert_eq!(parse_window_server_id(" 42\n"), Ok(WindowServerId(42)));
    assert_eq!(parse_window_server_id("0x2A"), Ok(WindowServerId(42)));
    assert_eq!(parse_window_server_id("0x0x2a"), Ok(WindowServerId(42)));
    assert_eq!(parse_window_number("7"), Ok(WindowServerId(7)));
}

#[test]
fn empty_window_ids_are_refused() {
    assert_eq!(parse_window_server_id(""), Err(text("window_server_id cannot be empty")));
    assert_eq!(parse_window_server_id(" \t"), Err(text("window_server_id cannot be empty")));
}

#[test]
fn bad_window_ids_are_refused() {
    assert_eq!(parse_window_server_id(" abc "), Err(text("Invalid window server id: abc")));
    assert_eq!(parse_window_server_id("-3"), Err(text("Invalid window server id: -3")));
    assert_eq!(parse_window_server_id("4294967296"), Err(text("Invalid window server id: 4294967296")));
    assert_eq!(parse_window_server_id("0X2A"), Err(text("Invalid window server id: 0X2A")));
}

#[test]
fn bad_hexadecimal_window_ids_are_refused() {
    assert_eq!(parse_window_server_id("0x"), Err(text("Invalid hexadecimal window server id: 0x")));
    assert_eq!(parse_window_server_id("0xzz"), Err(text("Invalid hexadecimal window server id: 0xzz")));
    assert_eq!(
        parse_window_server_id(" 0x100000000 "),
        Err(text("Invalid hexadecimal window server id: 0x100000000"))
    );
}

#[test]
fn window_numbers_are_read_back() {
    for n in [0u32, 1, 9, 10, 15, 16, 255, 65536, u32::MAX] {
        assert_eq!(parse_window_server_id(&format!("{}", n)), Ok(WindowServerId(n)));
        assert_eq!(parse_window_server_id(&format!("0x{:x}", n)), Ok(WindowServerId(n)));
    }
}

#[test]
fn reads_directions() {
    assert_eq!(parse_focus_direction("left"), Ok(Direction::Left));
    assert_eq!(parse_focus_direction(" RIGHT "), Ok(Direction::Right));
    assert_eq!(parse_focus_direction("Up"), Ok(Direction::Up));
    assert_eq!(parse_focus_direction("dOwN\n"), Ok(Direction::Down));
}

#[test]
fn unknown_directions_are_refused_in_lower_case() {
    assert_eq!(
        parse_focus_direction(" Sideways "),
        Err(text("Invalid focus direction 'sideways'; must be left, right, up, or down"))
    );
    assert_eq!(
        parse_focus_direction("LÉFT"),
        Err(text("Invalid focus direction 'lÉft'; must be left, right, up, or down"))
    );
}

#[test]
fn displays_are_named_one_way() {
    let message = text("display selection requires exactly one of --direction, --index, or --uuid");
    assert_eq!(
        build_display_selector(Some(text("up")), None, None),
        Ok(DisplaySelector::Direction(Direction::Up))
    );
    assert_eq!(build_display_selector(None, Some(2), None), Ok(DisplaySelector::Index(2)));
    assert_eq!(build_display_selector(None, None, Some(text("id"))), Ok(DisplaySelector::Uuid(text("id"))));
    assert_eq!(build_display_selector(None, None, None), Err(message.clone()));
    assert_eq!(build_display_selector(Some(text("up")), Some(0), None), Err(message.clone()));
    assert_eq!(build_display_selector(None, Some(0), Some(text("id"))), Err(message.clone()));
    assert_eq!(build_display_selector(Some(text("up")), Some(0), Some(text("id"))), Err(message));
    assert_eq!(
        build_display_selector(Some(text("in")), None, None),
        Err(text("Invalid focus direction 'in'; must be left, right, up, or down"))
    );
}

#[test]
fn window_commands_are_mapped() {
    assert_eq!(map_window_command(WindowCommands::Next), layout(LayoutCommand::NextWindow));
    assert_eq!(map_window_command(WindowCommands::Prev), layout(LayoutCommand::PrevWindow));
    assert_eq!(
        map_window_command(WindowCommands::Focus { direction: text("left") }),
        layout(LayoutCommand::MoveFocus(DirectionName(text("left"))))
    );
    assert_eq!(map_window_command(WindowCommands::ToggleFloat), layout(LayoutCommand::ToggleWindowFloating));
    assert_eq!(map_window_command(WindowCommands::ToggleFullscreen), layout(LayoutCommand::ToggleFullscreen));
    assert_eq!(
        map_window_command(WindowCommands::ToggleFullscreenWithinGaps),
        layout(LayoutCommand::ToggleFullscreenWithinGaps)
    );
    assert_eq!(map_window_command(WindowCommands::ResizeGrow), layout(LayoutCommand::ResizeWindowGrow));
    assert_eq!(map_window_command(WindowCommands::ResizeShrink), layout(LayoutCommand::ResizeWindowShrink));
    assert_eq!(
        map_window_command(WindowCommands::ResizeBy { amount: double(-0.1) }),
        layout(LayoutCommand::ResizeWindowBy { amount: double(-0.1) })
    );
    assert_eq!(
        map_window_command(WindowCommands::Close { window_id: text("0x10") }),
        reactor(ReactorCommand::CloseWindow { window_server_id: Some(WindowServerId(16)) })
    );
    assert_eq!(
        map_window_command(WindowCommands::Close { window_id: text("x") }),
        Err(text("Invalid window server id: x"))
    );
}

#[test]
fn workspace_commands_are_mapped() {
    assert_eq!(
        map_workspace_command(WorkspaceCommands::Next { skip_empty: Some(true) }),
        layout(LayoutCommand::NextWorkspace(Some(true)))
    );
    assert_eq!(
        map_workspace_command(WorkspaceCommands::Prev { skip_empty: None }),
        layout(LayoutCommand::PrevWorkspace(None))
    );
    assert_eq!(
        map_workspace_command(WorkspaceCommands::Switch { workspace_id: 3 }),
        layout(LayoutCommand::SwitchToWorkspace(3))
    );
    assert_eq!(
        map_workspace_command(WorkspaceCommands::MoveWindow { workspace_id: 1, window_id: Some(9) }),
        layout(LayoutCommand::MoveWindowToWorkspace { workspace: 1, window_id: Some(9) })
    );
    assert_eq!(map_workspace_command(WorkspaceCommands::Create), layout(LayoutCommand::CreateWorkspace));
    assert_eq!(map_workspace_command(WorkspaceCommands::Last), layout(LayoutCommand::SwitchToLastWorkspace));
}

#[test]
fn layout_commands_are_mapped() {
    assert_eq!(map_layout_command(LayoutCommands::Ascend), layout(LayoutCommand::Ascend));
    assert_eq!(map_layout_command(LayoutCommands::Descend), layout(LayoutCommand::Descend));
    assert_eq!(
        map_layout_command(LayoutCommands::MoveNode { direction: text("up") }),
        layout(LayoutCommand::MoveNode(DirectionName(text("up"))))
    );
    assert_eq!(
        map_layout_command(LayoutCommands::JoinWindow { direction: text("down") }),
        layout(LayoutCommand::JoinWindow(DirectionName(text("down"))))
    );
    assert_eq!(map_layout_command(LayoutCommands::ToggleStack), layout(LayoutCommand::ToggleStack));
    assert_eq!(map_layout_command(LayoutCommands::ToggleOrientation), layout(LayoutCommand::ToggleOrientation));
    assert_eq!(map_layout_command(LayoutCommands::Unjoin), layout(LayoutCommand::UnjoinWindows));
    assert_eq!(map_layout_command(LayoutCommands::ToggleFocusFloat), layout(LayoutCommand::ToggleFocusFloating));
}

#[test]
fn mission_control_commands_are_mapped() {
    assert_eq!(
        map_mission_control_command(MissionControlCommands::ShowAll),
        reactor(ReactorCommand::ShowMissionControlAll)
    );
    assert_eq!(
        map_mission_control_command(MissionControlCommands::ShowCurrent),
        reactor(ReactorCommand::ShowMissionControlCurrent)
    );
    assert_eq!(
        map_mission_control_command(MissionControlCommands::Dismiss),
        reactor(ReactorCommand::DismissMissionControl)
    );
}

#[test]
fn display_commands_are_mapped() {
    assert_eq!(
        map_display_command(DisplayCommands::Focus { direction: Some(text("Left")), index: None, uuid: None }),
        reactor(ReactorCommand::FocusDisplay(DisplaySelector::Direction(Direction::Left)))
    );
    assert_eq!(
        map_display_command(DisplayCommands::MoveMouseToIndex { index: 1 }),
        reactor(ReactorCommand::MoveMouseToDisplay(DisplaySelector::Index(1)))
    );
    assert_eq!(
        map_display_command(DisplayCommands::MoveMouseToUuid { uuid: text("u") }),
        reactor(ReactorCommand::MoveMouseToDisplay(DisplaySelector::Uuid(text("u"))))
    );
    assert!(map_display_command(DisplayCommands::Focus { direction: None, index: None, uuid: None }).is_err());
}

#[test]
fn the_window_to_be_moved_comes_through() {
    let left = || DisplaySelector::Direction(Direction::Left);
    for window_id in [None, Some(4), Some(7)] {
        assert_eq!(
            map_display_command(DisplayCommands::MoveWindow {
                direction: Some(text("left")),
                index: None,
                uuid: None,
                window_id
            }),
            reactor(ReactorCommand::MoveWindowToDisplay { selector: left(), window_id })
        );
    }
    assert_eq!(
        map_display_command(DisplayCommands::MoveWindow {
            direction: None,
            index: Some(2),
            uuid: Some(text("u")),
            window_id: Some(7)
        }),
        Err(text("display selection requires exactly one of --direction, --index, or --uuid"))
    );
}

#[test]
fn reads_switches() {
    assert_eq!(parse_switch("true"), Some(true));
    assert_eq!(parse_switch("on"), Some(true));
    assert_eq!(parse_switch("false"), Some(false));
    assert_eq!(parse_switch("off"), Some(false));
    assert_eq!(parse_switch("ON"), None);
    assert_eq!(parse_switch(""), None);
}

#[test]
fn animation_is_switched_in_any_case() {
    assert_eq!(
        map_config_command(ConfigCommands::SetAnimate { value: text("TRUE") }),
        config(ConfigCommand::SetAnimate(true))
    );
    assert_eq!(
        map_config_command(ConfigCommands::SetAnimate { value: text("Off") }),
        config(ConfigCommand::SetAnimate(false))
    );
    assert_eq!(
        map_config_command(ConfigCommands::SetAnimate { value: text("Maybe") }),
        Err(text("Invalid boolean value: Maybe. Use true/false"))
    );
    assert_eq!(
        map_config_command(ConfigCommands::SetAnimate { value: text(" true") }),
        Err(text("Invalid boolean value:  true. Use true/false"))
    );
}

#[test]
fn easings_have_names() {
    let names = [
        ("ease_in_out", AnimationEasing::EaseInOut),
        ("linear", AnimationEasing::Linear),
        ("ease_in_sine", AnimationEasing::EaseInSine),
        ("ease_out_sine", AnimationEasing::EaseOutSine),
        ("ease_in_out_sine", AnimationEasing::EaseInOutSine),
        ("ease_in_quad", AnimationEasing::EaseInQuad),
        ("ease_out_quad", AnimationEasing::EaseOutQuad),
        ("ease_in_out_quad", AnimationEasing::EaseInOutQuad),
        ("ease_in_cubic", AnimationEasing::EaseInCubic),
        ("ease_out_cubic", AnimationEasing::EaseOutCubic),
        ("ease_in_out_cubic", AnimationEasing::EaseInOutCubic),
        ("ease_in_quart", AnimationEasing::EaseInQuart),
        ("ease_out_quart", AnimationEasing::EaseOutQuart),
        ("ease_in_out_quart", AnimationEasing::EaseInOutQuart),
        ("ease_in_quint", AnimationEasing::EaseInQuint),
        ("ease_out_quint", AnimationEasing::EaseOutQuint),
        ("ease_in_out_quint", AnimationEasing::EaseInOutQuint),
        ("ease_in_expo", AnimationEasing::EaseInExpo),
        ("ease_out_expo", AnimationEasing::EaseOutExpo),
        ("ease_in_out_expo", AnimationEasing::EaseInOutExpo),
        ("ease_in_circ", AnimationEasing::EaseInCirc),
        ("ease_out_circ", AnimationEasing::EaseOutCirc),
        ("ease_in_out_circ", AnimationEasing::EaseInOutCirc),
    ];
    for (name, easing) in names {
        assert_eq!(parse_easing(name), Some(easing));
        assert_eq!(
            map_config_command(ConfigCommands::SetAnimationEasing { value: text(name) }),
            config(ConfigCommand::SetAnimationEasing(easing))
        );
    }
    assert_eq!(parse_easing("Linear"), None);
    assert_eq!(
        map_config_command(ConfigCommands::SetAnimationEasing { value: text("bouncy") }),
        Err(text("Invalid animation easing: bouncy"))
    );
}

#[test]
fn plain_settings_are_mapped() {
    assert_eq!(
        map_config_command(ConfigCommands::SetAnimationDuration { value: double(0.3) }),
        config(ConfigCommand::SetAnimationDuration(double(0.3)))
    );
    assert_eq!(
        map_config_command(ConfigCommands::SetAnimationFps { value: double(60.0) }),
        config(ConfigCommand::SetAnimationFps(double(60.0)))
    );
    assert_eq!(
        map_config_command(ConfigCommands::SetMouseFollowsFocus { value: true }),
        config(ConfigCommand::SetMouseFollowsFocus(true))
    );
    assert_eq!(
        map_config_command(ConfigCommands::SetMouseHidesOnFocus { value: false }),
        config(ConfigCommand::SetMouseHidesOnFocus(false))
    );
    assert_eq!(
        map_config_command(ConfigCommands::SetFocusFollowsMouse { value: true }),
        config(ConfigCommand::SetFocusFollowsMouse(true))
    );
    assert_eq!(
        map_config_command(ConfigCommands::SetStackOffset { value: double(8.0) }),
        config(ConfigCommand::SetStackOffset(double(8.0)))
    );
    let (top, left, bottom, right) = (double(1.0), double(2.0), double(3.0), double(4.0));
    assert_eq!(
        map_config_command(ConfigCommands::SetOuterGaps { top, left, bottom, right }),
        config(ConfigCommand::SetOuterGaps { top, left, bottom, right })
    );
    assert_eq!(
        map_config_command(ConfigCommands::SetInnerGaps { horizontal: top, vertical: left }),
        config(ConfigCommand::SetInnerGaps { horizontal: top, vertical: left })
    );
    assert_eq!(
        map_config_command(ConfigCommands::SetWorkspaceNames { names: vec![text("a"), text("b")] }),
        config(ConfigCommand::SetWorkspaceNames(vec![text("a"), text("b")]))
    );
    assert_eq!(map_config_command(ConfigCommands::Get), config(ConfigCommand::GetConfig));
    assert_eq!(map_config_command(ConfigCommands::Save), config(ConfigCommand::SaveConfig));
    assert_eq!(map_config_command(ConfigCommands::Reload), config(ConfigCommand::ReloadConfig));
}

#[test]
fn stack_orientation_is_a_string_setting() {
    assert_eq!(
        map_config_command(ConfigCommands::SetStackDefaultOrientation { value: text("true") }),
        config(ConfigCommand::SetKey {
            key: text("settings.layout.stack.default_orientation"),
            value: Value::String(text("true")),
        })
    );
}

#[test]
fn settings_are_read_as_json() {
    let set = |value: &str| map_config_command(ConfigCommands::SetKey { key: text("k"), value: text(value) });
    let stored = |value: Value| config(ConfigCommand::SetKey { key: text("k"), value });
    assert_eq!(set("true"), stored(Value::Bool(true)));
    assert_eq!(set(" null "), stored(Value::Null));
    assert_eq!(set("12"), stored(Value::from(12)));
    assert_eq!(set("\"twelve\""), stored(Value::String(text("twelve"))));
    assert_eq!(set("[1, false]"), stored(Value::Array(vec![Value::from(1), Value::Bool(false)])));
}

#[test]
fn settings_that_are_not_json_are_strings() {
    let set = |value: &str| map_config_command(ConfigCommands::SetKey { key: text("k"), value: text(value) });
    for value in ["perpendicular", "", "{", "1 2", "True"] {
        assert_eq!(
            set(value),
            config(ConfigCommand::SetKey { key: text("k"), value: Value::String(text(value)) })
        );
    }
}

#[test]
fn config_commands_take_what_was_read() {
    assert_eq!(
        config_command(ConfigCommands::SetAnimate { value: text("X") }, "on", None),
        Ok(ConfigCommand::SetAnimate(true))
    );
    assert_eq!(
        config_command(
            ConfigCommands::SetKey { key: text("k"), value: text("v") },
            "",
            Some(Value::Bool(false))
        ),
        Ok(ConfigCommand::SetKey { key: text("k"), value: Value::Bool(false) })
    );
}

#[test]
fn queries_become_requests() {
    assert_eq!(
        build_query_request(QueryCommands::Workspaces { space_id: Some(3) }),
        Ok(RiftRequest::GetWorkspaces { space_id: Some(3) })
    );
    assert_eq!(
        build_query_request(QueryCommands::Windows { space_id: None }),
        Ok(RiftRequest::GetWindows { space_id: None })
    );
    assert_eq!(build_query_request(QueryCommands::Displays), Ok(RiftRequest::GetDisplays));
    assert_eq!(
        build_query_request(QueryCommands::Window { window_id: text("w") }),
        Ok(RiftRequest::GetWindowInfo { window_id: text("w") })
    );
    assert_eq!(build_query_request(QueryCommands::Applications), Ok(RiftRequest::GetApplications));
    assert_eq!(
        build_query_request(QueryCommands::Layout { space_id: 5 }),
        Ok(RiftRequest::GetLayoutState { space_id: 5 })
    );
    assert_eq!(build_query_request(QueryCommands::Metrics), Ok(RiftRequest::GetMetrics));
}

#[test]
fn subscriptions_become_requests() {
    assert_eq!(
        build_subscribe_request(SubscribeCommands::Mach { event: text("*") }),
        Ok(RiftRequest::Subscribe { event: text("*") })
    );
    assert_eq!(
        build_subscribe_request(SubscribeCommands::Cli {
            event: text("e"),
            command: text("c"),
            args: vec![text("-x")]
        }),
        Ok(RiftRequest::SubscribeCli { event: text("e"), command: text("c"), args: vec![text("-x")] })
    );
    assert_eq!(
        build_subscribe_request(SubscribeCommands::UnsubMach { event: text("e") }),
        Ok(RiftRequest::Unsubscribe { event: text("e") })
    );
    assert_eq!(
        build_subscribe_request(SubscribeCommands::UnsubCli { event: text("e") }),
        Ok(RiftRequest::UnsubscribeCli { event: text("e") })
    );
    assert_eq!(build_subscribe_request(SubscribeCommands::ListCli), Ok(RiftRequest::ListCliSubscriptions));
}

#[test]
fn asking_for_the_settings_is_a_request() {
    assert_eq!(
        build_execute_request(ExecuteCommands::Config { config_cmd: ConfigCommands::Get }),
        Ok(Prepared::Request(RiftRequest::GetConfig))
    );
}

#[test]
fn other_commands_are_written_down() {
    assert_eq!(
        build_execute_request(ExecuteCommands::SaveAndExit),
        Ok(Prepared::Command(RiftCommand::Reactor(Command::Reactor(ReactorCommand::SaveAndExit))))
    );
    assert_eq!(
        build_execute_request(ExecuteCommands::ShowTiming),
        Ok(Prepared::Command(RiftCommand::Reactor(Command::Metrics(MetricsCommand::ShowTiming))))
    );
    assert_eq!(
        build_execute_request(ExecuteCommands::Config { config_cmd: ConfigCommands::Save }),
        Ok(Prepared::Command(RiftCommand::Config(ConfigCommand::SaveConfig)))
    );
    assert_eq!(
        build_execute_request(ExecuteCommands::Workspace { workspace_cmd: WorkspaceCommands::Last }),
        Ok(Prepared::Command(RiftCommand::Reactor(Command::Layout(LayoutCommand::SwitchToLastWorkspace))))
    );
    assert_eq!(
        build_execute_request(ExecuteCommands::Window { window_cmd: WindowCommands::Close { window_id: text("") } }),
        Err(text("window_server_id cannot be empty"))
    );
}

#[test]
fn commands_are_framed() {
    let change = RiftCommand::Config(ConfigCommand::SaveConfig);
    let other = RiftCommand::Reactor(Command::Layout(LayoutCommand::Ascend));
    assert_eq!(
        frame_command(&change, Ok(text("C")), Some(text("S"))),
        Ok(RiftRequest::ExecuteCommand { command: text("C"), args: vec![text("__apply_config__"), text("S")] })
    );
    assert_eq!(
        frame_command(&change, Ok(text("C")), None),
        Ok(RiftRequest::ExecuteCommand { command: text("C"), args: vec![] })
    );
    assert_eq!(
        frame_command(&other, Ok(text("C")), Some(text("S"))),
        Ok(RiftRequest::ExecuteCommand { command: text("C"), args: vec![] })
    );
    assert_eq!(
        frame_command(&other, Err(text("no")), None),
        Err(text("Failed to serialize command: no"))
    );
}

#[test]
fn command_lines_become_requests() {
    assert_eq!(
        build_request(Commands::Query { query: QueryCommands::Displays }),
        Ok(Prepared::Request(RiftRequest::GetDisplays))
    );
    assert_eq!(
        build_request(Commands::Subscribe { subscribe: SubscribeCommands::ListCli }),
        Ok(Prepared::Request(RiftRequest::ListCliSubscriptions))
    );
    assert_eq!(
        build_request(Commands::Execute { command: ExecuteCommands::Layout { layout_cmd: LayoutCommands::Unjoin } }),
        Ok(Prepared::Command(RiftCommand::Reactor(Command::Layout(LayoutCommand::UnjoinWindows))))
    );
    assert_eq!(
        build_request(Commands::Execute {
            command: ExecuteCommands::Config { config_cmd: ConfigCommands::SetAnimate { value: text("oN") } }
        }),
        Ok(Prepared::Command(RiftCommand::Config(ConfigCommand::SetAnimate(true))))
    );
    assert_eq!(
        build_request(Commands::Service { service: ServiceCommands::Start }),
        Err(text("Service commands are handled locally and should not be sent to the rift server."))
    );
}
