//! Which request to the server a command line becomes.
use crate::cli::mapping::{
    ascii_is_lowered, config_mapped, display_mapped, is_config, layout_mapped, lowered_word, map_config_command,
    map_display_command, map_layout_command, map_mission_control_command, map_window_command,
    map_workspace_command, mission_control_mapped, parsed_value, reactor, window_mapped, workspace_mapped,
};
use crate::cli::{
    outcome, Commands, ConfigCommand, ExecuteCommands, Prepared, QueryCommands, RiftCommand,
    RiftRequest, SubscribeCommands,
};
use crate::command::{Command, MetricsCommand, ReactorCommand};
use vstd::prelude::*;

verus! {

/// The request that a query becomes.
pub open spec fn query_request(query: QueryCommands) -> RiftRequest {
    match query {
        QueryCommands::Workspaces { space_id } => RiftRequest::GetWorkspaces { space_id },
        QueryCommands::Windows { space_id } => RiftRequest::GetWindows { space_id },
        QueryCommands::Displays => RiftRequest::GetDisplays,
        QueryCommands::Window { window_id } => RiftRequest::GetWindowInfo { window_id },
        QueryCommands::Applications => RiftRequest::GetApplications,
        QueryCommands::Layout { space_id } => RiftRequest::GetLayoutState { space_id },
        QueryCommands::Metrics => RiftRequest::GetMetrics,
    }
}

/// The request that a subscription becomes.
pub open spec fn subscribe_request(subscribe: SubscribeCommands) -> RiftRequest {
    match subscribe {
        SubscribeCommands::Mach { event } => RiftRequest::Subscribe { event },
        SubscribeCommands::Cli { event, command, args } => RiftRequest::SubscribeCli { event, command, args },
        SubscribeCommands::UnsubMach { event } => RiftRequest::Unsubscribe { event },
        SubscribeCommands::UnsubCli { event } => RiftRequest::UnsubscribeCli { event },
        SubscribeCommands::ListCli => RiftRequest::ListCliSubscriptions,
    }
}

/// `r` is the command that `execute` becomes.
pub open spec fn execute_mapped(execute: ExecuteCommands, r: Result<RiftCommand, String>) -> bool {
    match execute {
        ExecuteCommands::Window { window_cmd } => outcome(r) == window_mapped(window_cmd),
        ExecuteCommands::Workspace { workspace_cmd } => r == Ok::<RiftCommand, String>(
            workspace_mapped(workspace_cmd),
        ),
        ExecuteCommands::Layout { layout_cmd } => r == Ok::<RiftCommand, String>(layout_mapped(layout_cmd)),
        ExecuteCommands::Config { config_cmd } => exists|mapped: Result<ConfigCommand, String>|
            #[trigger] config_mapped(config_cmd, lowered_word(config_cmd), parsed_value(config_cmd), mapped)
                && is_config(r, mapped),
        ExecuteCommands::MissionControl { mission_cmd } => r == Ok::<RiftCommand, String>(
            mission_control_mapped(mission_cmd),
        ),
        ExecuteCommands::Display { display_cmd } => outcome(r) == display_mapped(display_cmd),
        ExecuteCommands::SaveAndExit => r == Ok::<RiftCommand, String>(reactor(ReactorCommand::SaveAndExit)),
        ExecuteCommands::ShowTiming => r == Ok::<RiftCommand, String>(
            RiftCommand::Reactor(Command::Metrics(MetricsCommand::ShowTiming)),
        ),
    }
}

/// `r` is what `mapped` is prepared as: the question for the settings is a
/// request of its own, any other command has to be written down.
pub open spec fn is_prepared(r: Result<Prepared, String>, mapped: Result<RiftCommand, String>) -> bool {
    match mapped {
        Ok(RiftCommand::Config(ConfigCommand::GetConfig)) => r == Ok::<Prepared, String>(
            Prepared::Request(RiftRequest::GetConfig),
        ),
        Ok(command) => r == Ok::<Prepared, String>(Prepared::Command(command)),
        Err(message) => r == Err::<Prepared, String>(message),
    }
}

/// `r` is what `execute` is prepared as.
pub open spec fn execute_prepared(execute: ExecuteCommands, r: Result<Prepared, String>) -> bool {
    exists|mapped: Result<RiftCommand, String>| #[trigger] execute_mapped(execute, mapped) && is_prepared(r, mapped)
}

/// Where `execute` has an ASCII word that is read in lower case, lower case
/// makes its letters `A` to `Z` small and changes nothing else.
pub open spec fn ascii_words_are_lowered(execute: ExecuteCommands) -> bool {
    execute matches ExecuteCommands::Config { config_cmd } ==> ascii_is_lowered(config_cmd)
}

/// The texts of a list.
pub open spec fn texts(list: Seq<String>) -> Seq<Seq<char>> {
    list.map_values(|s: String| s@)
}

pub fn build_query_request(query: QueryCommands) -> (r: Result<RiftRequest, String>)
    ensures
        r == Ok::<RiftRequest, String>(query_request(query)),
{
    match query {
        QueryCommands::Workspaces { space_id } => Ok(RiftRequest::GetWorkspaces { space_id }),
        QueryCommands::Windows { space_id } => Ok(RiftRequest::GetWindows { space_id }),
        QueryCommands::Displays => Ok(RiftRequest::GetDisplays),
        QueryCommands::Window { window_id } => Ok(RiftRequest::GetWindowInfo { window_id }),
        QueryCommands::Applications => Ok(RiftRequest::GetApplications),
        QueryCommands::Layout { space_id } => Ok(RiftRequest::GetLayoutState { space_id }),
        QueryCommands::Metrics => Ok(RiftRequest::GetMetrics),
    }
}

pub fn build_subscribe_request(sub: SubscribeCommands) -> (r: Result<RiftRequest, String>)
    ensures
        r == Ok::<RiftRequest, String>(subscribe_request(sub)),
{
    match sub {
        SubscribeCommands::Mach { event } => Ok(RiftRequest::Subscribe { event }),
        SubscribeCommands::Cli { event, command, args } => Ok(
            RiftRequest::SubscribeCli { event, command, args },
        ),
        SubscribeCommands::UnsubMach { event } => Ok(RiftRequest::Unsubscribe { event }),
        SubscribeCommands::UnsubCli { event } => Ok(RiftRequest::UnsubscribeCli { event }),
        SubscribeCommands::ListCli => Ok(RiftRequest::ListCliSubscriptions),
    }
}

fn map_execute_command(execute: ExecuteCommands) -> (r: Result<RiftCommand, String>)
    ensures
        execute_mapped(execute, r),
        ascii_words_are_lowered(execute),
{
    match execute {
        ExecuteCommands::Window { window_cmd } => map_window_command(window_cmd),
        ExecuteCommands::Workspace { workspace_cmd } => map_workspace_command(workspace_cmd),
        ExecuteCommands::Layout { layout_cmd } => map_layout_command(layout_cmd),
        ExecuteCommands::Config { config_cmd } => map_config_command(config_cmd),
        ExecuteCommands::MissionControl { mission_cmd } => map_mission_control_command(mission_cmd),
        ExecuteCommands::Display { display_cmd } => map_display_command(display_cmd),
        ExecuteCommands::SaveAndExit => Ok(
            RiftCommand::Reactor(Command::Reactor(ReactorCommand::SaveAndExit)),
        ),
        ExecuteCommands::ShowTiming => Ok(
            RiftCommand::Reactor(Command::Metrics(MetricsCommand::ShowTiming)),
        ),
    }
}

/// The request, or the command that has to be written down for it.
pub fn build_execute_request(execute: ExecuteCommands) -> (r: Result<Prepared, String>)
    ensures
        execute_prepared(execute, r),
        ascii_words_are_lowered(execute),
{
    let mapped = map_execute_command(execute);
    let ghost witness = mapped;
    let r: Result<Prepared, String> = match mapped {
        Ok(RiftCommand::Config(ConfigCommand::GetConfig)) => Ok(Prepared::Request(RiftRequest::GetConfig)),
        Ok(command) => Ok(Prepared::Command(command)),
        Err(message) => Err(message),
    };
    assert(execute_mapped(execute, witness) && is_prepared(r, witness));
    r
}

/// The request that carries a command. `command_json` is the command written
/// down, or why that failed; `config_json` is the change of the settings in
/// it, where it is one and could be written down.
pub fn frame_command(
    command: &RiftCommand,
    command_json: Result<String, String>,
    config_json: Option<String>,
) -> (r: Result<RiftRequest, String>)
    ensures
        match command_json {
            Ok(json) => match r {
                Ok(RiftRequest::ExecuteCommand { command: text, args }) => {
                    &&& text == json
                    &&& texts(args@) == match (*command, config_json) {
                        (RiftCommand::Config(_), Some(config)) => seq!["__apply_config__"@, config@],
                        _ => Seq::empty(),
                    }
                },
                _ => false,
            },
            Err(error) => outcome(r) == Err::<RiftRequest, Seq<char>>(
                "Failed to serialize command: "@ + error@,
            ),
        },
{
    let json = match command_json {
        Ok(json) => json,
        Err(error) => return Err("Failed to serialize command: ".to_owned().concat(error.as_str())),
    };
    let mut args: Vec<String> = Vec::new();
    if let RiftCommand::Config(_) = command {
        if let Some(config) = config_json {
            args.push("__apply_config__".to_owned());
            args.push(config);
            proof {
                assert(texts(args@) =~= seq!["__apply_config__"@, config@]);
            }
        }
    }
    proof {
        if args@.len() == 0 {
            assert(texts(args@) =~= Seq::empty());
        }
    }
    Ok(RiftRequest::ExecuteCommand { command: json, args })
}

/// The request that a command line becomes, or the command that has to be
/// written down for it.
pub fn build_request(command: Commands) -> (r: Result<Prepared, String>)
    ensures
        match command {
            Commands::Query { query } => r == Ok::<Prepared, String>(Prepared::Request(query_request(query))),
            Commands::Execute { command } => execute_prepared(command, r) && ascii_words_are_lowered(command),
            Commands::Subscribe { subscribe } => r == Ok::<Prepared, String>(
                Prepared::Request(subscribe_request(subscribe)),
            ),
            Commands::Service { .. } => outcome(r) == Err::<Prepared, Seq<char>>(
                "Service commands are handled locally and should not be sent to the rift server."@,
            ),
        },
{
    match command {
        Commands::Query { query } => match build_query_request(query) {
            Ok(request) => Ok(Prepared::Request(request)),
            Err(message) => Err(message),
        },
        Commands::Execute { command } => build_execute_request(command),
        Commands::Subscribe { subscribe } => match build_subscribe_request(subscribe) {
            Ok(request) => Ok(Prepared::Request(request)),
            Err(message) => Err(message),
        },
        Commands::Service { .. } => Err(
            "Service commands are handled locally and should not be sent to the rift server.".to_owned(),
        ),
    }
}

} // verus!
