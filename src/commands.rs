//! The chat commands that the bots answer.
use vstd::prelude::*;

use crate::relay::{WsResponseStatus, WsResponseType};
use crate::server::DistrictServer;

verus! {

/// The column that a player search looks at.
#[derive(Clone, Copy, Debug, PartialEq, Eq, Structural)]
pub enum SearchCriterion {
    PlayerId,
    SteamId,
    Usernames,
    Ips,
    Unknown,
}

impl SearchCriterion {
    /// The column chosen by number: 0 to 3, anything else unknown.
    pub fn from_i64(n: i64) -> (r: SearchCriterion)
        ensures
            r == (if n == 0 {
                SearchCriterion::PlayerId
            } else if n == 1 {
                SearchCriterion::SteamId
            } else if n == 2 {
                SearchCriterion::Usernames
            } else if n == 3 {
                SearchCriterion::Ips
            } else {
                SearchCriterion::Unknown
            }),
    {
        if n == 0 {
            SearchCriterion::PlayerId
        } else if n == 1 {
            SearchCriterion::SteamId
        } else if n == 2 {
            SearchCriterion::Usernames
        } else if n == 3 {
            SearchCriterion::Ips
        } else {
            SearchCriterion::Unknown
        }
    }
}

/// The chat command that shows what the bot is.
#[derive(Clone, Copy, Debug, PartialEq, Eq, Structural)]
pub struct InfoCommand;

/// The chat command that searches the player records.
#[derive(Clone, Copy, Debug, PartialEq, Eq, Structural)]
pub struct DbSearchCommand;

/// The chat command that sends a command to a server's process.
#[derive(Clone, Copy, Debug, PartialEq, Eq, Structural)]
pub struct SendCommand;

/// One of the chat commands.
#[derive(Clone, Copy, Debug, PartialEq, Eq, Structural)]
pub enum CommandHandlerEnum {
    InfoCommand(InfoCommand),
    DbSearchCommand(DbSearchCommand),
    SendCommand(SendCommand),
}

impl CommandHandlerEnum {
    /// The command registered under `name`: `info`, `db_search` or
    /// `send_command`.
    pub fn from_name(name: &str) -> (r: Option<CommandHandlerEnum>)
        ensures
            r == (if name@ == "info"@ {
                Some(CommandHandlerEnum::InfoCommand(InfoCommand))
            } else if name@ == "db_search"@ {
                Some(CommandHandlerEnum::DbSearchCommand(DbSearchCommand))
            } else if name@ == "send_command"@ {
                Some(CommandHandlerEnum::SendCommand(SendCommand))
            } else {
                None
            }),
    {
        if crate::lang::same_text(name, "info") {
            Some(CommandHandlerEnum::InfoCommand(InfoCommand))
        } else if crate::lang::same_text(name, "db_search") {
            Some(CommandHandlerEnum::DbSearchCommand(DbSearchCommand))
        } else if crate::lang::same_text(name, "send_command") {
            Some(CommandHandlerEnum::SendCommand(SendCommand))
        } else {
            None
        }
    }
}

impl SendCommand {
    /// Queue `command` for the process of `server`, to go out on its relay
    /// connection after what is already queued.
    pub fn handle(&self, server: &mut DistrictServer, command: &str)
        ensures
            final(server).ws_msgs@.len() == old(server).ws_msgs@.len() + 1,
            final(server).ws_msgs@.take(old(server).ws_msgs@.len() as int) == old(
                server,
            ).ws_msgs@,
            final(server).ws_msgs@.last() is Command,
            final(server).ws_msgs@.last()->Command_0.kind == WsResponseType::Command,
            final(server).ws_msgs@.last()->Command_0.message@ == "Ok"@,
            final(server).ws_msgs@.last()->Command_0.status == WsResponseStatus::Success,
            final(server).ws_msgs@.last()->Command_0.command@ == command@,
            final(server).buffer == old(server).buffer,
            final(server).status == old(server).status,
    {
        server.queue_command(command);
    }
}

} // verus!
