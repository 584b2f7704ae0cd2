//! The command that gives a guild its commands.

use vstd::prelude::*;

use crate::builder::{CommandType, CommandView, CreateApplicationCommand};

verus! {

/// The command's name.
#[verifier::allow_in_spec]
pub fn name() -> &'static str
    returns
        "EnableCommands",
{
    "EnableCommands"
}

/// What the command does.
#[verifier::allow_in_spec]
pub fn desc() -> &'static str
    returns
        "Enable guild commands in this server (adds commands for every emote!)",
{
    "Enable guild commands in this server (adds commands for every emote!)"
}

/// The command that enables the commands of a guild.
#[derive(Clone, Copy, Debug)]
pub struct EnableGuildCommands;

impl EnableGuildCommands {
    /// What is registered: a command for the chat input.
    pub open spec fn application_command() -> CommandView {
        CommandView {
            name: Some(name()@),
            kind: Some(CommandType::ChatInput),
            description: Some(desc()@),
            ..CommandView::empty()
        }
    }

    /// The command as it is registered with the platform.
    pub fn to_application_command() -> (r: CreateApplicationCommand)
        ensures
            r@ == Self::application_command(),
    {
        let mut cmd = CreateApplicationCommand::default();
        cmd.name(name());
        cmd.kind(CommandType::ChatInput);
        cmd.description(desc());
        cmd
    }
}

} // verus!
