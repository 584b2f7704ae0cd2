//! The command that takes a guild's emote commands away again.

use vstd::prelude::*;

use crate::builder::{CommandType, CommandView, CreateApplicationCommand};

verus! {

/// The command's name.
#[verifier::allow_in_spec]
pub fn name() -> &'static str
    returns
        "DisableEmoteCommands",
{
    "DisableEmoteCommands"
}

/// What the command does.
#[verifier::allow_in_spec]
pub fn desc() -> &'static str
    returns
        "Disable emote commands in this server",
{
    "Disable emote commands in this server"
}

/// The answer where the guild has no emote commands.
#[verifier::allow_in_spec]
pub fn already_disabled() -> &'static str
    returns
        "Guild commands are already disabled",
{
    "Guild commands are already disabled"
}

/// The answer once the emote commands are deleted.
#[verifier::allow_in_spec]
pub fn now_disabled() -> &'static str
    returns
        "Guild commands disabled!",
{
    "Guild commands disabled!"
}

/// The command that disables the emote commands of a guild.
#[derive(Clone, Copy, Debug)]
pub struct DisableEmoteCommands;

impl DisableEmoteCommands {
    /// What is registered: a command for the chat input.
    pub open spec fn application_command() -> CommandView {
        CommandView {
            name: Some(name()@),
            kind: Some(CommandType::ChatInput),
            description: Some(desc()@),
            ..CommandView::empty()
        }
    }

    /// The command as it is registered with the platform.
    pub fn to_application_command() -> (r: CreateApplicationCommand)
        ensures
            r@ == Self::application_command(),
    {
        let mut cmd = CreateApplicationCommand::default();
        cmd.name(name());
        cmd.kind(CommandType::ChatInput);
        cmd.description(desc());
        cmd
    }
}

} // verus!
