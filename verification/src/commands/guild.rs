//! The commands that work inside a guild only.

use vstd::prelude::*;

use crate::builder::{CommandView, CreateApplicationCommand};
use crate::util::LocalizedString;
use self::server_settings::ServerSettingsCmd;
use self::stats::GuildStatsCmd;

pub mod disable_emote_commands;
pub mod emote_commands;
pub mod enable_emote_commands;
pub mod enable_guild_commands;
pub mod server_settings;
pub mod stats;

verus! {

/// A command that works inside a guild only.
#[derive(Clone, Copy, Debug, PartialEq, Eq, Hash, Structural)]
pub enum GuildCommands {
    ServerSettings,
    Stats,
}

/// The text that named no guild command.
#[derive(Clone, Debug, PartialEq, Eq)]
pub struct InvalidGuildCommand(pub String);

impl GuildCommands {
    /// The name under which the command is registered.
    #[verifier::allow_in_spec]
    pub fn name(self) -> LocalizedString
        returns
            (match self {
                GuildCommands::ServerSettings => ServerSettingsCmd::name(),
                GuildCommands::Stats => GuildStatsCmd::name(),
            }),
    {
        match self {
            GuildCommands::ServerSettings => ServerSettingsCmd::name(),
            GuildCommands::Stats => GuildStatsCmd::name(),
        }
    }

    /// What is registered for the command.
    pub open spec fn application_command(self) -> CommandView {
        match self {
            GuildCommands::ServerSettings => ServerSettingsCmd::application_command(),
            GuildCommands::Stats => GuildStatsCmd::application_command(),
        }
    }

    /// The command as it is registered with the platform.
    pub fn to_application_command(self) -> (r: CreateApplicationCommand)
        ensures
            r@ == self.application_command(),
    {
        match self {
            GuildCommands::ServerSettings => ServerSettingsCmd::to_application_command(),
            GuildCommands::Stats => GuildStatsCmd::to_application_command(),
        }
    }

    /// Every guild command as it is registered, in the order of registration.
    pub fn application_commands() -> (r: Vec<CreateApplicationCommand>)
        ensures
            r.len() == Self::every().len(),
            forall|i: int|
                0 <= i < r.len() ==> (#[trigger] r[i])@ == Self::every()[i].application_command(),
    {
        let all = GuildCommands::all();
        let mut commands: Vec<CreateApplicationCommand> = Vec::new();
        let mut i: usize = 0;
        while i < all.len()
            invariant
                i <= all.len(),
                all@ == Self::every(),
                commands.len() == i,
                forall|k: int|
                    0 <= k < i ==> (#[trigger] commands[k])@ == Self::every()[k].application_command(),
            decreases all.len() - i,
        {
            commands.push(all[i].to_application_command());
            i += 1;
        }
        commands
    }

    /// Every guild command, in the order in which they are registered.
    pub open spec fn every() -> Seq<GuildCommands> {
        seq![GuildCommands::ServerSettings, GuildCommands::Stats]
    }

    /// Every guild command, in the order in which they are registered.
    pub fn all() -> (r: Vec<GuildCommands>)
        ensures
            r@ == Self::every(),
    {
        let mut all = Vec::new();
        all.push(GuildCommands::ServerSettings);
        all.push(GuildCommands::Stats);
        assert(all@ =~= Self::every());
        all
    }

    /// The first command, in the order of registration, that `s` names in any
    /// language.
    pub open spec fn named(s: Seq<char>) -> Option<GuildCommands> {
        if GuildCommands::ServerSettings.name().matches_any(s) {
            Some(GuildCommands::ServerSettings)
        } else if GuildCommands::Stats.name().matches_any(s) {
            Some(GuildCommands::Stats)
        } else {
            None
        }
    }

    /// The command that `s` names, or `s` itself where it names none.
    pub fn from_str(s: &str) -> (r: Result<GuildCommands, InvalidGuildCommand>)
        ensures
            match r {
                Ok(command) => Self::named(s@) == Some(command),
                Err(invalid) => Self::named(s@) is None && invalid.0@ == s@,
            },
    {
        let all = GuildCommands::all();
        let mut i: usize = 0;
        while i < all.len()
            invariant
                i <= all.len(),
                all@ == Self::every(),
                forall|k: int| 0 <= k < i ==> !(#[trigger] all@[k]).name().matches_any(s@),
            decreases all.len() - i,
        {
            let command = all[i];
            if command.name().any_eq(s) {
                return Ok(command);
            }
            i += 1;
        }
        assert(!all@[0].name().matches_any(s@));
        assert(!all@[1].name().matches_any(s@));
        Err(InvalidGuildCommand(s.to_owned()))
    }
}

/// Each guild command is found again by its name, in either language.
pub proof fn lemma_guild_command_found_by_name(command: GuildCommands)
    ensures
        GuildCommands::named(command.name().en@) == Some(command),
        GuildCommands::named(command.name().ja@) == Some(command),
{
    reveal_strlit("server-settings");
    reveal_strlit("サーバー設定");
    reveal_strlit("stats");
    reveal_strlit("統計");
    assert("server-settings"@.len() == 15 && "サーバー設定"@.len() == 6);
    assert("stats"@.len() == 5 && "統計"@.len() == 2);
}

} // verus!
