//! The commands that work everywhere, in a guild or in a direct message.

use vstd::prelude::*;

use crate::builder::{CommandView, CreateApplicationCommand};
use crate::util::LocalizedString;
use self::emote::EmoteCmd;
use self::emote_select::EmoteSelectCmd;
use self::list_emotes::ListEmotesCmd;
use self::stats::GlobalStatsCmd;
use self::user_settings::UserSettingsCmd;

pub mod emote;
pub mod emote_select;
pub mod list_emotes;
pub mod stats;
pub mod user_settings;

verus! {

/// A command that works everywhere.
#[derive(Clone, Copy, Debug, PartialEq, Eq, Hash, Structural)]
pub enum GlobalCommands {
    EmoteSelect,
    UserSettings,
    Emote,
    ListEmotes,
    Stats,
}

/// The text that named no global command.
#[derive(Clone, Debug, PartialEq, Eq)]
pub struct InvalidGlobalCommand(pub String);

impl GlobalCommands {
    /// The name under which the command is registered.
    #[verifier::allow_in_spec]
    pub fn name(self) -> LocalizedString
        returns
            (match self {
                GlobalCommands::EmoteSelect => EmoteSelectCmd::name(),
                GlobalCommands::UserSettings => UserSettingsCmd::name(),
                GlobalCommands::Emote => EmoteCmd::name(),
                GlobalCommands::ListEmotes => ListEmotesCmd::name(),
                GlobalCommands::Stats => GlobalStatsCmd::name(),
            }),
    {
        match self {
            GlobalCommands::EmoteSelect => EmoteSelectCmd::name(),
            GlobalCommands::UserSettings => UserSettingsCmd::name(),
            GlobalCommands::Emote => EmoteCmd::name(),
            GlobalCommands::ListEmotes => ListEmotesCmd::name(),
            GlobalCommands::Stats => GlobalStatsCmd::name(),
        }
    }

    /// What is registered for the command.
    pub open spec fn application_command(self) -> CommandView {
        match self {
            GlobalCommands::EmoteSelect => EmoteSelectCmd::application_command(),
            GlobalCommands::UserSettings => UserSettingsCmd::application_command(),
            GlobalCommands::Emote => EmoteCmd::application_command(),
            GlobalCommands::ListEmotes => ListEmotesCmd::application_command(),
            GlobalCommands::Stats => GlobalStatsCmd::application_command(),
        }
    }

    /// The command as it is registered with the platform.
    pub fn to_application_command(self) -> (r: CreateApplicationCommand)
        ensures
            r@ == self.application_command(),
    {
        match self {
            GlobalCommands::EmoteSelect => EmoteSelectCmd::to_application_command(),
            GlobalCommands::UserSettings => UserSettingsCmd::to_application_command(),
            GlobalCommands::Emote => EmoteCmd::to_application_command(),
            GlobalCommands::ListEmotes => ListEmotesCmd::to_application_command(),
            GlobalCommands::Stats => GlobalStatsCmd::to_application_command(),
        }
    }

    /// Every global command as it is registered, in the order of
    /// registration.
    pub fn application_commands() -> (r: Vec<CreateApplicationCommand>)
        ensures
            r.len() == Self::every().len(),
            forall|i: int|
                0 <= i < r.len() ==> (#[trigger] r[i])@ == Self::every()[i].application_command(),
    {
        let all = GlobalCommands::all();
        let mut commands: Vec<CreateApplicationCommand> = Vec::new();
        let mut i: usize = 0;
        while i < all.len()
            invariant
                i <= all.len(),
                all@ == Self::every(),
                commands.len() == i,
                forall|k: int|
                    0 <= k < i ==> (#[trigger] commands[k])@ == Self::every()[k].application_command(),
            decreases all.len() - i,
        {
            commands.push(all[i].to_application_command());
            i += 1;
        }
        commands
    }

    /// Every global command, in the order in which they are registered.
    pub open spec fn every() -> Seq<GlobalCommands> {
        seq![
            GlobalCommands::EmoteSelect,
            GlobalCommands::UserSettings,
            GlobalCommands::Emote,
            GlobalCommands::ListEmotes,
            GlobalCommands::Stats,
        ]
    }

    /// Every global command, in the order in which they are registered.
    pub fn all() -> (r: Vec<GlobalCommands>)
        ensures
            r@ == Self::every(),
    {
        let mut all = Vec::new();
        all.push(GlobalCommands::EmoteSelect);
        all.push(GlobalCommands::UserSettings);
        all.push(GlobalCommands::Emote);
        all.push(GlobalCommands::ListEmotes);
        all.push(GlobalCommands::Stats);
        assert(all@ =~= Self::every());
        all
    }

    /// The first command, in the order of registration, that `s` names in any
    /// language.
    pub open spec fn named(s: Seq<char>) -> Option<GlobalCommands> {
        if GlobalCommands::EmoteSelect.name().matches_any(s) {
            Some(GlobalCommands::EmoteSelect)
        } else if GlobalCommands::UserSettings.name().matches_any(s) {
            Some(GlobalCommands::UserSettings)
        } else if GlobalCommands::Emote.name().matches_any(s) {
            Some(GlobalCommands::Emote)
        } else if GlobalCommands::ListEmotes.name().matches_any(s) {
            Some(GlobalCommands::ListEmotes)
        } else if GlobalCommands::Stats.name().matches_any(s) {
            Some(GlobalCommands::Stats)
        } else {
            None
        }
    }

    /// The command that `s` names, or `s` itself where it names none.
    pub fn from_str(s: &str) -> (r: Result<GlobalCommands, InvalidGlobalCommand>)
        ensures
            match r {
                Ok(command) => Self::named(s@) == Some(command),
                Err(invalid) => Self::named(s@) is None && invalid.0@ == s@,
            },
    {
        let all = GlobalCommands::all();
        let mut i: usize = 0;
        while i < all.len()
            invariant
                i <= all.len(),
                all@ == Self::every(),
                forall|k: int| 0 <= k < i ==> !(#[trigger] all@[k]).name().matches_any(s@),
            decreases all.len() - i,
        {
            let command = all[i];
            if command.name().any_eq(s) {
                return Ok(command);
            }
            i += 1;
        }
        assert(!all@[0].name().matches_any(s@));
        assert(!all@[1].name().matches_any(s@));
        assert(!all@[2].name().matches_any(s@));
        assert(!all@[3].name().matches_any(s@));
        assert(!all@[4].name().matches_any(s@));
        Err(InvalidGlobalCommand(s.to_owned()))
    }
}

/// Each global command is found again by its name, in either language.
pub proof fn lemma_global_command_found_by_name(command: GlobalCommands)
    ensures
        GlobalCommands::named(command.name().en@) == Some(command),
        GlobalCommands::named(command.name().ja@) == Some(command),
{
    reveal_strlit("emote-select");
    reveal_strlit("エモート選択");
    reveal_strlit("settings");
    reveal_strlit("設定");
    reveal_strlit("emote");
    reveal_strlit("エモート");
    reveal_strlit("emotes");
    reveal_strlit("エモート一覧");
    reveal_strlit("stats");
    reveal_strlit("統計");
    assert("emote-select"@.len() == 12 && "エモート選択"@.len() == 6);
    assert("settings"@.len() == 8 && "設定"@.len() == 2);
    assert("emote"@.len() == 5 && "エモート"@.len() == 4);
    assert("emotes"@.len() == 6 && "エモート一覧"@.len() == 6);
    assert("stats"@.len() == 5 && "統計"@.len() == 2);
    assert("emotes"@[0] == 'e' && "エモート選択"@[0] == 'エ' && "エモート一覧"@[0] == 'エ');
    assert("エモート選択"@[4] == '選' && "エモート一覧"@[4] == '一');
    assert("emote"@[0] == 'e' && "stats"@[0] == 's');
    assert("設定"@[0] == '設' && "統計"@[0] == '統');
}

} // verus!
