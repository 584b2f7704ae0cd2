//! Usage statistics inside one guild.

use vstd::prelude::*;

use crate::builder::{CommandView, CreateApplicationCommand};
use crate::commands::stats::{
    counting_subcommand, create_counting_subcommand, create_received_group, received_group,
};
use crate::util::{chat_command, create_chat_command, LocalizedString};

verus! {

/// The subcommand that counts what the guild has sent.
#[verifier::allow_in_spec]
pub fn guild_sub_name() -> LocalizedString
    returns
        (LocalizedString { en: "guild", ja: "サーバー" }),
{
    LocalizedString { en: "guild", ja: "サーバー" }
}

/// What the guild subcommand does.
#[verifier::allow_in_spec]
pub fn guild_sub_desc() -> LocalizedString
    returns
        (LocalizedString { en: "Emote usage statistics for the current guild", ja: "サーバーの使用統計" }),
{
    LocalizedString { en: "Emote usage statistics for the current guild", ja: "サーバーの使用統計" }
}

/// The subcommand that counts what a user has sent in the guild.
#[verifier::allow_in_spec]
pub fn guild_user_sub_name() -> LocalizedString
    returns
        (LocalizedString { en: "guild-user", ja: "サーバーのユーザー" }),
{
    LocalizedString { en: "guild-user", ja: "サーバーのユーザー" }
}

/// What the guild-user subcommand does.
#[verifier::allow_in_spec]
pub fn guild_user_sub_desc() -> LocalizedString
    returns
        (LocalizedString {
            en: "Emote usage statistics for a user within the current guild",
            ja: "ユーザーのサーバー内の使用統計",
        }),
{
    LocalizedString {
        en: "Emote usage statistics for a user within the current guild",
        ja: "ユーザーのサーバー内の使用統計",
    }
}

/// The subcommand that counts what the guild has received.
#[verifier::allow_in_spec]
pub fn received_guild_sub_name() -> LocalizedString
    returns
        (LocalizedString { en: "guild", ja: "サーバー" }),
{
    LocalizedString { en: "guild", ja: "サーバー" }
}

/// What the received-guild subcommand does.
#[verifier::allow_in_spec]
pub fn received_guild_sub_desc() -> LocalizedString
    returns
        (LocalizedString {
            en: "Emote received usage statistics for the current guild",
            ja: "サーバーの使用統計",
        }),
{
    LocalizedString {
        en: "Emote received usage statistics for the current guild",
        ja: "サーバーの使用統計",
    }
}

/// The subcommand that counts what a user has received in the guild.
#[verifier::allow_in_spec]
pub fn received_guild_user_sub_name() -> LocalizedString
    returns
        (LocalizedString { en: "guild-user", ja: "サーバーのユーザー" }),
{
    LocalizedString { en: "guild-user", ja: "サーバーのユーザー" }
}

/// What the received-guild-user subcommand does.
#[verifier::allow_in_spec]
pub fn received_guild_user_sub_desc() -> LocalizedString
    returns
        (LocalizedString {
            en: "Emote received usage statistics for a user within the current guild",
            ja: "ユーザーのサーバー内の使用統計",
        }),
{
    LocalizedString {
        en: "Emote received usage statistics for a user within the current guild",
        ja: "ユーザーのサーバー内の使用統計",
    }
}

/// The statistics command of a guild.
#[derive(Clone, Copy, Debug)]
pub struct GuildStatsCmd;

impl GuildStatsCmd {
    /// What is registered: the subcommands that count what the guild and what a
    /// user in it sent, and the received group with the same two for what was
    /// received.
    pub open spec fn application_command() -> CommandView {
        CommandView {
            options: seq![
                counting_subcommand(guild_sub_name(), guild_sub_desc(), false),
                counting_subcommand(guild_user_sub_name(), guild_user_sub_desc(), true),
                received_group(
                    seq![
                        counting_subcommand(
                            received_guild_sub_name(),
                            received_guild_sub_desc(),
                            false,
                        ),
                        counting_subcommand(
                            received_guild_user_sub_name(),
                            received_guild_user_sub_desc(),
                            true,
                        ),
                    ],
                ),
            ],
            ..chat_command(crate::commands::stats::name(), crate::commands::stats::desc())
        }
    }

    /// The command as it is registered with the platform.
    pub fn to_application_command() -> (r: CreateApplicationCommand)
        ensures
            r@ == Self::application_command(),
    {
        let mut cmd = create_chat_command(
            crate::commands::stats::name(),
            crate::commands::stats::desc(),
        );
        cmd.create_option(create_counting_subcommand(guild_sub_name(), guild_sub_desc(), false));
        cmd.create_option(
            create_counting_subcommand(guild_user_sub_name(), guild_user_sub_desc(), true),
        );
        let mut received = create_received_group();
        received.create_sub_option(
            create_counting_subcommand(received_guild_sub_name(), received_guild_sub_desc(), false),
        );
        received.create_sub_option(
            create_counting_subcommand(
                received_guild_user_sub_name(),
                received_guild_user_sub_desc(),
                true,
            ),
        );
        assert(received@.options =~= seq![
            counting_subcommand(received_guild_sub_name(), received_guild_sub_desc(), false),
            counting_subcommand(
                received_guild_user_sub_name(),
                received_guild_user_sub_desc(),
                true,
            ),
        ]);
        cmd.create_option(received);
        assert(cmd@.options =~= Self::application_command().options);
        cmd
    }

    /// The name under which the command is registered.
    #[verifier::allow_in_spec]
    pub fn name() -> LocalizedString
        returns
            crate::commands::stats::name(),
    {
        crate::commands::stats::name()
    }
}

} // verus!
