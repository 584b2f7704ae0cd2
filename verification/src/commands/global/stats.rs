//! Usage statistics across all guilds.

use vstd::prelude::*;

use crate::builder::{CommandView, CreateApplicationCommand};
use crate::commands::stats::{
    counting_subcommand, create_counting_subcommand, create_received_group, received_group,
};
use crate::util::{chat_command, create_chat_command, LocalizedString};

verus! {

/// The subcommand that counts what a user has sent.
#[verifier::allow_in_spec]
pub fn user_sub_name() -> LocalizedString
    returns
        (LocalizedString { en: "user", ja: "ユーザー" }),
{
    LocalizedString { en: "user", ja: "ユーザー" }
}

/// What the user subcommand does.
#[verifier::allow_in_spec]
pub fn user_sub_desc() -> LocalizedString
    returns
        (LocalizedString { en: "Global emote usage statistics for a user", ja: "ユーザーの全体使用統計" }),
{
    LocalizedString { en: "Global emote usage statistics for a user", ja: "ユーザーの全体使用統計" }
}

/// The subcommand that counts what a user has received.
#[verifier::allow_in_spec]
pub fn received_user_sub_name() -> LocalizedString
    returns
        (LocalizedString { en: "user", ja: "ユーザー" }),
{
    LocalizedString { en: "user", ja: "ユーザー" }
}

/// What the received-user subcommand does.
#[verifier::allow_in_spec]
pub fn received_user_sub_desc() -> LocalizedString
    returns
        (LocalizedString {
            en: "Global emote received usage statistics for a user",
            ja: "ユーザーの全体使用統計",
        }),
{
    LocalizedString {
        en: "Global emote received usage statistics for a user",
        ja: "ユーザーの全体使用統計",
    }
}

/// The statistics command that works everywhere.
#[derive(Clone, Copy, Debug)]
pub struct GlobalStatsCmd;

impl GlobalStatsCmd {
    /// What is registered: the subcommand that counts what a user sent, and the
    /// received group with the subcommand that counts what a user received.
    pub open spec fn application_command() -> CommandView {
        CommandView {
            options: seq![
                counting_subcommand(user_sub_name(), user_sub_desc(), true),
                received_group(
                    seq![
                        counting_subcommand(
                            received_user_sub_name(),
                            received_user_sub_desc(),
                            true,
                        ),
                    ],
                ),
            ],
            ..chat_command(crate::commands::stats::name(), crate::commands::stats::desc())
        }
    }

    /// The command as it is registered with the platform.
    pub fn to_application_command() -> (r: CreateApplicationCommand)
        ensures
            r@ == Self::application_command(),
    {
        let mut cmd = create_chat_command(
            crate::commands::stats::name(),
            crate::commands::stats::desc(),
        );
        cmd.create_option(create_counting_subcommand(user_sub_name(), user_sub_desc(), true));
        let mut received = create_received_group();
        received.create_sub_option(
            create_counting_subcommand(received_user_sub_name(), received_user_sub_desc(), true),
        );
        assert(received@.options =~= seq![
            counting_subcommand(received_user_sub_name(), received_user_sub_desc(), true),
        ]);
        cmd.create_option(received);
        assert(cmd@.options =~= Self::application_command().options);
        cmd
    }

    /// The name under which the command is registered.
    #[verifier::allow_in_spec]
    pub fn name() -> LocalizedString
        returns
            crate::commands::stats::name(),
    {
        crate::commands::stats::name()
    }
}

} // verus!
