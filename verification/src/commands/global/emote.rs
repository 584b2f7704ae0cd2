//! The command that sends one emote, named in its first option.

use vstd::prelude::*;
use vstd::string::*;

use crate::db::models::{DbUser, DbUserView};
use crate::handler::{HandlerError, HandlerErrorView};
use crate::interaction::{
    option_view, option_views, CommandDataOption, CommandDataOptionValue,
    CommandDataOptionValueView, CommandDataOptionView,
};

use crate::builder::{CommandOptionType, CommandView, CreateApplicationCommand};
use crate::util::{
    chat_command, create_chat_command, create_localized_option, localized_option, LocalizedString,
};

verus! {

/// The command's name.
#[verifier::allow_in_spec]
pub fn name() -> LocalizedString
    returns
        (LocalizedString { en: "emote", ja: "エモート" }),
{
    LocalizedString { en: "emote", ja: "エモート" }
}

/// What the command does.
#[verifier::allow_in_spec]
pub fn desc() -> LocalizedString
    returns
        (LocalizedString {
            en: "Send an emote with an optional target user",
            ja: "エモートを選択してターゲットを任意選択して送信",
        }),
{
    LocalizedString {
        en: "Send an emote with an optional target user",
        ja: "エモートを選択してターゲットを任意選択して送信",
    }
}

/// The name of the option that holds the emote.
#[verifier::allow_in_spec]
pub fn emote_option_name() -> LocalizedString
    returns
        (LocalizedString { en: "emote", ja: "エモート" }),
{
    LocalizedString { en: "emote", ja: "エモート" }
}

/// What the emote option is for.
#[verifier::allow_in_spec]
pub fn emote_option_desc() -> LocalizedString
    returns
        (LocalizedString { en: "Which emote to send", ja: "エモートの指定" }),
{
    LocalizedString { en: "Which emote to send", ja: "エモートの指定" }
}

/// The name of the option that holds the target.
#[verifier::allow_in_spec]
pub fn target_option_name() -> LocalizedString
    returns
        (LocalizedString { en: "target", ja: "ターゲット" }),
{
    LocalizedString { en: "target", ja: "ターゲット" }
}

/// What the target option is for.
#[verifier::allow_in_spec]
pub fn target_option_desc() -> LocalizedString
    returns
        (LocalizedString {
            en: "Who to target with the emote (can be a mention)",
            ja: "エモートのターゲット（メンション可）",
        }),
{
    LocalizedString {
        en: "Who to target with the emote (can be a mention)",
        ja: "エモートのターゲット（メンション可）",
    }
}

/// The answer to an emote that the catalog does not hold.
#[verifier::allow_in_spec]
pub fn emote_not_exists() -> LocalizedString
    returns
        (LocalizedString {
            en: "That's not a valid emote! Check the list of known emotes with /emotes",
            ja: "存在しないエモートを入力しました。エモート一覧のコマンドは/エモート一覧",
        }),
{
    LocalizedString {
        en: "That's not a valid emote! Check the list of known emotes with /emotes",
        ja: "存在しないエモートを入力しました。エモート一覧のコマンドは/エモート一覧",
    }
}

/// The confirmation shown once the emote has been sent.
#[verifier::allow_in_spec]
pub fn emote_sent() -> LocalizedString
    returns
        (LocalizedString { en: "Emote sent!", ja: "送信しました！" }),
{
    LocalizedString { en: "Emote sent!", ja: "送信しました！" }
}

/// The emote command.
#[derive(Clone, Copy, Debug)]
pub struct EmoteCmd;

impl EmoteCmd {
    /// What is registered: a command for the chat input that takes the emote,
    /// which must be given, and the target, and also works in direct messages.
    pub open spec fn application_command() -> CommandView {
        CommandView {
            dm_permission: Some(true),
            options: seq![
                localized_option(
                    CommandOptionType::String,
                    emote_option_name(),
                    emote_option_desc(),
                    true,
                    Seq::empty(),
                ),
                localized_option(
                    CommandOptionType::String,
                    target_option_name(),
                    target_option_desc(),
                    false,
                    Seq::empty(),
                ),
            ],
            ..chat_command(name(), desc())
        }
    }

    /// The command as it is registered with the platform.
    pub fn to_application_command() -> (r: CreateApplicationCommand)
        ensures
            r@ == Self::application_command(),
    {
        let mut cmd = create_chat_command(name(), desc());
        cmd.create_option(
            create_localized_option(
                CommandOptionType::String,
                emote_option_name(),
                emote_option_desc(),
                true,
            ),
        );
        cmd.create_option(
            create_localized_option(
                CommandOptionType::String,
                target_option_name(),
                target_option_desc(),
                false,
            ),
        );
        cmd.dm_permission(true);
        assert(cmd@.options =~= Self::application_command().options);
        cmd
    }

    /// The name under which the command is registered.
    #[verifier::allow_in_spec]
    pub fn name() -> LocalizedString
        returns
            name(),
    {
        name()
    }
}

/// The text that the option at `index` resolved to, if there is such an
/// option and it resolved to a text.
pub open spec fn option_text(options: Seq<CommandDataOptionView>, index: int) -> Option<Seq<char>> {
    if 0 <= index < options.len() {
        match options[index].resolved {
            Some(CommandDataOptionValueView::String(s)) => Some(s),
            _ => None,
        }
    } else {
        None
    }
}

/// The text that the option at `index` resolved to.
fn text_option(options: &[CommandDataOption], index: usize) -> (r: Option<&String>)
    ensures
        match r {
            Some(s) => option_text(option_views(options@), index as int) == Some(s@),
            None => option_text(option_views(options@), index as int) is None,
        },
{
    proof {
        reveal_with_fuel(option_view, 2);
    }
    if index < options.len() {
        match &options[index].resolved {
            Some(CommandDataOptionValue::String(s)) => Some(s),
            _ => None,
        }
    } else {
        None
    }
}

/// The emote that the command was given: the text of its first option. A
/// command without that text is not what the platform should send.
pub fn requested_emote(options: &[CommandDataOption]) -> (r: Result<&String, HandlerError>)
    ensures
        match r {
            Ok(emote) => option_text(option_views(options@), 0) == Some(emote@),
            Err(e) => option_text(option_views(options@), 0) is None && e@
                == HandlerErrorView::UnexpectedData,
        },
{
    match text_option(options, 0) {
        Some(emote) => Ok(emote),
        None => Err(HandlerError::UnexpectedData),
    }
}

/// The target that the command was given: the text of its second option, if
/// it has one.
pub fn requested_target(options: &[CommandDataOption]) -> (r: Option<&String>)
    ensures
        match r {
            Some(target) => option_text(option_views(options@), 1) == Some(target@),
            None => option_text(option_views(options@), 1) is None,
        },
{
    text_option(options, 1)
}

/// The command under which the emote that a user named is looked up: the
/// name as given where the guild's prefix is empty, and the name after a
/// slash where it is not.
pub open spec fn emote_command(emote: Seq<char>, prefix: Seq<char>) -> Seq<char> {
    if prefix.len() == 0 {
        emote
    } else {
        seq!['/'] + emote
    }
}

/// The command under which the emote that a user named is looked up, in a
/// guild whose commands begin with `prefix`.
pub fn to_emote_command(emote: &str, prefix: &str) -> (r: String)
    ensures
        r@ == emote_command(emote@, prefix@),
{
    if prefix.is_empty() {
        String::from_str(emote)
    } else {
        proof {
            reveal_strlit("/");
        }
        let mut out = String::from_str("/");
        out.append(emote);
        assert(out@ =~= seq!['/'] + emote@);
        out
    }
}

/// The confirmation shown once the emote has been sent: the acknowledgement
/// in the user's language, then in brackets the emote and, after a space, the
/// target where there is one.
pub open spec fn sent_text(user: DbUserView, emote: Seq<char>, target: Option<Seq<char>>) -> Seq<
    char,
> {
    emote_sent().in_language(user.language) + seq![' ', '('] + emote + match target {
        Some(t) => seq![' '] + t,
        None => Seq::empty(),
    } + seq![')']
}

/// The confirmation shown once the emote has been sent.
pub fn sent_content(user: &DbUser, emote: &str, target: Option<&str>) -> (r: String)
    ensures
        r@ == sent_text(
            user@,
            emote@,
            match target {
                Some(t) => Some(t@),
                None => None,
            },
        ),
{
    proof {
        reveal_strlit(" (");
        reveal_strlit(" ");
        reveal_strlit(")");
    }
    let mut out = String::from_str(emote_sent().for_user(user));
    out.append(" (");
    out.append(emote);
    match target {
        Some(t) => {
            out.append(" ");
            out.append(t);
        },
        None => {},
    }
    out.append(")");
    assert(out@ =~= sent_text(
        user@,
        emote@,
        match target {
            Some(t) => Some(t@),
            None => None,
        },
    ));
    out
}

} // verus!
