//! What the global and the guild statistics commands share.

use serenity::utils::MessageBuilder;
use vstd::prelude::*;
use vstd::string::*;

use crate::commands::global::stats::{received_user_sub_name, user_sub_name};
use crate::commands::guild::stats::{
    guild_sub_name, guild_user_sub_name, received_guild_sub_name, received_guild_user_sub_name,
};
use crate::db::models::{DbLanguage, DbUser};
use crate::handler::repository::{Handler, HandlerView};
use crate::handler::{EmoteData, EmoteDataView};
use crate::id::{GuildId, UserId};
use crate::interaction::{option_view, option_views, CommandDataOption, CommandDataOptionView};
use crate::session::target::{mention, mention_text};
use crate::text::{signed_decimal, signed_decimal_string};
use crate::builder::{CommandOptionType, CommandOptionView, CreateApplicationCommandOption};
use crate::util::{create_localized_option, localized_option, LocalizedString};

verus! {

/// The commands' name.
#[verifier::allow_in_spec]
pub fn name() -> LocalizedString
    returns
        (LocalizedString { en: "stats", ja: "統計" }),
{
    LocalizedString { en: "stats", ja: "統計" }
}

/// What the commands do.
#[verifier::allow_in_spec]
pub fn desc() -> LocalizedString
    returns
        (LocalizedString { en: "Emote usage statistics", ja: "エモート使用統計" }),
{
    LocalizedString { en: "Emote usage statistics", ja: "エモート使用統計" }
}

/// The name of the option that holds the user.
#[verifier::allow_in_spec]
pub fn user_opt_name() -> LocalizedString
    returns
        (LocalizedString { en: "user", ja: "ユーザー" }),
{
    LocalizedString { en: "user", ja: "ユーザー" }
}

/// What the user option is for.
#[verifier::allow_in_spec]
pub fn user_opt_desc() -> LocalizedString
    returns
        (LocalizedString { en: "User to investigate", ja: "ユーザーの絞り込み" }),
{
    LocalizedString { en: "User to investigate", ja: "ユーザーの絞り込み" }
}

/// The group of subcommands that count received emotes.
#[verifier::allow_in_spec]
pub fn received_group_name() -> LocalizedString
    returns
        (LocalizedString { en: "received", ja: "受信" }),
{
    LocalizedString { en: "received", ja: "受信" }
}

/// What the received group does.
#[verifier::allow_in_spec]
pub fn received_group_desc() -> LocalizedString
    returns
        (LocalizedString { en: "Message statistics by targets received", ja: "ターゲット受信される側の使用統計" }),
{
    LocalizedString { en: "Message statistics by targets received", ja: "ターゲット受信される側の使用統計" }
}

/// The name of the option that holds the emote.
#[verifier::allow_in_spec]
pub fn emote_opt_name() -> LocalizedString
    returns
        (LocalizedString { en: "emote", ja: "エモート" }),
{
    LocalizedString { en: "emote", ja: "エモート" }
}

/// What the emote option is for.
#[verifier::allow_in_spec]
pub fn emote_opt_desc() -> LocalizedString
    returns
        (LocalizedString { en: "Emote to filter by", ja: "エモートの絞り込み" }),
{
    LocalizedString { en: "Emote to filter by", ja: "エモートの絞り込み" }
}

/// The options of a subcommand that counts: the user, who must be given,
/// where the subcommand takes one, and then the emote.
pub open spec fn counting_options(with_user: bool) -> Seq<CommandOptionView> {
    let emote = localized_option(
        CommandOptionType::String,
        emote_opt_name(),
        emote_opt_desc(),
        false,
        Seq::empty(),
    );
    if with_user {
        seq![
            localized_option(
                CommandOptionType::User,
                user_opt_name(),
                user_opt_desc(),
                true,
                Seq::empty(),
            ),
            emote,
        ]
    } else {
        seq![emote]
    }
}

/// A subcommand that counts, for a user where `with_user`.
pub open spec fn counting_subcommand(
    name: LocalizedString,
    desc: LocalizedString,
    with_user: bool,
) -> CommandOptionView {
    localized_option(CommandOptionType::SubCommand, name, desc, false, counting_options(with_user))
}

/// A subcommand that counts, for a user where `with_user`.
pub fn create_counting_subcommand(name: LocalizedString, desc: LocalizedString, with_user: bool) -> (r:
    CreateApplicationCommandOption)
    ensures
        r@ == counting_subcommand(name, desc, with_user),
{
    let mut sub = create_localized_option(CommandOptionType::SubCommand, name, desc, false);
    if with_user {
        sub.create_sub_option(
            create_localized_option(CommandOptionType::User, user_opt_name(), user_opt_desc(), true),
        );
    }
    sub.create_sub_option(
        create_localized_option(CommandOptionType::String, emote_opt_name(), emote_opt_desc(), false),
    );
    assert(sub@.options =~= counting_options(with_user));
    sub
}

/// The group of the subcommands that count received emotes.
pub open spec fn received_group(subcommands: Seq<CommandOptionView>) -> CommandOptionView {
    localized_option(
        CommandOptionType::SubCommandGroup,
        received_group_name(),
        received_group_desc(),
        false,
        subcommands,
    )
}

/// The group of the subcommands that count received emotes, still empty.
pub fn create_received_group() -> (r: CreateApplicationCommandOption)
    ensures
        r@ == received_group(Seq::empty()),
{
    create_localized_option(
        CommandOptionType::SubCommandGroup,
        received_group_name(),
        received_group_desc(),
        false,
    )
}

/// What is counted: the emotes sent or received in a guild, by a user in a
/// guild, or by a user anywhere; all of them, or those of one emote.
#[derive(Debug, PartialEq, Eq)]
pub enum EmoteLogQuery {
    Guild((GuildId, Option<EmoteData>)),
    GuildUser((GuildId, UserId, Option<EmoteData>)),
    User((UserId, Option<EmoteData>)),
    ReceivedGuild((GuildId, Option<EmoteData>)),
    ReceivedGuildUser((GuildId, UserId, Option<EmoteData>)),
    ReceivedUser((UserId, Option<EmoteData>)),
}

/// What contracts say of an [`EmoteLogQuery`].
pub enum EmoteLogQueryView {
    Guild((GuildId, Option<EmoteDataView>)),
    GuildUser((GuildId, UserId, Option<EmoteDataView>)),
    User((UserId, Option<EmoteDataView>)),
    ReceivedGuild((GuildId, Option<EmoteDataView>)),
    ReceivedGuildUser((GuildId, UserId, Option<EmoteDataView>)),
    ReceivedUser((UserId, Option<EmoteDataView>)),
}

/// An emote that may be absent, as contracts see it.
pub open spec fn emote_view(emote: Option<EmoteData>) -> Option<EmoteDataView> {
    match emote {
        Some(e) => Some(e@),
        None => None,
    }
}

impl View for EmoteLogQuery {
    type V = EmoteLogQueryView;

    open spec fn view(&self) -> EmoteLogQueryView {
        match self {
            EmoteLogQuery::Guild((g, e)) => EmoteLogQueryView::Guild((*g, emote_view(*e))),
            EmoteLogQuery::GuildUser((g, u, e)) => EmoteLogQueryView::GuildUser(
                (*g, *u, emote_view(*e)),
            ),
            EmoteLogQuery::User((u, e)) => EmoteLogQueryView::User((*u, emote_view(*e))),
            EmoteLogQuery::ReceivedGuild((g, e)) => EmoteLogQueryView::ReceivedGuild(
                (*g, emote_view(*e)),
            ),
            EmoteLogQuery::ReceivedGuildUser((g, u, e)) => EmoteLogQueryView::ReceivedGuildUser(
                (*g, *u, emote_view(*e)),
            ),
            EmoteLogQuery::ReceivedUser((u, e)) => EmoteLogQueryView::ReceivedUser(
                (*u, emote_view(*e)),
            ),
        }
    }
}

/// `text` as monospaced text: between two backticks.
pub open spec fn mono_text(text: Seq<char>) -> Seq<char> {
    seq!['`'] + text + seq!['`']
}

/// `text` as monospaced text, as serenity's message builder writes it.
///
/// Calls `MessageBuilder::push_mono` on an empty builder and builds it. The
/// contract states what the source of `push_mono` shows: a backtick, the text
/// unchanged, a backtick.
#[verifier::external_body]
fn push_mono(text: &str) -> (r: String)
    ensures
        r@ == mono_text(text@),
{
    MessageBuilder::new().push_mono(text).build()
}

impl EmoteLogQueryView {
    /// The emote that the count is limited to, if it is limited.
    pub open spec fn emote(self) -> Option<EmoteDataView> {
        match self {
            EmoteLogQueryView::Guild((_, e)) => e,
            EmoteLogQueryView::GuildUser((_, _, e)) => e,
            EmoteLogQueryView::User((_, e)) => e,
            EmoteLogQueryView::ReceivedGuild((_, e)) => e,
            EmoteLogQueryView::ReceivedGuildUser((_, _, e)) => e,
            EmoteLogQueryView::ReceivedUser((_, e)) => e,
        }
    }

    /// What is counted, in English: the emote's name in monospace, or the
    /// word for any emote.
    pub open spec fn counted_en(self) -> Seq<char> {
        match self.emote() {
            Some(e) => mono_text(e.name),
            None => "emote"@,
        }
    }

    /// What is counted, in Japanese.
    pub open spec fn counted_ja(self) -> Seq<char> {
        match self.emote() {
            Some(e) => mono_text(e.name),
            None => "エモート"@,
        }
    }

    /// The English sentence that reports `count`.
    pub open spec fn en_message(self, count: i64) -> Seq<char> {
        let start = "There have been "@ + signed_decimal(count as int) + " "@ + self.counted_en();
        match self {
            EmoteLogQueryView::Guild(_) => start + "s sent thus far in this guild!"@,
            EmoteLogQueryView::GuildUser((_, u, _)) => start + "s sent by "@ + mention_text(u)
                + " thus far in this guild!"@,
            EmoteLogQueryView::User((u, _)) => start + "s sent by "@ + mention_text(u)
                + " thus far!"@,
            EmoteLogQueryView::ReceivedGuild(_) => start + "s received thus far in this guild!"@,
            EmoteLogQueryView::ReceivedGuildUser((_, u, _)) => start + "s received by "@
                + mention_text(u) + " thus far in this guild!"@,
            EmoteLogQueryView::ReceivedUser((u, _)) => start + "s received by "@ + mention_text(u)
                + " thus far!"@,
        }
    }

    /// The Japanese sentence that reports `count`.
    pub open spec fn ja_message(self, count: i64) -> Seq<char> {
        let counted = signed_decimal(count as int) + "件の"@ + self.counted_ja();
        match self {
            EmoteLogQueryView::Guild(_) => "今までこのサーバーで"@ + counted + "が送信されています！"@,
            EmoteLogQueryView::GuildUser((_, u, _)) => "今までこのサーバーで"@ + mention_text(u)
                + "が"@ + counted + "を送信されています！"@,
            EmoteLogQueryView::User((u, _)) => "今まで"@ + mention_text(u) + "が"@ + counted
                + "を送信されています！"@,
            EmoteLogQueryView::ReceivedGuild(_) => "今までこのサーバーで"@ + counted
                + "が受信されています！"@,
            EmoteLogQueryView::ReceivedGuildUser((_, u, _)) => "今までこのサーバーで"@
                + mention_text(u) + "が"@ + counted + "を受信されています！"@,
            EmoteLogQueryView::ReceivedUser((u, _)) => "今まで"@ + mention_text(u) + "が"@
                + counted + "を受信されています！"@,
        }
    }

    /// The sentence that reports `count` in `language`.
    pub open spec fn message(self, count: i64, language: DbLanguage) -> Seq<char> {
        match language {
            DbLanguage::En => self.en_message(count),
            DbLanguage::Ja => self.ja_message(count),
        }
    }
}

impl EmoteLogQuery {
    /// The emote that the count is limited to, if it is limited.
    pub fn emote(&self) -> (r: &Option<EmoteData>)
        ensures
            emote_view(*r) == self@.emote(),
    {
        match self {
            EmoteLogQuery::Guild((_, e)) => e,
            EmoteLogQuery::GuildUser((_, _, e)) => e,
            EmoteLogQuery::User((_, e)) => e,
            EmoteLogQuery::ReceivedGuild((_, e)) => e,
            EmoteLogQuery::ReceivedGuildUser((_, _, e)) => e,
            EmoteLogQuery::ReceivedUser((_, e)) => e,
        }
    }

    /// The sentence that reports `count` in the language of `user`.
    pub fn to_message(&self, count: i64, user: &DbUser) -> (r: String)
        ensures
            r@ == self@.message(count, user.language),
    {
        match user.language {
            DbLanguage::En => self.to_en_message(count),
            DbLanguage::Ja => self.to_ja_message(count),
        }
    }

    /// The English sentence that reports `count`.
    pub fn to_en_message(&self, count: i64) -> (r: String)
        ensures
            r@ == self@.en_message(count),
    {
        let mut mb = String::from_str("There have been ");
        let number = signed_decimal_string(count);
        mb.append(number.as_str());
        mb.append(" ");
        match self.emote() {
            Some(em) => {
                let name = push_mono(em.name.as_str());
                mb.append(name.as_str());
            },
            None => {
                mb.append("emote");
            },
        }
        match self {
            EmoteLogQuery::Guild(_) => {
                mb.append("s sent thus far in this guild!");
            },
            EmoteLogQuery::GuildUser((_, u, _)) => {
                mb.append("s sent by ");
                let m = mention(*u);
                mb.append(m.as_str());
                mb.append(" thus far in this guild!");
            },
            EmoteLogQuery::User((u, _)) => {
                mb.append("s sent by ");
                let m = mention(*u);
                mb.append(m.as_str());
                mb.append(" thus far!");
            },
            EmoteLogQuery::ReceivedGuild(_) => {
                mb.append("s received thus far in this guild!");
            },
            EmoteLogQuery::ReceivedGuildUser((_, u, _)) => {
                mb.append("s received by ");
                let m = mention(*u);
                mb.append(m.as_str());
                mb.append(" thus far in this guild!");
            },
            EmoteLogQuery::ReceivedUser((u, _)) => {
                mb.append("s received by ");
                let m = mention(*u);
                mb.append(m.as_str());
                mb.append(" thus far!");
            },
        }
        assert(mb@ =~= self@.en_message(count));
        mb
    }

    /// The Japanese sentence that reports `count`.
    pub fn to_ja_message(&self, count: i64) -> (r: String)
        ensures
            r@ == self@.ja_message(count),
    {
        let mut mb = String::new();
        match self {
            EmoteLogQuery::Guild(_) => {
                mb.append("今までこのサーバーで");
            },
            EmoteLogQuery::GuildUser((_, u, _)) => {
                mb.append("今までこのサーバーで");
                let m = mention(*u);
                mb.append(m.as_str());
                mb.append("が");
            },
            EmoteLogQuery::User((u, _)) => {
                mb.append("今まで");
                let m = mention(*u);
                mb.append(m.as_str());
                mb.append("が");
            },
            EmoteLogQuery::ReceivedGuild(_) => {
                mb.append("今までこのサーバーで");
            },
            EmoteLogQuery::ReceivedGuildUser((_, u, _)) => {
                mb.append("今までこのサーバーで");
                let m = mention(*u);
                mb.append(m.as_str());
                mb.append("が");
            },
            EmoteLogQuery::ReceivedUser((u, _)) => {
                mb.append("今まで");
                let m = mention(*u);
                mb.append(m.as_str());
                mb.append("が");
            },
        }
        let number = signed_decimal_string(count);
        mb.append(number.as_str());
        mb.append("件の");
        match self.emote() {
            Some(em) => {
                let name = push_mono(em.name.as_str());
                mb.append(name.as_str());
            },
            None => {
                mb.append("エモート");
            },
        }
        match self {
            EmoteLogQuery::Guild(_) => {
                mb.append("が送信されています！");
            },
            EmoteLogQuery::GuildUser(_) => {
                mb.append("を送信されています！");
            },
            EmoteLogQuery::User(_) => {
                mb.append("を送信されています！");
            },
            EmoteLogQuery::ReceivedGuild(_) => {
                mb.append("が受信されています！");
            },
            EmoteLogQuery::ReceivedGuildUser(_) => {
                mb.append("を受信されています！");
            },
            EmoteLogQuery::ReceivedUser(_) => {
                mb.append("を受信されています！");
            },
        }
        assert(mb@ =~= self@.ja_message(count));
        mb
    }
}

/// `name` as a command: with a slash in front, unless it has one.
pub open spec fn slashed(name: Seq<char>) -> Seq<char> {
    if name.len() > 0 && name[0] == '/' {
        name
    } else {
        seq!['/'] + name
    }
}

/// `name` as a command: with a slash in front, unless it has one.
pub fn with_slash(name: &str) -> (r: String)
    ensures
        r@ == slashed(name@),
{
    if !name.is_empty() && name.get_char(0) == '/' {
        String::from_str(name)
    } else {
        proof {
            reveal_strlit("/");
        }
        let mut out = String::from_str("/");
        out.append(name);
        assert(out@ =~= seq!['/'] + name@);
        out
    }
}

/// The emote that the option at `index` below `option` names, if that option
/// is a text and the text, as a command, calls an emote.
pub open spec fn emote_option(
    emotes: HandlerView,
    option: CommandDataOptionView,
    index: int,
) -> Option<EmoteDataView> {
    match option.text_at(index) {
        Some(name) => emotes.get(slashed(name)),
        None => None,
    }
}

/// What a subcommand of the received group asks to count.
pub open spec fn received_query_for(
    emotes: HandlerView,
    received: CommandDataOptionView,
    guild: Option<GuildId>,
    user: Option<UserId>,
) -> Option<EmoteLogQueryView> {
    if guild is Some && received_guild_sub_name().matches_any(received.name) {
        Some(EmoteLogQueryView::ReceivedGuild((guild->0, emote_option(emotes, received, 0))))
    } else if guild is Some && user is Some && received_guild_user_sub_name().matches_any(
        received.name,
    ) {
        Some(
            EmoteLogQueryView::ReceivedGuildUser(
                (guild->0, user->0, emote_option(emotes, received, 1)),
            ),
        )
    } else if user is Some && received_user_sub_name().matches_any(received.name) {
        Some(EmoteLogQueryView::ReceivedUser((user->0, emote_option(emotes, received, 1))))
    } else {
        None
    }
}

/// What the options of a statistics command ask to count.
///
/// The first option is the subcommand. The guild subcommand needs a guild, the
/// user subcommand a user and the guild-user subcommand both; the received
/// group holds the same three one level down. The emote is the subcommand's
/// first option where it takes no user, and its second where it takes one.
/// Anything else asks for nothing.
pub open spec fn query_for(
    emotes: HandlerView,
    options: Seq<CommandDataOptionView>,
    guild: Option<GuildId>,
    user: Option<UserId>,
) -> Option<EmoteLogQueryView> {
    if options.len() == 0 {
        None
    } else {
        let top = options[0];
        if guild is Some && guild_sub_name().matches_any(top.name) {
            Some(EmoteLogQueryView::Guild((guild->0, emote_option(emotes, top, 0))))
        } else if guild is Some && user is Some && guild_user_sub_name().matches_any(top.name) {
            Some(EmoteLogQueryView::GuildUser((guild->0, user->0, emote_option(emotes, top, 1))))
        } else if user is Some && user_sub_name().matches_any(top.name) {
            Some(EmoteLogQueryView::User((user->0, emote_option(emotes, top, 1))))
        } else if received_group_name().matches_any(top.name) {
            if top.options.len() == 0 {
                None
            } else {
                received_query_for(emotes, top.options[0], guild, user)
            }
        } else {
            None
        }
    }
}

/// A query that may be absent, as contracts see it.
pub open spec fn query_view(query: Option<EmoteLogQuery>) -> Option<EmoteLogQueryView> {
    match query {
        Some(q) => Some(q@),
        None => None,
    }
}

/// The emote that the option at `index` below `option` names.
fn get_emote_opt(emotes: &Handler, option: &CommandDataOption, index: usize) -> (r: Option<
    EmoteData,
>)
    ensures
        emote_view(r) == emote_option(emotes@, option@, index as int),
{
    match option.text_at(index) {
        Some(name) => {
            let command = with_slash(name.as_str());
            match emotes.get_emote_data(command.as_str()) {
                Some(data) => Some(data.clone()),
                None => None,
            }
        },
        None => None,
    }
}

impl EmoteLogQuery {
    /// What a subcommand of the received group asks to count.
    fn from_received(
        emotes: &Handler,
        received: &CommandDataOption,
        guild_id_opt: Option<GuildId>,
        user_id_opt: Option<UserId>,
    ) -> (r: Option<EmoteLogQuery>)
        ensures
            query_view(r) == received_query_for(emotes@, received@, guild_id_opt, user_id_opt),
    {
        let name = received.name.as_str();
        match (guild_id_opt, user_id_opt) {
            (Some(guild), _) if received_guild_sub_name().any_eq(name) => Some(
                EmoteLogQuery::ReceivedGuild((guild, get_emote_opt(emotes, received, 0))),
            ),
            (Some(guild), Some(user)) if received_guild_user_sub_name().any_eq(name) => Some(
                EmoteLogQuery::ReceivedGuildUser((guild, user, get_emote_opt(emotes, received, 1))),
            ),
            (_, Some(user)) if received_user_sub_name().any_eq(name) => Some(
                EmoteLogQuery::ReceivedUser((user, get_emote_opt(emotes, received, 1))),
            ),
            _ => None,
        }
    }

    /// What the options of a statistics command ask to count, in the guild
    /// and for the user given.
    pub fn from_command_data(
        emotes: &Handler,
        options: &[CommandDataOption],
        guild_id_opt: Option<GuildId>,
        user_id_opt: Option<UserId>,
    ) -> (r: Option<EmoteLogQuery>)
        ensures
            query_view(r) == query_for(emotes@, option_views(options@), guild_id_opt, user_id_opt),
    {
        if options.len() == 0 {
            return None;
        }
        let top = &options[0];
        proof {
            reveal_with_fuel(option_view, 2);
        }
        let name = top.name.as_str();
        match (guild_id_opt, user_id_opt) {
            (Some(guild), _) if guild_sub_name().any_eq(name) => Some(
                EmoteLogQuery::Guild((guild, get_emote_opt(emotes, top, 0))),
            ),
            (Some(guild), Some(user)) if guild_user_sub_name().any_eq(name) => Some(
                EmoteLogQuery::GuildUser((guild, user, get_emote_opt(emotes, top, 1))),
            ),
            (_, Some(user)) if user_sub_name().any_eq(name) => Some(
                EmoteLogQuery::User((user, get_emote_opt(emotes, top, 1))),
            ),
            _ => {
                if received_group_name().any_eq(name) {
                    if top.options.len() == 0 {
                        None
                    } else {
                        Self::from_received(emotes, &top.options[0], guild_id_opt, user_id_opt)
                    }
                } else {
                    None
                }
            },
        }
    }
}

} // verus!
