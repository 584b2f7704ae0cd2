//! Chat messages that call an emote: a prefix, the emote's name, and
//! whatever follows as the target.

use vstd::prelude::*;
use vstd::string::*;

use crate::db::models::{DbGuild, DbGuildView, DbUser, DbUserView};
use crate::db::util::{DiscordIdExt, DB_ID_WIDTH};
use crate::handler::repository::{Handler, HandlerView};
use crate::handler::{EmoteData, EmoteDataView, HandlerError, HandlerErrorView};
use crate::id::{GuildId, UserId};
use crate::text::zero_padded;

verus! {

/// Whether `c` is white space, as Unicode defines it.
pub open spec fn is_whitespace(c: char) -> bool {
    let n = c as u32;
    ||| 0x09 <= n <= 0x0D
    ||| n == 0x20
    ||| n == 0x85
    ||| n == 0xA0
    ||| n == 0x1680
    ||| 0x2000 <= n <= 0x200A
    ||| n == 0x2028
    ||| n == 0x2029
    ||| n == 0x202F
    ||| n == 0x205F
    ||| n == 0x3000
}

/// Whether `c` is white space.
pub fn char_is_whitespace(c: char) -> (r: bool)
    ensures
        r == is_whitespace(c),
{
    let n = c as u32;
    (0x09 <= n && n <= 0x0D) || n == 0x20 || n == 0x85 || n == 0xA0 || n == 0x1680 || (0x2000 <= n
        && n <= 0x200A) || n == 0x2028 || n == 0x2029 || n == 0x202F || n == 0x205F || n == 0x3000
}

/// The words read so far, and the word being read.
pub struct Scan {
    pub done: Seq<Seq<char>>,
    pub current: Seq<char>,
}

/// The state after the characters of `s` have been read, from first to last:
/// white space ends the word being read, anything else is added to it.
pub open spec fn scanned(s: Seq<char>) -> Scan
    decreases s.len(),
{
    if s.len() == 0 {
        Scan { done: Seq::empty(), current: Seq::empty() }
    } else {
        let before = scanned(s.drop_last());
        if is_whitespace(s.last()) {
            if before.current.len() > 0 {
                Scan { done: before.done.push(before.current), current: Seq::empty() }
            } else {
                before
            }
        } else {
            Scan { done: before.done, current: before.current.push(s.last()) }
        }
    }
}

/// The words of `s`: its longest runs of characters that are not white
/// space, in order.
pub open spec fn words(s: Seq<char>) -> Seq<Seq<char>> {
    let scan = scanned(s);
    if scan.current.len() > 0 {
        scan.done.push(scan.current)
    } else {
        scan.done
    }
}

/// Whether `word` is not empty and holds no white space.
pub open spec fn is_word(word: Seq<char>) -> bool {
    word.len() > 0 && forall|k: int| 0 <= k < word.len() ==> !is_whitespace(#[trigger] word[k])
}

/// Every word read is a word, and the word being read holds no white space.
proof fn lemma_scanned_words(s: Seq<char>)
    ensures
        forall|i: int| 0 <= i < scanned(s).done.len() ==> is_word(#[trigger] scanned(s).done[i]),
        forall|k: int|
            0 <= k < scanned(s).current.len() ==> !is_whitespace(#[trigger] scanned(s).current[k]),
    decreases s.len(),
{
    if s.len() > 0 {
        lemma_scanned_words(s.drop_last());
        let before = scanned(s.drop_last());
        let after = scanned(s);
        if is_whitespace(s.last()) {
            if before.current.len() > 0 {
                assert forall|i: int| 0 <= i < after.done.len() implies is_word(
                    #[trigger] after.done[i],
                ) by {
                    if i < before.done.len() {
                        assert(after.done[i] == before.done[i]);
                    } else {
                        assert(after.done[i] == before.current);
                    }
                }
            }
        } else {
            assert forall|k: int| 0 <= k < after.current.len() implies !is_whitespace(
                #[trigger] after.current[k],
            ) by {
                if k < before.current.len() {
                    assert(after.current[k] == before.current[k]);
                }
            }
        }
    }
}

/// The words of a text are words: none is empty and none holds white space.
pub proof fn lemma_words_are_words(s: Seq<char>)
    ensures
        forall|i: int| 0 <= i < words(s).len() ==> is_word(#[trigger] words(s)[i]),
{
    lemma_scanned_words(s);
    let scan = scanned(s);
    assert forall|i: int| 0 <= i < words(s).len() implies is_word(#[trigger] words(s)[i]) by {
        if i < scan.done.len() {
            assert(words(s)[i] == scan.done[i]);
        } else {
            assert(words(s)[i] == scan.current);
        }
    }
}

/// The characters of each text of a list, in order.
pub open spec fn text_views(texts: Seq<String>) -> Seq<Seq<char>> {
    Seq::new(texts.len(), |i: int| texts[i]@)
}

/// Splits `s` at white space into its words.
pub fn split_whitespace(s: &str) -> (r: Vec<String>)
    ensures
        text_views(r@) == words(s@),
{
    let len = s.unicode_len();
    let mut out: Vec<String> = Vec::new();
    let mut start: usize = 0;
    let mut i: usize = 0;
    assert(s@.subrange(0, 0) =~= Seq::<char>::empty());
    assert(text_views(out@) =~= Seq::<Seq<char>>::empty());
    for c in it: s.chars()
        invariant
            i == it.index(),
            it.seq() == s@,
            len == s@.len(),
            start <= i <= len,
            scanned(s@.subrange(0, i as int)).done == text_views(out@),
            scanned(s@.subrange(0, i as int)).current == s@.subrange(start as int, i as int),
    {
        proof {
            let upto = s@.subrange(0, i + 1);
            assert(upto.drop_last() =~= s@.subrange(0, i as int));
            assert(upto.last() == c);
        }
        if char_is_whitespace(c) {
            if start < i {
                let ghost before = text_views(out@);
                let word = s.substring_char(start, i);
                out.push(String::from_str(word));
                assert(text_views(out@) =~= before.push(word@));
            }
            start = i + 1;
            assert(s@.subrange(start as int, i + 1) =~= Seq::<char>::empty());
        } else {
            assert(s@.subrange(start as int, i + 1) =~= s@.subrange(start as int, i as int).push(c));
        }
        i = i + 1;
    }
    assert(s@.subrange(0, i as int) =~= s@);
    if start < len {
        let ghost before = text_views(out@);
        let word = s.substring_char(start, len);
        out.push(String::from_str(word));
        assert(text_views(out@) =~= before.push(word@));
    }
    out
}

/// Whether `s` begins with `prefix`.
pub open spec fn has_prefix(s: Seq<char>, prefix: Seq<char>) -> bool {
    prefix.len() <= s.len() && s.subrange(0, prefix.len() as int) == prefix
}

/// Whether `s` begins with `prefix`.
pub fn starts_with(s: &str, prefix: &str) -> (r: bool)
    ensures
        r == has_prefix(s@, prefix@),
{
    let n = prefix.unicode_len();
    if n > s.unicode_len() {
        return false;
    }
    let mut i: usize = 0;
    while i < n
        invariant
            i <= n,
            n == prefix@.len(),
            n <= s@.len(),
            forall|k: int| 0 <= k < i ==> s@[k] == prefix@[k],
        decreases n - i,
    {
        if s.get_char(i) != prefix.get_char(i) {
            assert(s@.subrange(0, n as int)[i as int] != prefix@[i as int]);
            return false;
        }
        i += 1;
    }
    assert(s@.subrange(0, n as int) =~= prefix@);
    true
}

/// `s` without `prefix` in front, where it begins with it; `s` as it is
/// where it does not.
pub open spec fn without_prefix(s: Seq<char>, prefix: Seq<char>) -> Seq<char> {
    if has_prefix(s, prefix) {
        s.subrange(prefix.len() as int, s.len() as int)
    } else {
        s
    }
}

/// `s` without `prefix` in front, where it begins with it.
pub fn strip_prefix(s: &str, prefix: &str) -> (r: String)
    ensures
        r@ == without_prefix(s@, prefix@),
{
    if starts_with(s, prefix) {
        String::from_str(s.substring_char(prefix.unicode_len(), s.unicode_len()))
    } else {
        String::from_str(s)
    }
}

/// The texts of `parts` with a space between each two.
pub open spec fn joined(parts: Seq<Seq<char>>) -> Seq<char>
    decreases parts.len(),
{
    if parts.len() == 0 {
        Seq::empty()
    } else if parts.len() == 1 {
        parts[0]
    } else {
        joined(parts.drop_last()) + seq![' '] + parts.last()
    }
}

/// The texts of `parts` with a space between each two.
pub fn join(parts: &[String]) -> (r: String)
    ensures
        r@ == joined(text_views(parts@)),
{
    let ghost views = text_views(parts@);
    let mut out = String::new();
    let mut i: usize = 0;
    assert(views.subrange(0, 0) =~= Seq::<Seq<char>>::empty());
    while i < parts.len()
        invariant
            i <= parts.len(),
            views == text_views(parts@),
            out@ == joined(views.subrange(0, i as int)),
        decreases parts.len() - i,
    {
        proof {
            reveal_strlit(" ");
            let upto = views.subrange(0, i + 1);
            assert(upto.drop_last() =~= views.subrange(0, i as int));
            assert(upto.last() == parts[i as int]@);
            assert(i == 0 ==> upto[0] == parts[i as int]@);
        }
        if i > 0 {
            out.append(" ");
        }
        out.append(parts[i].as_str());
        proof {
            let upto = views.subrange(0, i + 1);
            if i == 0 {
                assert(out@ =~= upto[0]);
            } else {
                assert(out@ =~= joined(upto.drop_last()) + seq![' '] + upto.last());
            }
        }
        i += 1;
    }
    assert(views.subrange(0, i as int) =~= views);
    out
}

/// What a message asks for: an emote, under the name the user gave and as the
/// command it is kept under, and the target if one follows.
#[derive(Debug, PartialEq, Eq)]
pub struct ParsedInput {
    /// The emote's name as the user gave it.
    pub original_emote: String,
    /// The command that the emote is kept under: the name after a slash.
    pub emote: String,
    /// What follows the name, if anything does.
    pub mention: Option<String>,
}

/// What contracts say of a [`ParsedInput`].
pub struct ParsedInputView {
    pub original_emote: Seq<char>,
    pub emote: Seq<char>,
    pub mention: Option<Seq<char>>,
}

impl View for ParsedInput {
    type V = ParsedInputView;

    open spec fn view(&self) -> ParsedInputView {
        ParsedInputView {
            original_emote: self.original_emote@,
            emote: self.emote@,
            mention: match self.mention {
                Some(m) => Some(m@),
                None => None,
            },
        }
    }
}

/// What the parts of a message ask for: the first part names the emote, and
/// the others, where there are any, are the target, joined by spaces. No
/// parts ask for nothing.
pub open spec fn parsed_parts(parts: Seq<Seq<char>>) -> Result<ParsedInputView, HandlerErrorView> {
    if parts.len() == 0 {
        Err(HandlerErrorView::EmptyCommand)
    } else {
        Ok(
            ParsedInputView {
                original_emote: parts[0],
                emote: seq!['/'] + parts[0],
                mention: if parts.len() == 1 {
                    None
                } else {
                    Some(joined(parts.drop_first()))
                },
            },
        )
    }
}

/// Parsed input or an error, as contracts see it.
pub open spec fn parsed_view(r: Result<ParsedInput, HandlerError>) -> Result<
    ParsedInputView,
    HandlerErrorView,
> {
    match r {
        Ok(input) => Ok(input@),
        Err(e) => Err(e@),
    }
}

/// Reads the parts of a message.
pub fn process_input(mparts: &[String]) -> (r: Result<ParsedInput, HandlerError>)
    ensures
        parsed_view(r) == parsed_parts(text_views(mparts@)),
{
    if mparts.len() == 0 {
        return Err(HandlerError::EmptyCommand);
    }
    proof {
        reveal_strlit("/");
    }
    let original_emote = mparts[0].clone();
    let mut emote = String::from_str("/");
    emote.append(original_emote.as_str());
    let rest = vstd::slice::slice_subrange(mparts, 1, mparts.len());
    assert(text_views(rest@) =~= text_views(mparts@).drop_first());
    let mention = if rest.len() == 0 {
        None
    } else {
        Some(join(rest))
    };
    assert(emote@ =~= seq!['/'] + mparts[0]@);
    Ok(ParsedInput { original_emote, emote, mention })
}

/// The parts of a message that begins with `prefix`: its words, the first of
/// them without the prefix. A message that does not begin with the prefix
/// has no parts to read.
pub open spec fn message_parts(content: Seq<char>, prefix: Seq<char>) -> Option<Seq<Seq<char>>> {
    if has_prefix(content, prefix) {
        let parts = words(content);
        if parts.len() == 0 {
            Some(parts)
        } else {
            Some(parts.update(0, without_prefix(parts[0], prefix)))
        }
    } else {
        None
    }
}

/// Reads the parts of a message in a guild whose commands begin with
/// `prefix`.
pub fn split_message(content: &str, prefix: &str) -> (r: Option<Vec<String>>)
    ensures
        match r {
            Some(parts) => message_parts(content@, prefix@) == Some(text_views(parts@)),
            None => message_parts(content@, prefix@) is None,
        },
{
    if !starts_with(content, prefix) {
        return None;
    }
    let mut mparts = split_whitespace(content);
    if mparts.len() > 0 {
        let ghost before = text_views(mparts@);
        let first = strip_prefix(mparts[0].as_str(), prefix);
        mparts.set(0, first);
        assert(text_views(mparts@) =~= before.update(0, without_prefix(before[0], prefix@)));
    }
    Some(mparts)
}

/// The emote that a message asks for, looked up among those that `handler`
/// knows. A name that calls no emote is an error that carries the name as
/// the user gave it.
pub fn find_emote<'a>(handler: &'a Handler, input: &ParsedInput) -> (r: Result<
    &'a EmoteData,
    HandlerError,
>)
    ensures
        match r {
            Ok(data) => handler@.get(input@.emote) == Some(data@),
            Err(e) => handler@.get(input@.emote) is None && e@
                == HandlerErrorView::UnrecognizedEmote(input@.original_emote),
        },
{
    match handler.get_emote_data(input.emote.as_str()) {
        Some(data) => Ok(data),
        None => Err(HandlerError::UnrecognizedEmote(input.original_emote.clone())),
    }
}

/// What the parts of a message come to among the emotes `handler` knows:
/// what they ask for and the emote they name, or the error of reading them,
/// or the error of a name that calls no emote.
pub open spec fn processed(handler: HandlerView, parts: Seq<Seq<char>>) -> Result<
    (ParsedInputView, EmoteDataView),
    HandlerErrorView,
> {
    match parsed_parts(parts) {
        Ok(input) => match handler.get(input.emote) {
            Some(emote) => Ok((input, emote)),
            None => Err(HandlerErrorView::UnrecognizedEmote(input.original_emote)),
        },
        Err(e) => Err(e),
    }
}

impl Handler {
    /// Reads the parts of a message and looks up the emote they name.
    pub fn process_message_input<'a>(&'a self, mparts: &[String]) -> (r: Result<
        (ParsedInput, &'a EmoteData),
        HandlerError,
    >)
        ensures
            match r {
                Ok((input, emote)) => processed(self@, text_views(mparts@)) == Ok::<
                    (ParsedInputView, EmoteDataView),
                    HandlerErrorView,
                >((input@, emote@)),
                Err(e) => processed(self@, text_views(mparts@)) == Err::<
                    (ParsedInputView, EmoteDataView),
                    HandlerErrorView,
                >(e@),
            },
    {
        match process_input(mparts) {
            Ok(input) => match find_emote(self, &input) {
                Ok(emote) => Ok((input, emote)),
                Err(e) => Err(e),
            },
            Err(e) => Err(e),
        }
    }
}

/// What the store holds about the sender of a message and the guild it was
/// sent in.
#[derive(Debug)]
pub struct MessageDbData {
    pub user_discord_id: UserId,
    pub guild_discord_id: Option<GuildId>,
    pub user: Option<DbUser>,
    pub guild: Option<DbGuild>,
}

/// The settings that apply to a sender: the sender's own where the store
/// holds them; else the guild's language and gender, under the sender's
/// identifier as the store writes it; else the defaults.
pub open spec fn settings_for(
    user: Option<DbUserView>,
    guild: Option<DbGuildView>,
    user_discord_id: UserId,
) -> DbUserView {
    match user {
        Some(u) => u,
        None => match guild {
            Some(g) => DbUserView {
                discord_id: zero_padded(user_discord_id.0 as nat, DB_ID_WIDTH as nat),
                language: g.language,
                gender: g.gender,
            },
            None => DbUserView {
                discord_id: Seq::empty(),
                language: crate::db::models::DbLanguage::En,
                gender: crate::db::models::DbGender::M,
            },
        },
    }
}

impl MessageDbData {
    /// What is known of a sender before the store has been asked.
    pub fn new(user_discord_id: UserId, guild_discord_id: Option<GuildId>) -> (r: MessageDbData)
        ensures
            r.user_discord_id == user_discord_id,
            r.guild_discord_id == guild_discord_id,
            r.user is None,
            r.guild is None,
    {
        MessageDbData { user_discord_id, guild_discord_id, user: None, guild: None }
    }

    /// The sender's own settings, where the store holds them.
    pub fn user(&self) -> (r: Option<&DbUser>)
        ensures
            match r {
                Some(u) => self.user == Some(*u),
                None => self.user is None,
            },
    {
        self.user.as_ref()
    }

    /// The guild's settings, where the message was sent in a guild and the
    /// store holds them.
    pub fn guild(&self) -> (r: Option<&DbGuild>)
        ensures
            match r {
                Some(g) => self.guild_discord_id is Some && self.guild == Some(*g),
                None => self.guild_discord_id is None || self.guild is None,
            },
    {
        match self.guild_discord_id {
            Some(_) => self.guild.as_ref(),
            None => None,
        }
    }

    /// The settings that apply to the sender.
    pub fn determine_user_settings(&self) -> (r: DbUser)
        ensures
            r@ == settings_for(
                match self.user {
                    Some(u) => Some(u@),
                    None => None,
                },
                match self.guild {
                    Some(g) => if self.guild_discord_id is Some {
                        Some(g@)
                    } else {
                        None
                    },
                    None => None,
                },
                self.user_discord_id,
            ),
    {
        match self.user() {
            Some(user) => user.clone(),
            None => match self.guild() {
                Some(guild) => {
                    let mut user = DbUser::from_guild(guild);
                    user.discord_id = self.user_discord_id.to_db_string();
                    user
                },
                None => DbUser::default(),
            },
        }
    }
}

} // verus!
