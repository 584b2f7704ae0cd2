//! The command that lists every emote of the catalog.

use vstd::prelude::*;
use vstd::string::*;
use vstd::utf8::*;

use crate::text::{decimal, push_decimal};
use crate::builder::{CommandView, CreateApplicationCommand};
use crate::util::{chat_command, create_chat_command, LocalizedString};

verus! {

/// The command's name.
#[verifier::allow_in_spec]
pub fn name() -> LocalizedString
    returns
        (LocalizedString { en: "emotes", ja: "エモート一覧" }),
{
    LocalizedString { en: "emotes", ja: "エモート一覧" }
}

/// What the command does.
#[verifier::allow_in_spec]
pub fn desc() -> LocalizedString
    returns
        (LocalizedString { en: "List all available emotes", ja: "選択できるエモートの一覧" }),
{
    LocalizedString { en: "List all available emotes", ja: "選択できるエモートの一覧" }
}

/// The words that open each message of the list.
#[verifier::allow_in_spec]
pub fn list_msg_prefix() -> LocalizedString
    returns
        (LocalizedString { en: "List of emotes", ja: "エモート一覧" }),
{
    LocalizedString { en: "List of emotes", ja: "エモート一覧" }
}

/// The command that lists the emotes.
#[derive(Clone, Copy, Debug)]
pub struct ListEmotesCmd;

impl ListEmotesCmd {
    /// What is registered: a command for the chat input that also works in direct messages.
    pub open spec fn application_command() -> CommandView {
        CommandView { dm_permission: Some(true), ..chat_command(name(), desc()) }
    }

    /// The command as it is registered with the platform.
    pub fn to_application_command() -> (r: CreateApplicationCommand)
        ensures
            r@ == Self::application_command(),
    {
        let mut cmd = create_chat_command(name(), desc());
        cmd.dm_permission(true);
        cmd
    }

    /// The name under which the command is registered.
    #[verifier::allow_in_spec]
    pub fn name() -> LocalizedString
        returns
            name(),
    {
        name()
    }
}

/// Number of bytes that a message may hold.
pub const MESSAGE_LIMIT: usize = 2000;

/// The most bytes that the platform takes in one message.
///
/// Reads serenity's constant `MESSAGE_CODE_LIMIT`, which its source gives as
/// 2000.
#[verifier::external_body]
fn message_code_limit() -> (r: usize)
    ensures
        r == MESSAGE_LIMIT,
{
    serenity::constants::MESSAGE_CODE_LIMIT
}

/// Number of bytes that `text` takes.
pub open spec fn byte_len(text: Seq<char>) -> nat {
    encode_utf8(text).len()
}

/// Whether `item` no longer fits in the message `msg` under `prefix`: the
/// prefix, ten bytes for the count, the message, the item and a separator
/// come to more than a message may hold.
pub open spec fn overfull(prefix: Seq<char>, msg: Seq<char>, item: Seq<char>) -> bool {
    byte_len(prefix) + 10 + byte_len(msg) + byte_len(item) + 2 > MESSAGE_LIMIT
}

/// The messages that are full, and the one that is being filled.
pub struct Split {
    pub done: Seq<Seq<char>>,
    pub current: Seq<char>,
}

/// The state after `first` and then the items of `rest` have been laid out.
///
/// Each item after the first is preceded by a separator. Where the item no
/// longer fits, the message ends after the separator and the item opens the
/// next message.
pub open spec fn laid_out(prefix: Seq<char>, first: Seq<char>, rest: Seq<Seq<char>>) -> Split
    decreases rest.len(),
{
    if rest.len() == 0 {
        Split { done: Seq::empty(), current: first }
    } else {
        let before = laid_out(prefix, first, rest.drop_last());
        let msg = before.current + ", "@;
        if overfull(prefix, msg, rest.last()) {
            Split { done: before.done.push(msg), current: rest.last() }
        } else {
            Split { done: before.done, current: msg + rest.last() }
        }
    }
}

/// The messages that `items` are laid out in, without their headers.
pub open spec fn bodies(prefix: Seq<char>, items: Seq<Seq<char>>) -> Seq<Seq<char>> {
    if items.len() == 0 {
        Seq::empty()
    } else {
        let split = laid_out(prefix, items[0], items.drop_first());
        split.done.push(split.current)
    }
}

/// The header of the message at `index` of `count`: the prefix, then the
/// message's number, counted from 1, and the number of messages.
pub open spec fn header(prefix: Seq<char>, index: nat, count: nat) -> Seq<char> {
    prefix + " ("@ + decimal(index + 1) + "/"@ + decimal(count) + "): "@
}

/// The messages that list `items` under `prefix`.
pub open spec fn split_messages(prefix: Seq<char>, items: Seq<Seq<char>>) -> Seq<Seq<char>> {
    let parts = bodies(prefix, items);
    Seq::new(parts.len(), |i: int| header(prefix, i as nat, parts.len()) + parts[i])
}

/// The characters of each text of a list, in order.
pub open spec fn text_views(texts: Seq<String>) -> Seq<Seq<char>> {
    Seq::new(texts.len(), |i: int| texts[i]@)
}

/// Whether three lengths and twelve bytes more exceed `limit`.
fn exceeds(a: usize, b: usize, c: usize, limit: usize) -> (r: bool)
    ensures
        r == (a + 10 + b + c + 2 > limit),
{
    if a > limit || b > limit || c > limit {
        true
    } else if limit - a < b {
        true
    } else if limit - a - b < c {
        true
    } else {
        limit - a - b - c < 12
    }
}

/// Lists `body` under `prefix`, in as many messages as it takes.
///
/// The items are separated by a comma and a space. No items give no message.
pub fn split_by_max_message_len(prefix: &str, body: &[String]) -> (r: Vec<String>)
    ensures
        text_views(r@) == split_messages(prefix@, text_views(body@)),
{
    let ghost items = text_views(body@);
    let mut res: Vec<String> = Vec::new();
    if body.len() == 0 {
        assert(text_views(res@) =~= split_messages(prefix@, items));
        return res;
    }
    let limit = message_code_limit();
    let mut msg = body[0].clone();
    let ghost rest = items.drop_first();
    let mut i: usize = 1;
    assert(rest.subrange(0, 0) =~= Seq::<Seq<char>>::empty());
    assert(text_views(res@) =~= Seq::<Seq<char>>::empty());
    while i < body.len()
        invariant
            1 <= i <= body.len(),
            limit == MESSAGE_LIMIT,
            items == text_views(body@),
            rest == items.drop_first(),
            laid_out(prefix@, items[0], rest.subrange(0, i - 1)).done == text_views(res@),
            laid_out(prefix@, items[0], rest.subrange(0, i - 1)).current == msg@,
        decreases body.len() - i,
    {
        let item = &body[i];
        proof {
            let upto = rest.subrange(0, i as int);
            assert(upto.drop_last() =~= rest.subrange(0, i - 1));
            assert(upto.last() == item@);
        }
        msg.append(", ");
        if exceeds(
            prefix.as_bytes().len(),
            msg.as_str().as_bytes().len(),
            item.as_str().as_bytes().len(),
            limit,
        ) {
            let ghost before = text_views(res@);
            res.push(msg);
            assert(text_views(res@) =~= before.push(msg@));
            msg = String::new();
            msg.append(item.as_str());
            assert(msg@ =~= item@);
        } else {
            msg.append(item.as_str());
        }
        i += 1;
    }
    assert(rest.subrange(0, i - 1) =~= rest);
    let ghost before = text_views(res@);
    res.push(msg);
    assert(text_views(res@) =~= before.push(msg@));
    let ghost parts = bodies(prefix@, items);
    assert(text_views(res@) == parts);
    let count = res.len();
    let mut out: Vec<String> = Vec::new();
    let mut k: usize = 0;
    while k < count
        invariant
            k <= count,
            count == res.len(),
            out.len() == k,
            parts == text_views(res@),
            forall|j: int|
                0 <= j < k ==> (#[trigger] out[j])@ == header(prefix@, j as nat, count as nat)
                    + parts[j],
        decreases count - k,
    {
        let mut m = String::from_str(prefix);
        m.append(" (");
        push_decimal(&mut m, (k + 1) as u64);
        m.append("/");
        push_decimal(&mut m, count as u64);
        m.append("): ");
        m.append(res[k].as_str());
        assert(m@ =~= header(prefix@, k as nat, count as nat) + parts[k as int]);
        out.push(m);
        k += 1;
    }
    assert(text_views(out@) =~= split_messages(prefix@, items));
    out
}

} // verus!
