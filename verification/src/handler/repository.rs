//! The emotes that the bot knows, found by the texts that call them.

use vstd::prelude::*;
use vstd::set_lib::*;
use vstd::string::*;
use xiv_emote_parser::log_message::parser::extract_condition_texts;

use super::xivapi;
use super::{
    ConditionTextPair, ConditionTextPairView, EmoteData, EmoteDataView, HandlerError,
    HandlerErrorView,
};
use crate::text::str_eq;

verus! {

/// Whether the template engine could read `template` this time.
///
/// Calls `extract_condition_texts` and reports whether it succeeded. Nothing
/// is claimed of the answer: the parser behind it gives up where little stack
/// is left, so the same template may be read in one call and not in another.
#[verifier::external_body]
fn engine_parses(template: &str) -> (r: bool) {
    extract_condition_texts(template).is_ok()
}

/// One command and the emote it calls.
#[derive(Debug)]
struct Entry {
    command: String,
    data: EmoteData,
}

/// The emotes that the bot knows.
///
/// Each emote is kept under every text that calls it, so an emote with
/// several commands is kept several times. No command is kept twice.
#[derive(Debug)]
pub struct Handler {
    entries: Vec<Entry>,
}

/// What contracts say of a [`Handler`]: its commands in the order in which
/// they were first entered, and the emote of each.
pub struct HandlerView {
    pub commands: Seq<Seq<char>>,
    pub emotes: Seq<EmoteDataView>,
}

impl HandlerView {
    /// What holds of every handler: each command has its emote, and no
    /// command occurs twice.
    pub open spec fn wf(self) -> bool {
        self.commands.len() == self.emotes.len() && self.commands.no_duplicates()
    }

    /// A handler that knows no emote.
    pub open spec fn empty() -> HandlerView {
        HandlerView { commands: Seq::empty(), emotes: Seq::empty() }
    }

    /// Whether `command` calls an emote.
    pub open spec fn contains(self, command: Seq<char>) -> bool {
        self.commands.contains(command)
    }

    /// The place at which `command` is kept.
    pub open spec fn place(self, command: Seq<char>) -> int {
        self.commands.index_of(command)
    }

    /// The emote that `command` calls, if it calls one.
    pub open spec fn get(self, command: Seq<char>) -> Option<EmoteDataView> {
        if self.contains(command) {
            Some(self.emotes[self.place(command)])
        } else {
            None
        }
    }

    /// The handler after `command` has been entered for `emote`: a command
    /// that is known calls the new emote from now on and keeps its place, a
    /// new one comes last.
    pub open spec fn with(self, command: Seq<char>, emote: EmoteDataView) -> HandlerView {
        if self.contains(command) {
            HandlerView { emotes: self.emotes.update(self.place(command), emote), ..self }
        } else {
            HandlerView { commands: self.commands.push(command), emotes: self.emotes.push(emote) }
        }
    }

    /// The handler after each of `commands` has been entered for `emote`, in
    /// order.
    pub open spec fn with_all(self, commands: Seq<Seq<char>>, emote: EmoteDataView) -> HandlerView
        decreases commands.len(),
    {
        if commands.len() == 0 {
            self
        } else {
            self.with_all(commands.drop_last(), emote).with(commands.last(), emote)
        }
    }

    /// Whether `first` comes before `second` in the list by number: its emote
    /// has the smaller number, or the same number and the earlier place.
    pub open spec fn before(self, first: Seq<char>, second: Seq<char>) -> bool {
        let i = self.place(first);
        let j = self.place(second);
        self.emotes[i].id < self.emotes[j].id || (self.emotes[i].id == self.emotes[j].id && i < j)
    }

    /// Whether `list` is the list of the commands by number: it holds as many
    /// texts as there are commands, each of them a command, in ascending order
    /// of the numbers of their emotes, and commands of one number in the order
    /// of their places.
    pub open spec fn listed_by_id(self, list: Seq<Seq<char>>) -> bool {
        &&& list.len() == self.commands.len()
        &&& forall|k: int| 0 <= k < list.len() ==> self.contains(#[trigger] list[k])
        &&& forall|i: int, j: int| 0 <= i < j < list.len() ==> self.before(list[i], list[j])
    }
}

/// Whether an emote was reported whole: both log messages, its commands, its
/// name and its number.
pub open spec fn is_complete(result: xivapi::EmoteDataView) -> bool {
    &&& result.log_message_targeted is Some
    &&& result.log_message_untargeted is Some
    &&& result.text_command is Some
    &&& result.name is Some
    &&& result.id is Some
}

/// The four log messages of an emote that was reported whole: for English with
/// and without a target, then for Japanese with and without.
pub open spec fn templates(result: xivapi::EmoteDataView) -> Seq<Seq<char>> {
    seq![
        result.log_message_targeted->0.text_en,
        result.log_message_untargeted->0.text_en,
        result.log_message_targeted->0.text_ja,
        result.log_message_untargeted->0.text_ja,
    ]
}

/// Whether one of the log messages is empty.
pub open spec fn has_empty_template(result: xivapi::EmoteDataView) -> bool {
    exists|i: int| 0 <= i < 4 && #[trigger] templates(result)[i].len() == 0
}

/// Whether an emote is taken in at all: it was reported whole, and none of
/// its log messages is empty.
pub open spec fn is_usable(result: xivapi::EmoteDataView) -> bool {
    is_complete(result) && !has_empty_template(result)
}

/// The emote that is kept for one that was reported whole.
pub open spec fn kept_emote(result: xivapi::EmoteDataView) -> EmoteDataView {
    EmoteDataView {
        id: result.id->0,
        name: result.name->0,
        en: ConditionTextPairView {
            targeted: result.log_message_targeted->0.text_en,
            untargeted: result.log_message_untargeted->0.text_en,
        },
        ja: ConditionTextPairView {
            targeted: result.log_message_targeted->0.text_ja,
            untargeted: result.log_message_untargeted->0.text_ja,
        },
    }
}

/// `list` with `text` after it, where `text` is present and not empty.
pub open spec fn with_command(list: Seq<Seq<char>>, text: Option<Seq<char>>) -> Seq<Seq<char>> {
    match text {
        Some(t) => if t.len() > 0 {
            list.push(t)
        } else {
            list
        },
        None => list,
    }
}

/// The texts that call an emote: its aliases in English and Japanese, then
/// its commands in English and Japanese, without those that are missing or
/// empty.
pub open spec fn command_texts(command: xivapi::TextCommandView) -> Seq<Seq<char>> {
    with_command(
        with_command(
            with_command(with_command(Seq::empty(), command.alias_en), command.alias_ja),
            command.command_en,
        ),
        command.command_ja,
    )
}

/// The handler after one reported emote has been taken in whole: a usable
/// emote is entered under each of its texts, any other is passed over.
pub open spec fn taken_whole(handler: HandlerView, result: xivapi::EmoteDataView) -> HandlerView {
    if is_usable(result) {
        handler.with_all(command_texts(result.text_command->0), kept_emote(result))
    } else {
        handler
    }
}

/// The handler after one reported emote has been taken in, where `readable`
/// says whether the template engine could read its log messages.
///
/// A usable emote that the engine could not read stops everything. What the
/// engine said of an emote that is not usable does not matter.
pub open spec fn taken_in(
    handler: HandlerView,
    result: xivapi::EmoteDataView,
    readable: bool,
) -> Result<HandlerView, HandlerErrorView> {
    if is_usable(result) && !readable {
        Err(HandlerErrorView::Extract)
    } else {
        Ok(taken_whole(handler, result))
    }
}

/// The handler after the reported emotes have been taken in whole, in order.
pub open spec fn loaded(results: Seq<xivapi::EmoteDataView>) -> HandlerView
    decreases results.len(),
{
    if results.len() == 0 {
        HandlerView::empty()
    } else {
        taken_whole(loaded(results.drop_last()), results.last())
    }
}

/// Entering a command keeps a handler well formed.
pub proof fn lemma_with_keeps_wf(handler: HandlerView, command: Seq<char>, emote: EmoteDataView)
    requires
        handler.wf(),
    ensures
        handler.with(command, emote).wf(),
        handler.with(command, emote).get(command) == Some(emote),
        forall|other: Seq<char>|
            other != command ==> handler.with(command, emote).get(other) == handler.get(other),
{
    let after = handler.with(command, emote);
    if handler.contains(command) {
        assert(after.commands == handler.commands);
        assert forall|other: Seq<char>| other != command implies after.get(other) == handler.get(
            other,
        ) by {
            if handler.contains(other) {
                assert(handler.place(other) != handler.place(command));
            }
        }
    } else {
        let at = handler.commands.len() as int;
        assert(after.commands[at] == command);
        assert(after.commands.no_duplicates()) by {
            assert forall|i: int, j: int|
                0 <= i < after.commands.len() && 0 <= j < after.commands.len() && i
                    != j implies after.commands[i] != after.commands[j] by {
                if i < at && j < at {
                    assert(handler.commands[i] != handler.commands[j]);
                } else if i < at {
                    assert(handler.commands.contains(handler.commands[i]));
                } else {
                    assert(handler.commands.contains(handler.commands[j]));
                }
            }
        }
        assert(after.commands.contains(command));
        assert(after.place(command) == at) by {
            let p = after.place(command);
            if p != at {
                assert(after.commands[p] == after.commands[at]);
            }
        }
        assert forall|other: Seq<char>| other != command implies after.get(other) == handler.get(
            other,
        ) by {
            if handler.contains(other) {
                let p = handler.place(other);
                assert(after.commands[p] == other);
                assert(after.commands.contains(other));
                let q = after.place(other);
                if q != p {
                    assert(after.commands[q] == after.commands[p]);
                }
            } else {
                if after.commands.contains(other) {
                    let q = choose|q: int| 0 <= q < after.commands.len() && after.commands[q] == other;
                    assert(q < at);
                    assert(handler.commands[q] == other);
                }
            }
        }
    }
}

/// A list of the commands by number names every command once: none is named
/// twice and none is left out.
pub proof fn lemma_listed_by_id_names_every_command(handler: HandlerView, list: Seq<Seq<char>>)
    requires
        handler.wf(),
        handler.listed_by_id(list),
    ensures
        list.no_duplicates(),
        forall|command: Seq<char>| handler.contains(command) <==> list.contains(command),
{
    let n = handler.commands.len() as int;
    let places = Seq::new(list.len(), |k: int| handler.place(list[k]));
    assert forall|k: int| 0 <= k < list.len() implies 0 <= #[trigger] places[k] < n
        && handler.commands[places[k]] == list[k] by {
        assert(handler.contains(list[k]));
    }
    assert forall|i: int, j: int| 0 <= i < j < list.len() implies places[i] != places[j] by {
        assert(handler.before(list[i], list[j]));
    }
    assert(places.no_duplicates());
    assert forall|i: int, j: int| 0 <= i < list.len() && 0 <= j < list.len() && i != j implies list[i]
        != list[j] by {
        assert(places[i] != places[j]);
    }
    places.unique_seq_to_set();
    lemma_int_range(0, n);
    assert(places.to_set().subset_of(set_int_range(0, n))) by {
        assert forall|p: int| places.to_set().contains(p) implies set_int_range(0, n).contains(
            p,
        ) by {
            let k = choose|k: int| 0 <= k < places.len() && places[k] == p;
            assert(0 <= places[k] < n);
        }
    }
    assert(places.to_set().finite()) by {
        vstd::seq_lib::seq_to_set_is_finite(places);
    }
    lemma_subset_equality(places.to_set(), set_int_range(0, n));
    assert forall|command: Seq<char>| handler.contains(command) implies list.contains(command) by {
        let p = handler.place(command);
        assert(set_int_range(0, n).contains(p));
        assert(places.to_set().contains(p));
        let k = choose|k: int| 0 <= k < places.len() && places[k] == p;
        assert(handler.commands[places[k]] == list[k]);
        assert(list[k] == command);
    }
    assert forall|command: Seq<char>| list.contains(command) implies handler.contains(command) by {
        let k = choose|k: int| 0 <= k < list.len() && list[k] == command;
        assert(handler.contains(list[k]));
    }
}

/// The commands of a list of entries, in order.
spec fn entry_commands(entries: Seq<Entry>) -> Seq<Seq<char>> {
    Seq::new(entries.len(), |i: int| entries[i].command@)
}

/// The emotes of a list of entries, in order.
spec fn entry_emotes(entries: Seq<Entry>) -> Seq<EmoteDataView> {
    Seq::new(entries.len(), |i: int| entries[i].data@)
}

impl View for Handler {
    type V = HandlerView;

    closed spec fn view(&self) -> HandlerView {
        HandlerView {
            commands: entry_commands(self.entries@),
            emotes: entry_emotes(self.entries@),
        }
    }
}

impl Clone for ConditionTextPair {
    fn clone(&self) -> (r: ConditionTextPair)
        ensures
            r@ == self@,
    {
        ConditionTextPair { targeted: self.targeted.clone(), untargeted: self.untargeted.clone() }
    }
}

impl Clone for EmoteData {
    fn clone(&self) -> (r: EmoteData)
        ensures
            r@ == self@,
    {
        EmoteData {
            id: self.id,
            name: self.name.clone(),
            en: self.en.clone(),
            ja: self.ja.clone(),
        }
    }
}

/// The number of an emote as the store keeps it: the same 32 bits, read as a
/// signed number.
pub open spec fn stored_id(id: u32) -> i32 {
    if id <= i32::MAX {
        id as i32
    } else {
        (id - 0x1_0000_0000) as i32
    }
}

/// The number of an emote as the store keeps it.
pub fn store_id(id: u32) -> (r: i32)
    ensures
        r == stored_id(id),
{
    if id <= 0x7fff_ffff {
        id as i32
    } else {
        ((id as i64) - 0x1_0000_0000) as i32
    }
}

/// The number under which the use of an emote is logged: the emote's own
/// where the store can hold it, and none where it cannot.
pub fn emote_log_id(id: u32) -> (r: Option<i32>)
    ensures
        r == if id <= i32::MAX {
            Some(id as i32)
        } else {
            None
        },
{
    if id <= 0x7fff_ffff {
        Some(id as i32)
    } else {
        None
    }
}

/// What is written to the store for an emote: its number as the store keeps
/// it, and its name.
pub open spec fn emote_row(emote: EmoteDataView) -> (i32, Seq<char>) {
    (stored_id(emote.id), emote.name)
}

/// The characters of each text of a list, in order.
pub open spec fn command_views(texts: Seq<String>) -> Seq<Seq<char>> {
    Seq::new(texts.len(), |i: int| texts[i]@)
}

/// Whether the entry at `a` comes before the entry at `b` in the list by
/// number.
spec fn entry_before(entries: Seq<Entry>, a: int, b: int) -> bool {
    entries[a].data.id < entries[b].data.id || (entries[a].data.id == entries[b].data.id && a < b)
}

impl Handler {
    #[verifier::type_invariant]
    spec fn well_formed(self) -> bool {
        self@.wf()
    }

    /// A handler that knows no emote.
    pub fn empty() -> (r: Handler)
        ensures
            r@ == HandlerView::empty(),
    {
        let r = Handler { entries: Vec::new() };
        assert(r@.commands =~= Seq::empty());
        assert(r@.emotes =~= Seq::empty());
        r
    }

    /// The place at which `command` is kept, if it is.
    fn find(&self, command: &str) -> (r: Option<usize>)
        ensures
            self@.wf(),
            match r {
                Some(i) => self@.contains(command@) && i == self@.place(command@) && i
                    < self.entries.len(),
                None => !self@.contains(command@),
            },
    {
        proof {
            use_type_invariant(self);
        }
        let mut i: usize = 0;
        while i < self.entries.len()
            invariant
                i <= self.entries.len(),
                self@.wf(),
                forall|k: int| 0 <= k < i ==> self@.commands[k] != command@,
            decreases self.entries.len() - i,
        {
            if str_eq(self.entries[i].command.as_str(), command) {
                proof {
                    assert(self@.commands[i as int] == command@);
                    let p = self@.place(command@);
                    if p != i {
                        assert(self@.commands[p] == self@.commands[i as int]);
                    }
                }
                return Some(i);
            }
            i += 1;
        }
        None
    }

    /// Enters `command` for `data`.
    fn insert(self, command: String, data: EmoteData) -> (r: Handler)
        ensures
            r@ == self@.with(command@, data@),
    {
        proof {
            use_type_invariant(&self);
            lemma_with_keeps_wf(self@, command@, data@);
        }
        let found = self.find(command.as_str());
        let ghost before = self.entries@;
        let mut entries = self.entries;
        match found {
            Some(i) => {
                entries.set(i, Entry { command, data });
                proof {
                    assert(entry_commands(entries@) =~= entry_commands(before));
                    assert(entry_emotes(entries@) =~= entry_emotes(before).update(i as int, data@));
                }
            },
            None => {
                entries.push(Entry { command, data });
                proof {
                    assert(entry_commands(entries@) =~= entry_commands(before).push(command@));
                    assert(entry_emotes(entries@) =~= entry_emotes(before).push(data@));
                }
            },
        }
        Handler { entries }
    }

    /// Enters `command` for `data` where the command is present and not
    /// empty.
    fn insert_command(self, command: &Option<String>, data: &EmoteData) -> (r: Handler)
        ensures
            r@ == match xivapi::text_view(*command) {
                Some(text) => if text.len() > 0 {
                    self@.with(text, data@)
                } else {
                    self@
                },
                None => self@,
            },
    {
        match command {
            Some(text) => {
                if !text.as_str().is_empty() {
                    self.insert(text.clone(), data.clone())
                } else {
                    self
                }
            },
            None => self,
        }
    }

    /// Takes one reported emote in, where `readable` says whether the
    /// template engine could read its log messages.
    pub fn take_in(self, result: &xivapi::EmoteData, readable: bool) -> (r: Result<
        Handler,
        HandlerError,
    >)
        ensures
            match r {
                Ok(next) => taken_in(self@, result@, readable) == Ok::<
                    HandlerView,
                    HandlerErrorView,
                >(next@) && next@.wf(),
                Err(e) => taken_in(self@, result@, readable) == Err::<
                    HandlerView,
                    HandlerErrorView,
                >(e@),
            },
    {
        proof {
            use_type_invariant(&self);
        }
        let (targeted, untargeted, command, name, id) = match (
            &result.log_message_targeted,
            &result.log_message_untargeted,
            &result.text_command,
            &result.name,
            &result.id,
        ) {
            (Some(targeted), Some(untargeted), Some(command), Some(name), Some(id)) => (
                targeted,
                untargeted,
                command,
                name,
                *id,
            ),
            _ => {
                return Ok(self);
            },
        };
        let ghost view = result@;
        let ghost texts = templates(view);
        if targeted.text_en.as_str().is_empty() || untargeted.text_en.as_str().is_empty()
            || targeted.text_ja.as_str().is_empty() || untargeted.text_ja.as_str().is_empty() {
            proof {
                assert(texts[0].len() == 0 || texts[1].len() == 0 || texts[2].len() == 0
                    || texts[3].len() == 0);
            }
            return Ok(self);
        }
        assert(!has_empty_template(view)) by {
            assert(texts[0].len() > 0 && texts[1].len() > 0 && texts[2].len() > 0
                && texts[3].len() > 0);
        }
        if !readable {
            return Err(HandlerError::Extract);
        }
        let data = EmoteData {
            id,
            name: name.clone(),
            en: ConditionTextPair {
                targeted: targeted.text_en.clone(),
                untargeted: untargeted.text_en.clone(),
            },
            ja: ConditionTextPair {
                targeted: targeted.text_ja.clone(),
                untargeted: untargeted.text_ja.clone(),
            },
        };
        assert(data@ == kept_emote(view));
        let ghost start = self@;
        let ghost none = Seq::<Seq<char>>::empty();
        let ghost one = with_command(none, command@.alias_en);
        let ghost two = with_command(one, command@.alias_ja);
        let ghost three = with_command(two, command@.command_en);
        let ghost four = with_command(three, command@.command_ja);
        let handler = self.insert_command(&command.alias_en, &data);
        proof {
            assert(start.with_all(none, data@) == start);
            assert(one.len() > 0 ==> one.drop_last() =~= none);
            assert(handler@ == start.with_all(one, data@));
        }
        let handler = handler.insert_command(&command.alias_ja, &data);
        proof {
            assert(two.len() > one.len() ==> two.drop_last() =~= one);
            assert(handler@ == start.with_all(two, data@));
        }
        let handler = handler.insert_command(&command.command_en, &data);
        proof {
            assert(three.len() > two.len() ==> three.drop_last() =~= two);
            assert(handler@ == start.with_all(three, data@));
        }
        let handler = handler.insert_command(&command.command_ja, &data);
        proof {
            assert(four.len() > three.len() ==> four.drop_last() =~= three);
            assert(handler@ == start.with_all(four, data@));
            use_type_invariant(&handler);
        }
        Ok(handler)
    }

    /// Takes in the emotes that the game's data service reported, asking the
    /// template engine to read the log messages of each usable one.
    ///
    /// Where all of them are taken in, the handler is the one that taking
    /// them in whole gives. The load fails only with the error of a log
    /// message that could not be read, and only where there is a usable emote
    /// that the engine was asked about. Whether the engine reads a message is
    /// its own affair: [`Handler::take_in`] says what follows from its answer.
    pub fn new(results: Vec<xivapi::EmoteData>) -> (r: Result<Handler, HandlerError>)
        ensures
            match r {
                Ok(handler) => handler@ == loaded(xivapi::emote_views(results@)) && handler@.wf(),
                Err(e) => e@ == HandlerErrorView::Extract && exists|i: int|
                    0 <= i < results.len() && is_usable(#[trigger] xivapi::emote_views(results@)[i]),
            },
    {
        let ghost views = xivapi::emote_views(results@);
        let mut handler = Handler::empty();
        let mut i: usize = 0;
        assert(views.subrange(0, 0) =~= Seq::empty());
        while i < results.len()
            invariant
                i <= results.len(),
                views == xivapi::emote_views(results@),
                handler@ == loaded(views.subrange(0, i as int)),
            decreases results.len() - i,
        {
            let result = &results[i];
            proof {
                let upto = views.subrange(0, i + 1);
                assert(upto.drop_last() =~= views.subrange(0, i as int));
                assert(upto.last() == result@);
            }
            let readable = reads_log_messages(result);
            match handler.take_in(result, readable) {
                Ok(next) => {
                    handler = next;
                },
                Err(e) => {
                    assert(is_usable(views[i as int]));
                    return Err(e);
                },
            }
            i += 1;
        }
        proof {
            assert(views.subrange(0, i as int) =~= views);
            use_type_invariant(&handler);
        }
        Ok(handler)
    }

    /// Whether `emote` calls an emote.
    pub fn contains_emote(&self, emote: &str) -> (r: bool)
        ensures
            r == self@.contains(emote@),
    {
        self.find(emote).is_some()
    }

    /// The emote that `emote` calls, if it calls one.
    pub fn get_emote_data(&self, emote: &str) -> (r: Option<&EmoteData>)
        ensures
            match r {
                Some(data) => self@.get(emote@) == Some(data@),
                None => self@.get(emote@) is None,
            },
    {
        match self.find(emote) {
            Some(i) => Some(&self.entries[i].data),
            None => None,
        }
    }

    /// The commands in the order of the numbers of their emotes; commands of
    /// one emote, and of emotes with one number, in the order in which they
    /// were first entered.
    pub fn emote_list_by_id(&self) -> (r: Vec<String>)
        ensures
            self@.listed_by_id(command_views(r@)),
    {
        proof {
            use_type_invariant(self);
        }
        let n = self.entries.len();
        let mut order: Vec<usize> = Vec::new();
        let mut i: usize = 0;
        while i < n
            invariant
                i <= n,
                n == self.entries.len(),
                order.len() == i,
                forall|k: int| 0 <= k < i ==> (#[trigger] order[k]) < i,
                forall|a: int, b: int|
                    0 <= a < b < i ==> entry_before(self.entries@, order[a] as int, order[b] as int),
            decreases n - i,
        {
            let id = self.entries[i].data.id;
            let mut p: usize = order.len();
            while p > 0 && self.entries[order[p - 1]].data.id > id
                invariant
                    p <= order.len(),
                    order.len() == i,
                    i < n,
                    n == self.entries.len(),
                    id == self.entries[i as int].data.id,
                    forall|k: int| 0 <= k < i ==> (#[trigger] order[k]) < i,
                    forall|k: int| p <= k < i ==> self.entries[order[k] as int].data.id > id,
                decreases p,
            {
                p -= 1;
            }
            let ghost before = order@;
            order.insert(p, i);
            proof {
                assert forall|k: int| 0 <= k < i + 1 implies (#[trigger] order[k]) < i + 1 by {
                    if k < p {
                        assert(order[k] == before[k]);
                    } else if k > p {
                        assert(order[k] == before[k - 1]);
                    }
                }
                assert forall|a: int, b: int| 0 <= a < b < i + 1 implies entry_before(
                    self.entries@,
                    order[a] as int,
                    order[b] as int,
                ) by {
                    if b < p {
                        assert(order[a] == before[a] && order[b] == before[b]);
                    } else if b == p {
                        assert(order[a] == before[a]);
                        if a < p - 1 {
                            assert(entry_before(
                                self.entries@,
                                before[a] as int,
                                before[p - 1] as int,
                            ));
                        }
                    } else if a < p {
                        assert(order[a] == before[a] && order[b] == before[b - 1]);
                    } else if a == p {
                        assert(order[b] == before[b - 1]);
                    } else {
                        assert(order[a] == before[a - 1] && order[b] == before[b - 1]);
                    }
                }
            }
            i += 1;
        }
        let mut names: Vec<String> = Vec::new();
        let mut k: usize = 0;
        while k < n
            invariant
                k <= n,
                n == self.entries.len(),
                order.len() == n,
                names.len() == k,
                forall|j: int| 0 <= j < n ==> (#[trigger] order[j]) < n,
                forall|j: int| 0 <= j < k ==> (#[trigger] names[j])@ == self.entries[order[j] as int].command@,
            decreases n - k,
        {
            names.push(self.entries[order[k]].command.clone());
            k += 1;
        }
        proof {
            let view = self@;
            let list = command_views(names@);
            assert forall|j: int| 0 <= j < list.len() implies view.contains(
                #[trigger] list[j],
            ) && view.place(list[j]) == order[j] by {
                let at = order[j] as int;
                assert(view.commands[at] == list[j]);
                let found = view.place(list[j]);
                if found != at {
                    assert(view.commands[found] == view.commands[at]);
                }
            }
            assert forall|a: int, b: int| 0 <= a < b < list.len() implies view.before(
                list[a],
                list[b],
            ) by {
                assert(view.contains(list[a]) && view.place(list[a]) == order[a]);
                assert(view.contains(list[b]) && view.place(list[b]) == order[b]);
                assert(entry_before(self.entries@, order[a] as int, order[b] as int));
            }
        }
        names
    }

    /// What is written to the store for the emotes: one row for each command,
    /// in the order of the commands.
    pub fn emote_rows(&self) -> (r: Vec<(i32, String)>)
        ensures
            r.len() == self@.emotes.len(),
            forall|k: int|
                0 <= k < r.len() ==> (#[trigger] r[k]).0 == emote_row(self@.emotes[k]).0 && r[k].1@
                    == emote_row(self@.emotes[k]).1,
    {
        let mut rows: Vec<(i32, String)> = Vec::new();
        let mut k: usize = 0;
        while k < self.entries.len()
            invariant
                k <= self.entries.len(),
                rows.len() == k,
                forall|j: int|
                    0 <= j < k ==> (#[trigger] rows[j]).0 == emote_row(self@.emotes[j]).0
                        && rows[j].1@ == emote_row(self@.emotes[j]).1,
            decreases self.entries.len() - k,
        {
            let data = &self.entries[k].data;
            rows.push((store_id(data.id), data.name.clone()));
            k += 1;
        }
        rows
    }

    /// Number of commands.
    pub fn len(&self) -> (r: usize)
        ensures
            r == self@.commands.len(),
            self@.wf(),
    {
        proof {
            use_type_invariant(self);
        }
        self.entries.len()
    }
}

/// Asks the template engine to read the log messages of a reported emote:
/// all four, in English before Japanese, up to the first that it cannot read.
/// An emote without both log messages is not asked about.
fn reads_log_messages(result: &xivapi::EmoteData) -> bool {
    match (&result.log_message_targeted, &result.log_message_untargeted) {
        (Some(targeted), Some(untargeted)) => {
            engine_parses(targeted.text_en.as_str()) && engine_parses(untargeted.text_en.as_str())
                && engine_parses(targeted.text_ja.as_str()) && engine_parses(
                untargeted.text_ja.as_str(),
            )
        },
        _ => true,
    }
}

} // verus!
