//! The commands that a guild has for its emotes, one for each emote.

use std::collections::HashMap;
use vstd::prelude::*;
use vstd::std_specs::hash::*;

use crate::id::{CommandId, GuildId};

verus! {

/// The numbers of the emote commands that each guild has registered.
#[derive(Debug)]
pub struct GuildEmoteCommandIds {
    pub ids: HashMap<u64, Vec<CommandId>>,
}

impl View for GuildEmoteCommandIds {
    type V = Map<u64, Seq<CommandId>>;

    open spec fn view(&self) -> Map<u64, Seq<CommandId>> {
        Map::new(|guild: u64| self.ids@.contains_key(guild), |guild: u64| self.ids@[guild]@)
    }
}

/// Whether `guild` has emote commands.
pub open spec fn enabled(ids: Map<u64, Seq<CommandId>>, guild: GuildId) -> bool {
    ids.contains_key(guild.0) && ids[guild.0].len() > 0
}

/// The registry after emote commands numbered `commands` have been enabled
/// for `guild`: a guild that has emote commands keeps those it has.
pub open spec fn after_enable(
    ids: Map<u64, Seq<CommandId>>,
    guild: GuildId,
    commands: Seq<CommandId>,
) -> Map<u64, Seq<CommandId>> {
    if enabled(ids, guild) {
        ids
    } else {
        ids.insert(guild.0, commands)
    }
}

/// The registry after the emote commands of `guild` have been disabled: a
/// guild that is known has none left.
pub open spec fn after_disable(ids: Map<u64, Seq<CommandId>>, guild: GuildId) -> Map<
    u64,
    Seq<CommandId>,
> {
    if ids.contains_key(guild.0) {
        ids.insert(guild.0, Seq::empty())
    } else {
        ids
    }
}

/// The commands to delete when the emote commands of `guild` are disabled.
pub open spec fn disabled_commands(ids: Map<u64, Seq<CommandId>>, guild: GuildId) -> Seq<
    CommandId,
> {
    if ids.contains_key(guild.0) {
        ids[guild.0]
    } else {
        Seq::empty()
    }
}

impl GuildEmoteCommandIds {
    /// A registry in which no guild has emote commands.
    pub fn new() -> (r: GuildEmoteCommandIds)
        ensures
            r@ == Map::<u64, Seq<CommandId>>::empty(),
    {
        broadcast use group_hash_axioms;

        let r = GuildEmoteCommandIds { ids: HashMap::new() };
        assert(r@ =~= Map::<u64, Seq<CommandId>>::empty());
        r
    }

    /// Whether `guild` has emote commands.
    pub fn is_commands_enabled(&self, guild: GuildId) -> (r: bool)
        ensures
            r == enabled(self@, guild),
    {
        broadcast use group_hash_axioms;

        let key = guild.0;
        match self.ids.get(&key) {
            Some(commands) => commands.len() > 0,
            None => false,
        }
    }

    /// Records the emote commands that were registered for `guild`, unless the
    /// guild has some already. Says whether they were recorded.
    pub fn enable(&mut self, guild: GuildId, commands: Vec<CommandId>) -> (r: bool)
        ensures
            r == !enabled(old(self)@, guild),
            final(self)@ == after_enable(old(self)@, guild, commands@),
    {
        broadcast use group_hash_axioms;

        if self.is_commands_enabled(guild) {
            false
        } else {
            self.ids.insert(guild.0, commands);
            assert(self@ =~= after_enable(old(self)@, guild, commands@));
            true
        }
    }

    /// Takes the emote commands of `guild` out of the registry and hands
    /// them over for deletion.
    pub fn disable(&mut self, guild: GuildId) -> (r: Vec<CommandId>)
        ensures
            r@ == disabled_commands(old(self)@, guild),
            final(self)@ == after_disable(old(self)@, guild),
    {
        broadcast use group_hash_axioms;

        match self.ids.insert(guild.0, Vec::new()) {
            Some(commands) => {
                assert(self@ =~= after_disable(old(self)@, guild));
                commands
            },
            None => {
                self.ids.remove(&guild.0);
                assert(self@ =~= after_disable(old(self)@, guild));
                Vec::new()
            },
        }
    }
}

} // verus!
