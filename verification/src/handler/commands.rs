//! The registry of commands: which command the platform knows under which
//! number.

use std::collections::HashMap;
use vstd::prelude::*;
use vstd::std_specs::hash::*;

use super::{HandlerError, HandlerErrorView};
use crate::commands::global::GlobalCommands;
use crate::commands::guild::GuildCommands;
use crate::id::CommandId;

verus! {

/// A family of commands that the platform registers together.
pub trait CommandsEnum: Sized + Copy {
    /// The command that `name` names in any language, if it names one.
    spec fn command_named(name: Seq<char>) -> Option<Self>;

    /// The command that `name` names in any language, if it names one.
    fn from_name(name: &str) -> (r: Option<Self>)
        ensures
            r == Self::command_named(name@),
    ;
}

impl CommandsEnum for GlobalCommands {
    open spec fn command_named(name: Seq<char>) -> Option<GlobalCommands> {
        GlobalCommands::named(name)
    }

    fn from_name(name: &str) -> (r: Option<GlobalCommands>) {
        match GlobalCommands::from_str(name) {
            Ok(command) => Some(command),
            Err(_) => None,
        }
    }
}

impl CommandsEnum for GuildCommands {
    open spec fn command_named(name: Seq<char>) -> Option<GuildCommands> {
        GuildCommands::named(name)
    }

    fn from_name(name: &str) -> (r: Option<GuildCommands>) {
        match GuildCommands::from_str(name) {
            Ok(command) => Some(command),
            Err(_) => None,
        }
    }
}

/// A command as the platform reports it after registration.
#[derive(Debug, PartialEq, Eq)]
pub struct RegisteredCommand {
    pub id: CommandId,
    pub name: String,
}

/// What contracts say of a [`RegisteredCommand`].
pub struct RegisteredCommandView {
    pub id: CommandId,
    pub name: Seq<char>,
}

impl View for RegisteredCommand {
    type V = RegisteredCommandView;

    open spec fn view(&self) -> RegisteredCommandView {
        RegisteredCommandView { id: self.id, name: self.name@ }
    }
}

/// The views of a list of registered commands, in order.
pub open spec fn registered_views(commands: Seq<RegisteredCommand>) -> Seq<RegisteredCommandView> {
    Seq::new(commands.len(), |i: int| commands[i]@)
}

/// The commands by number that the reported commands come to, or nothing
/// where one of them has a name that names no command. Where a number is
/// reported twice, the later command stands.
pub open spec fn command_ids<T: CommandsEnum>(commands: Seq<RegisteredCommandView>) -> Option<
    Map<u64, T>,
>
    decreases commands.len(),
{
    if commands.len() == 0 {
        Some(Map::empty())
    } else {
        match (command_ids::<T>(commands.drop_last()), T::command_named(commands.last().name)) {
            (Some(map), Some(command)) => Some(map.insert(commands.last().id.0, command)),
            _ => None,
        }
    }
}

/// Once a name has named no command, no longer list comes to a registry.
proof fn lemma_command_ids_stops<T: CommandsEnum>(commands: Seq<RegisteredCommandView>, upto: int)
    requires
        0 <= upto <= commands.len(),
        command_ids::<T>(commands.subrange(0, upto)) is None,
    ensures
        command_ids::<T>(commands) is None,
    decreases commands.len() - upto,
{
    if upto == commands.len() {
        assert(commands.subrange(0, upto) =~= commands);
    } else {
        let longer = commands.subrange(0, upto + 1);
        assert(longer.drop_last() =~= commands.subrange(0, upto));
        lemma_command_ids_stops::<T>(commands, upto + 1);
    }
}

/// Reads the commands that the platform reported into a registry by number.
///
/// Fails where a reported name names no command of the family.
pub fn save_command_ids<T: CommandsEnum>(commands: &[RegisteredCommand]) -> (r: Result<
    HashMap<u64, T>,
    HandlerError,
>)
    ensures
        match r {
            Ok(map) => command_ids::<T>(registered_views(commands@)) == Some(map@),
            Err(e) => command_ids::<T>(registered_views(commands@)) is None && e@
                == HandlerErrorView::CommandRegisterUnknown,
        },
{
    broadcast use group_hash_axioms;

    let ghost views = registered_views(commands@);
    let mut cmd_map: HashMap<u64, T> = HashMap::new();
    let mut i: usize = 0;
    assert(views.subrange(0, 0) =~= Seq::empty());
    while i < commands.len()
        invariant
            i <= commands.len(),
            views == registered_views(commands@),
            command_ids::<T>(views.subrange(0, i as int)) == Some(cmd_map@),
        decreases commands.len() - i,
    {
        let cmd = &commands[i];
        proof {
            let upto = views.subrange(0, i + 1);
            assert(upto.drop_last() =~= views.subrange(0, i as int));
            assert(upto.last() == cmd@);
        }
        match T::from_name(cmd.name.as_str()) {
            Some(command) => {
                cmd_map.insert(cmd.id.0, command);
            },
            None => {
                proof {
                    lemma_command_ids_stops::<T>(views, i + 1);
                }
                return Err(HandlerError::CommandRegisterUnknown);
            },
        }
        i += 1;
    }
    assert(views.subrange(0, i as int) =~= views);
    Ok(cmd_map)
}

/// A command of either family.
#[derive(Clone, Copy, Debug, PartialEq, Eq, Structural)]
pub enum AppCommand {
    Global(GlobalCommands),
    Guild(GuildCommands),
}

/// The command that handles the invocation numbered `id`.
///
/// The global registry is asked first and the guild registry second. A
/// registry that is missing is an error, and so is a number that neither
/// knows: that error names the command as the platform did.
pub open spec fn found_command(
    global: Option<Map<u64, GlobalCommands>>,
    guild: Option<Map<u64, GuildCommands>>,
    id: CommandId,
    name: Seq<char>,
) -> Result<AppCommand, HandlerErrorView> {
    match global {
        None => Err(HandlerErrorView::TypeMapNotFound),
        Some(commands) => if commands.contains_key(id.0) {
            Ok(AppCommand::Global(commands[id.0]))
        } else {
            match guild {
                None => Err(HandlerErrorView::TypeMapNotFound),
                Some(commands) => if commands.contains_key(id.0) {
                    Ok(AppCommand::Guild(commands[id.0]))
                } else {
                    Err(HandlerErrorView::UnrecognizedCommand(name))
                },
            }
        },
    }
}

/// A registry that may be missing, as contracts see it.
pub open spec fn registry_view<T>(registry: Option<&HashMap<u64, T>>) -> Option<Map<u64, T>> {
    match registry {
        Some(map) => Some(map@),
        None => None,
    }
}

/// Finds the command that handles the invocation numbered `id`, which the
/// platform calls `name`.
pub fn try_handle_commands(
    global: Option<&HashMap<u64, GlobalCommands>>,
    guild: Option<&HashMap<u64, GuildCommands>>,
    id: CommandId,
    name: &str,
) -> (r: Result<AppCommand, HandlerError>)
    ensures
        match r {
            Ok(command) => found_command(registry_view(global), registry_view(guild), id, name@)
                == Ok::<AppCommand, HandlerErrorView>(command),
            Err(e) => found_command(registry_view(global), registry_view(guild), id, name@) == Err::<
                AppCommand,
                HandlerErrorView,
            >(e@),
        },
{
    broadcast use group_hash_axioms;

    let key = id.0;
    match global {
        None => Err(HandlerError::TypeMapNotFound),
        Some(commands) => match commands.get(&key) {
            Some(command) => Ok(AppCommand::Global(*command)),
            None => match guild {
                None => Err(HandlerError::TypeMapNotFound),
                Some(commands) => match commands.get(&key) {
                    Some(command) => Ok(AppCommand::Guild(*command)),
                    None => Err(HandlerError::UnrecognizedCommand(name.to_owned())),
                },
            },
        },
    }
}

} // verus!
