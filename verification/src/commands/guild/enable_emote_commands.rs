//! The command that gives a guild one command for each emote.

use vstd::prelude::*;
use vstd::string::*;

use crate::builder::{
    CommandOptionType, CommandOptionView, CommandType, CommandView, CreateApplicationCommand,
    CreateApplicationCommandOption,
};
use crate::handler::commands::{registered_views, RegisteredCommand, RegisteredCommandView};
use crate::id::CommandId;
use crate::message::{strip_prefix, without_prefix};
use crate::text::str_eq;

verus! {

/// The command's name.
#[verifier::allow_in_spec]
pub fn name() -> &'static str
    returns
        "EnableEmoteCommands",
{
    "EnableEmoteCommands"
}

/// What the command does.
#[verifier::allow_in_spec]
pub fn desc() -> &'static str
    returns
        "Enable emote commands in this server (adds commands for every emote!)",
{
    "Enable emote commands in this server (adds commands for every emote!)"
}

/// The answer where the guild has emote commands already.
#[verifier::allow_in_spec]
pub fn already_enabled() -> &'static str
    returns
        "Guild commands are already enabled",
{
    "Guild commands are already enabled"
}

/// The answer once the emote commands are registered.
#[verifier::allow_in_spec]
pub fn now_enabled() -> &'static str
    returns
        "Guild commands enabled!",
{
    "Guild commands enabled!"
}

/// The command that enables the emote commands of a guild.
#[derive(Clone, Copy, Debug)]
pub struct EnableEmoteCommands;

impl EnableEmoteCommands {
    /// What is registered: a command for the chat input.
    pub open spec fn application_command() -> CommandView {
        CommandView {
            name: Some(name()@),
            kind: Some(CommandType::ChatInput),
            description: Some(desc()@),
            ..CommandView::empty()
        }
    }

    /// The command as it is registered with the platform.
    pub fn to_application_command() -> (r: CreateApplicationCommand)
        ensures
            r@ == Self::application_command(),
    {
        let mut cmd = CreateApplicationCommand::default();
        cmd.name(name());
        cmd.kind(CommandType::ChatInput);
        cmd.description(desc());
        cmd
    }
}

/// The name of the command for `emote`: the emote's command without the
/// slash in front.
pub open spec fn emote_command_name(emote: Seq<char>) -> Seq<char> {
    without_prefix(emote, seq!['/'])
}

/// The characters of each text of a list, in order.
pub open spec fn text_views(texts: Seq<String>) -> Seq<Seq<char>> {
    Seq::new(texts.len(), |i: int| texts[i]@)
}

/// The names of the commands for `emotes`, in order.
pub fn emote_command_names(emotes: &[String]) -> (r: Vec<String>)
    ensures
        r.len() == emotes.len(),
        forall|i: int| 0 <= i < r.len() ==> (#[trigger] r[i])@ == emote_command_name(emotes[i]@),
{
    proof {
        reveal_strlit("/");
        assert("/"@ =~= seq!['/']);
    }
    let mut names: Vec<String> = Vec::new();
    let mut i: usize = 0;
    while i < emotes.len()
        invariant
            i <= emotes.len(),
            names.len() == i,
            "/"@ == seq!['/'],
            forall|k: int|
                0 <= k < i ==> (#[trigger] names[k])@ == emote_command_name(emotes[k]@),
        decreases emotes.len() - i,
    {
        names.push(strip_prefix(emotes[i].as_str(), "/"));
        i += 1;
    }
    names
}

/// What is registered for the emote named `emote`: a command for the chat
/// input, with an option for the target.
pub open spec fn emote_application_command(emote: Seq<char>) -> CommandView {
    CommandView {
        name: Some(emote),
        kind: Some(CommandType::ChatInput),
        description: Some("Use the "@ + emote + " emote"@),
        options: seq![
            CommandOptionView {
                kind: Some(CommandOptionType::Mentionable),
                name: Some("target"@),
                description: Some("Optional target for the emote"@),
                ..CommandOptionView::empty()
            },
        ],
        ..CommandView::empty()
    }
}

/// The command for the emote named `emote`, as it is registered.
pub fn create_emote_command(emote: &str) -> (r: CreateApplicationCommand)
    ensures
        r@ == emote_application_command(emote@),
{
    let mut description = String::from_str("Use the ");
    description.append(emote);
    description.append(" emote");
    let mut target = CreateApplicationCommandOption::new();
    target.kind(CommandOptionType::Mentionable);
    target.name("target");
    target.description("Optional target for the emote");
    let mut cmd = CreateApplicationCommand::default();
    cmd.name(emote);
    cmd.kind(CommandType::ChatInput);
    cmd.description(description.as_str());
    cmd.create_option(target);
    assert(cmd@.options =~= emote_application_command(emote@).options);
    cmd
}

/// The numbers of the registered commands that are named as one of `names`,
/// in the order in which they were reported.
pub open spec fn ids_of_named(
    registered: Seq<RegisteredCommandView>,
    names: Seq<Seq<char>>,
) -> Seq<CommandId>
    decreases registered.len(),
{
    if registered.len() == 0 {
        Seq::empty()
    } else {
        let before = ids_of_named(registered.drop_last(), names);
        if names.contains(registered.last().name) {
            before.push(registered.last().id)
        } else {
            before
        }
    }
}

/// Whether `name` is one of `names`.
fn contains_name(names: &[String], name: &str) -> (r: bool)
    ensures
        r == text_views(names@).contains(name@),
{
    let mut i: usize = 0;
    while i < names.len()
        invariant
            i <= names.len(),
            forall|k: int| 0 <= k < i ==> text_views(names@)[k] != name@,
        decreases names.len() - i,
    {
        if str_eq(names[i].as_str(), name) {
            assert(text_views(names@)[i as int] == name@);
            return true;
        }
        i += 1;
    }
    false
}

/// The numbers of the commands among `registered` that are emote commands:
/// those named as one of `emotes`.
pub fn emote_command_ids(registered: &[RegisteredCommand], emotes: &[String]) -> (r: Vec<CommandId>)
    ensures
        r@ == ids_of_named(registered_views(registered@), text_views(emotes@)),
{
    let ghost views = registered_views(registered@);
    let ghost names = text_views(emotes@);
    let mut ids: Vec<CommandId> = Vec::new();
    let mut i: usize = 0;
    assert(views.subrange(0, 0) =~= Seq::empty());
    while i < registered.len()
        invariant
            i <= registered.len(),
            views == registered_views(registered@),
            names == text_views(emotes@),
            ids@ == ids_of_named(views.subrange(0, i as int), names),
        decreases registered.len() - i,
    {
        proof {
            let upto = views.subrange(0, i + 1);
            assert(upto.drop_last() =~= views.subrange(0, i as int));
            assert(upto.last() == registered[i as int]@);
        }
        if contains_name(emotes, registered[i].name.as_str()) {
            ids.push(registered[i].id);
        }
        i += 1;
    }
    assert(views.subrange(0, i as int) =~= views);
    ids
}

} // verus!
