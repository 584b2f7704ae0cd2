//! Descriptions of the commands that the bot asks the platform to register.
//!
//! A description is built field by field, as the platform's own builders are,
//! and holds plain values: texts, flags and nested options.

use vstd::prelude::*;

verus! {

/// How a command is invoked.
#[derive(Clone, Copy, Debug, PartialEq, Eq, Structural)]
pub enum CommandType {
    /// Typed into the chat input.
    ChatInput,
}

/// What an option of a command holds.
#[derive(Clone, Copy, Debug, PartialEq, Eq, Structural)]
pub enum CommandOptionType {
    SubCommand,
    SubCommandGroup,
    String,
    User,
    Mentionable,
}

/// A text for one locale.
#[derive(Debug, PartialEq, Eq)]
pub struct Localization {
    pub locale: String,
    pub text: String,
}

/// The texts by locale that a list of localizations comes to: where a locale
/// occurs twice, the later text stands.
pub open spec fn localization_map(list: Seq<Localization>) -> Map<Seq<char>, Seq<char>>
    decreases list.len(),
{
    if list.len() == 0 {
        Map::empty()
    } else {
        localization_map(list.drop_last()).insert(list.last().locale@, list.last().text@)
    }
}

/// An option of a command, or of another option.
#[derive(Debug, PartialEq, Eq)]
pub struct CreateApplicationCommandOption {
    pub kind: Option<CommandOptionType>,
    pub name: Option<String>,
    pub name_localizations: Vec<Localization>,
    pub description: Option<String>,
    pub description_localizations: Vec<Localization>,
    pub required: bool,
    pub options: Vec<CreateApplicationCommandOption>,
}

/// What contracts say of a [`CreateApplicationCommandOption`].
pub struct CommandOptionView {
    pub kind: Option<CommandOptionType>,
    pub name: Option<Seq<char>>,
    pub name_localizations: Map<Seq<char>, Seq<char>>,
    pub description: Option<Seq<char>>,
    pub description_localizations: Map<Seq<char>, Seq<char>>,
    pub required: bool,
    pub options: Seq<CommandOptionView>,
}

/// A text that may be absent, as its characters.
pub open spec fn text_view(text: Option<String>) -> Option<Seq<char>> {
    match text {
        Some(t) => Some(t@),
        None => None,
    }
}

/// The view of an option, and of the options below it.
pub open spec fn option_view(option: CreateApplicationCommandOption) -> CommandOptionView
    decreases option,
{
    CommandOptionView {
        kind: option.kind,
        name: text_view(option.name),
        name_localizations: localization_map(option.name_localizations@),
        description: text_view(option.description),
        description_localizations: localization_map(option.description_localizations@),
        required: option.required,
        options: Seq::new(
            option.options.len() as nat,
            |i: int|
                if 0 <= i < option.options.len() {
                    option_view(option.options[i])
                } else {
                    arbitrary()
                },
        ),
    }
}

/// The views of a list of options, in order.
pub open spec fn option_views(options: Seq<CreateApplicationCommandOption>) -> Seq<
    CommandOptionView,
> {
    Seq::new(options.len(), |i: int| option_view(options[i]))
}

impl View for CreateApplicationCommandOption {
    type V = CommandOptionView;

    open spec fn view(&self) -> CommandOptionView {
        option_view(*self)
    }
}

impl CommandOptionView {
    /// An option of which nothing has been set.
    pub open spec fn empty() -> CommandOptionView {
        CommandOptionView {
            kind: None,
            name: None,
            name_localizations: Map::empty(),
            description: None,
            description_localizations: Map::empty(),
            required: false,
            options: Seq::empty(),
        }
    }
}

impl CreateApplicationCommandOption {
    /// An option of which nothing has been set.
    pub fn new() -> (r: CreateApplicationCommandOption)
        ensures
            r@ == CommandOptionView::empty(),
    {
        let r = CreateApplicationCommandOption {
            kind: None,
            name: None,
            name_localizations: Vec::new(),
            description: None,
            description_localizations: Vec::new(),
            required: false,
            options: Vec::new(),
        };
        assert(r@.options =~= Seq::empty());
        r
    }

    /// Sets what the option holds.
    pub fn kind(&mut self, kind: CommandOptionType)
        ensures
            final(self)@ == (CommandOptionView { kind: Some(kind), ..old(self)@ }),
    {
        self.kind = Some(kind);
        assert(self@.options =~= old(self)@.options);
    }

    /// Sets the option's name.
    pub fn name(&mut self, name: &str)
        ensures
            final(self)@ == (CommandOptionView { name: Some(name@), ..old(self)@ }),
    {
        self.name = Some(name.to_owned());
        assert(self@.options =~= old(self)@.options);
    }

    /// Sets the option's name for one locale.
    pub fn name_localized(&mut self, locale: &str, name: &str)
        ensures
            final(self)@ == (CommandOptionView {
                name_localizations: old(self)@.name_localizations.insert(locale@, name@),
                ..old(self)@
            }),
    {
        self.name_localizations.push(Localization { locale: locale.to_owned(), text: name.to_owned() });
        assert(self.name_localizations@.drop_last() =~= old(self).name_localizations@);
        assert(self@.options =~= old(self)@.options);
    }

    /// Sets the option's description.
    pub fn description(&mut self, description: &str)
        ensures
            final(self)@ == (CommandOptionView { description: Some(description@), ..old(self)@ }),
    {
        self.description = Some(description.to_owned());
        assert(self@.options =~= old(self)@.options);
    }

    /// Sets the option's description for one locale.
    pub fn description_localized(&mut self, locale: &str, description: &str)
        ensures
            final(self)@ == (CommandOptionView {
                description_localizations: old(self)@.description_localizations.insert(
                    locale@,
                    description@,
                ),
                ..old(self)@
            }),
    {
        self.description_localizations.push(
            Localization { locale: locale.to_owned(), text: description.to_owned() },
        );
        assert(self.description_localizations@.drop_last() =~= old(self).description_localizations@);
        assert(self@.options =~= old(self)@.options);
    }

    /// Sets whether the option must be given.
    pub fn required(&mut self, required: bool)
        ensures
            final(self)@ == (CommandOptionView { required, ..old(self)@ }),
    {
        self.required = required;
        assert(self@.options =~= old(self)@.options);
    }

    /// Adds an option below this one, after those it has.
    pub fn create_sub_option(&mut self, option: CreateApplicationCommandOption)
        ensures
            final(self)@ == (CommandOptionView {
                options: old(self)@.options.push(option@),
                ..old(self)@
            }),
    {
        self.options.push(option);
        assert(self@.options =~= old(self)@.options.push(option@));
    }
}

/// A command to register.
#[derive(Debug, PartialEq, Eq)]
pub struct CreateApplicationCommand {
    pub kind: Option<CommandType>,
    pub name: Option<String>,
    pub name_localizations: Vec<Localization>,
    pub description: Option<String>,
    pub description_localizations: Vec<Localization>,
    pub dm_permission: Option<bool>,
    pub default_member_permissions: Option<u64>,
    pub options: Vec<CreateApplicationCommandOption>,
}

/// What contracts say of a [`CreateApplicationCommand`].
pub struct CommandView {
    pub kind: Option<CommandType>,
    pub name: Option<Seq<char>>,
    pub name_localizations: Map<Seq<char>, Seq<char>>,
    pub description: Option<Seq<char>>,
    pub description_localizations: Map<Seq<char>, Seq<char>>,
    pub dm_permission: Option<bool>,
    pub default_member_permissions: Option<u64>,
    pub options: Seq<CommandOptionView>,
}

impl View for CreateApplicationCommand {
    type V = CommandView;

    open spec fn view(&self) -> CommandView {
        CommandView {
            kind: self.kind,
            name: text_view(self.name),
            name_localizations: localization_map(self.name_localizations@),
            description: text_view(self.description),
            description_localizations: localization_map(self.description_localizations@),
            dm_permission: self.dm_permission,
            default_member_permissions: self.default_member_permissions,
            options: option_views(self.options@),
        }
    }
}

impl CommandView {
    /// A command of which nothing has been set.
    pub open spec fn empty() -> CommandView {
        CommandView {
            kind: None,
            name: None,
            name_localizations: Map::empty(),
            description: None,
            description_localizations: Map::empty(),
            dm_permission: None,
            default_member_permissions: None,
            options: Seq::empty(),
        }
    }
}

impl Default for CreateApplicationCommand {
    fn default() -> (r: CreateApplicationCommand)
        ensures
            r@ == CommandView::empty(),
    {
        let r = CreateApplicationCommand {
            kind: None,
            name: None,
            name_localizations: Vec::new(),
            description: None,
            description_localizations: Vec::new(),
            dm_permission: None,
            default_member_permissions: None,
            options: Vec::new(),
        };
        assert(r@.options =~= Seq::empty());
        r
    }
}

impl CreateApplicationCommand {
    /// Sets how the command is invoked.
    pub fn kind(&mut self, kind: CommandType)
        ensures
            final(self)@ == (CommandView { kind: Some(kind), ..old(self)@ }),
    {
        self.kind = Some(kind);
    }

    /// Sets the command's name.
    pub fn name(&mut self, name: &str)
        ensures
            final(self)@ == (CommandView { name: Some(name@), ..old(self)@ }),
    {
        self.name = Some(name.to_owned());
    }

    /// Sets the command's name for one locale.
    pub fn name_localized(&mut self, locale: &str, name: &str)
        ensures
            final(self)@ == (CommandView {
                name_localizations: old(self)@.name_localizations.insert(locale@, name@),
                ..old(self)@
            }),
    {
        self.name_localizations.push(Localization { locale: locale.to_owned(), text: name.to_owned() });
        assert(self.name_localizations@.drop_last() =~= old(self).name_localizations@);
    }

    /// Sets the command's description.
    pub fn description(&mut self, description: &str)
        ensures
            final(self)@ == (CommandView { description: Some(description@), ..old(self)@ }),
    {
        self.description = Some(description.to_owned());
    }

    /// Sets the command's description for one locale.
    pub fn description_localized(&mut self, locale: &str, description: &str)
        ensures
            final(self)@ == (CommandView {
                description_localizations: old(self)@.description_localizations.insert(
                    locale@,
                    description@,
                ),
                ..old(self)@
            }),
    {
        self.description_localizations.push(
            Localization { locale: locale.to_owned(), text: description.to_owned() },
        );
        assert(self.description_localizations@.drop_last() =~= old(self).description_localizations@);
    }

    /// Sets whether the command works in direct messages.
    pub fn dm_permission(&mut self, enabled: bool)
        ensures
            final(self)@ == (CommandView { dm_permission: Some(enabled), ..old(self)@ }),
    {
        self.dm_permission = Some(enabled);
    }

    /// Sets the permissions, as bits, that a member needs to use the command.
    pub fn default_member_permissions(&mut self, permissions: u64)
        ensures
            final(self)@ == (CommandView {
                default_member_permissions: Some(permissions),
                ..old(self)@
            }),
    {
        self.default_member_permissions = Some(permissions);
    }

    /// Adds an option to the command, after those it has.
    pub fn create_option(&mut self, option: CreateApplicationCommandOption)
        ensures
            final(self)@ == (CommandView {
                options: old(self)@.options.push(option@),
                ..old(self)@
            }),
    {
        self.options.push(option);
        assert(self@.options =~= old(self)@.options.push(option@));
    }
}

} // verus!
