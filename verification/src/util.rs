//! Text that exists in each language the bot speaks.

use vstd::prelude::*;

use crate::builder::{
    CommandOptionType, CommandOptionView, CommandType, CommandView, CreateApplicationCommand,
    CreateApplicationCommandOption,
};
use crate::db::models::{DbLanguage, DbUser};
use crate::text::str_eq;

verus! {

/// A text in English and in Japanese.
#[derive(Clone, Copy, Debug)]
pub struct LocalizedString {
    pub en: &'static str,
    pub ja: &'static str,
}

impl LocalizedString {
    /// The text in `language`.
    pub open spec fn in_language(&self, language: DbLanguage) -> Seq<char> {
        match language {
            DbLanguage::En => self.en@,
            DbLanguage::Ja => self.ja@,
        }
    }

    /// Whether `s` is the text in one of the languages.
    pub open spec fn matches_any(&self, s: Seq<char>) -> bool {
        self.en@ == s || self.ja@ == s
    }

    /// The text in the language that `user` has chosen.
    pub fn for_user(&self, user: &DbUser) -> (r: &'static str)
        ensures
            r@ == self.in_language(user.language),
    {
        match user.language {
            DbLanguage::En => self.en,
            DbLanguage::Ja => self.ja,
        }
    }

    /// Whether `str` is this text in any language.
    pub fn any_eq(&self, str: &str) -> (r: bool)
        ensures
            r == self.matches_any(str@),
    {
        str_eq(self.en, str) || str_eq(self.ja, str)
    }
}

/// The locale under which the English text is registered.
#[verifier::allow_in_spec]
pub fn locale_en() -> &'static str
    returns
        "en-US",
{
    "en-US"
}

/// The locale under which the Japanese text is registered.
#[verifier::allow_in_spec]
pub fn locale_ja() -> &'static str
    returns
        "ja",
{
    "ja"
}

/// The texts by locale after `text` has been entered in each language.
pub open spec fn with_localized(
    entries: Map<Seq<char>, Seq<char>>,
    text: LocalizedString,
) -> Map<Seq<char>, Seq<char>> {
    entries.insert(locale_en()@, text.en@).insert(locale_ja()@, text.ja@)
}

/// Names and descriptions in every language at once, for a command.
pub trait CreateApplicationCommandExt: Sized {
    /// The command as contracts see it.
    spec fn command(&self) -> CommandView;

    /// Names the command: the English text is its name, and each language has
    /// its text under its locale.
    fn localized_name(&mut self, str: LocalizedString)
        ensures
            final(self).command() == (CommandView {
                name: Some(str.en@),
                name_localizations: with_localized(old(self).command().name_localizations, str),
                ..old(self).command()
            }),
    ;

    /// Describes the command: the English text is its description, and each
    /// language has its text under its locale.
    fn localized_desc(&mut self, str: LocalizedString)
        ensures
            final(self).command() == (CommandView {
                description: Some(str.en@),
                description_localizations: with_localized(
                    old(self).command().description_localizations,
                    str,
                ),
                ..old(self).command()
            }),
    ;
}

impl CreateApplicationCommandExt for CreateApplicationCommand {
    open spec fn command(&self) -> CommandView {
        self@
    }

    fn localized_name(&mut self, str: LocalizedString) {
        self.name(str.en);
        self.name_localized(locale_en(), str.en);
        self.name_localized(locale_ja(), str.ja);
    }

    fn localized_desc(&mut self, str: LocalizedString) {
        self.description(str.en);
        self.description_localized(locale_en(), str.en);
        self.description_localized(locale_ja(), str.ja);
    }
}

/// Names and descriptions in every language at once, for an option.
pub trait CreateApplicationCommandOptionExt: Sized {
    /// The option as contracts see it.
    spec fn option(&self) -> CommandOptionView;

    /// Names the option: the English text is its name, and each language has
    /// its text under its locale.
    fn localized_name(&mut self, str: LocalizedString)
        ensures
            final(self).option() == (CommandOptionView {
                name: Some(str.en@),
                name_localizations: with_localized(old(self).option().name_localizations, str),
                ..old(self).option()
            }),
    ;

    /// Describes the option: the English text is its description, and each
    /// language has its text under its locale.
    fn localized_desc(&mut self, str: LocalizedString)
        ensures
            final(self).option() == (CommandOptionView {
                description: Some(str.en@),
                description_localizations: with_localized(
                    old(self).option().description_localizations,
                    str,
                ),
                ..old(self).option()
            }),
    ;
}

impl CreateApplicationCommandOptionExt for CreateApplicationCommandOption {
    open spec fn option(&self) -> CommandOptionView {
        self@
    }

    fn localized_name(&mut self, str: LocalizedString) {
        self.name(str.en);
        self.name_localized(locale_en(), str.en);
        self.name_localized(locale_ja(), str.ja);
    }

    fn localized_desc(&mut self, str: LocalizedString) {
        self.description(str.en);
        self.description_localized(locale_en(), str.en);
        self.description_localized(locale_ja(), str.ja);
    }
}

/// A command typed into the chat input, named and described in every
/// language, with nothing else set.
pub open spec fn chat_command(name: LocalizedString, desc: LocalizedString) -> CommandView {
    CommandView {
        kind: Some(CommandType::ChatInput),
        name: Some(name.en@),
        name_localizations: with_localized(Map::empty(), name),
        description: Some(desc.en@),
        description_localizations: with_localized(Map::empty(), desc),
        ..CommandView::empty()
    }
}

/// A command typed into the chat input, named and described in every
/// language.
pub fn create_chat_command(name: LocalizedString, desc: LocalizedString) -> (r:
    CreateApplicationCommand)
    ensures
        r@ == chat_command(name, desc),
{
    let mut cmd = CreateApplicationCommand::default();
    cmd.localized_name(name);
    cmd.kind(CommandType::ChatInput);
    cmd.localized_desc(desc);
    cmd
}

/// An option of the kind `kind`, named and described in every language, with
/// the options `options` below it.
pub open spec fn localized_option(
    kind: CommandOptionType,
    name: LocalizedString,
    desc: LocalizedString,
    required: bool,
    options: Seq<CommandOptionView>,
) -> CommandOptionView {
    CommandOptionView {
        kind: Some(kind),
        name: Some(name.en@),
        name_localizations: with_localized(Map::empty(), name),
        description: Some(desc.en@),
        description_localizations: with_localized(Map::empty(), desc),
        required,
        options,
    }
}

/// An option of the kind `kind`, named and described in every language, with
/// no options below it.
pub fn create_localized_option(
    kind: CommandOptionType,
    name: LocalizedString,
    desc: LocalizedString,
    required: bool,
) -> (r: CreateApplicationCommandOption)
    ensures
        r@ == localized_option(kind, name, desc, required, Seq::empty()),
{
    let mut opt = CreateApplicationCommandOption::new();
    opt.kind(kind);
    opt.localized_name(name);
    opt.localized_desc(desc);
    opt.required(required);
    opt
}

} // verus!
