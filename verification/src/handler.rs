//! What can go wrong while a message or a command is handled, and the emote
//! data that handling draws on.

use vstd::prelude::*;
use vstd::string::*;

pub mod commands;
pub mod emotes;
pub mod repository;
pub mod xivapi;

verus! {

/// The log messages of one emote in one language: one for use with a target
/// and one for use without. Each is a template that the template engine
/// fills in; nothing here reads inside it.
#[derive(Debug, PartialEq, Eq)]
pub struct ConditionTextPair {
    pub targeted: String,
    pub untargeted: String,
}

/// What contracts say of a [`ConditionTextPair`].
pub struct ConditionTextPairView {
    pub targeted: Seq<char>,
    pub untargeted: Seq<char>,
}

impl View for ConditionTextPair {
    type V = ConditionTextPairView;

    open spec fn view(&self) -> ConditionTextPairView {
        ConditionTextPairView { targeted: self.targeted@, untargeted: self.untargeted@ }
    }
}

/// An emote: its number in the game's data, its name, and its log messages
/// in each language.
#[derive(Debug, PartialEq, Eq)]
pub struct EmoteData {
    pub id: u32,
    pub name: String,
    pub en: ConditionTextPair,
    pub ja: ConditionTextPair,
}

/// What contracts say of an [`EmoteData`].
pub struct EmoteDataView {
    pub id: u32,
    pub name: Seq<char>,
    pub en: ConditionTextPairView,
    pub ja: ConditionTextPairView,
}

impl View for EmoteData {
    type V = EmoteDataView;

    open spec fn view(&self) -> EmoteDataView {
        EmoteDataView { id: self.id, name: self.name@, en: self.en@, ja: self.ja@ }
    }
}

/// Why a message or a command could not be handled.
#[derive(Debug, PartialEq, Eq)]
pub enum HandlerError {
    /// No emote has this name.
    UnrecognizedEmote(String),
    /// No command has this name.
    UnrecognizedCommand(String),
    /// The message held a prefix and nothing else.
    EmptyCommand,
    /// The emote data could not be retrieved.
    EmoteData,
    /// The template engine refused the identities.
    Answers,
    /// The template engine could not read a log message.
    Extract,
    /// A log message names a target, and none was resolved.
    TargetNone,
    /// The store failed.
    Db,
    /// The transport failed.
    Send,
    /// The command works in a guild only.
    NotGuild,
    /// A prompt ran out of time or of events.
    TimeoutOrOverLimit,
    /// The user chosen is none of the candidates.
    UserNotFound,
    /// The platform sent something unexpected.
    UnexpectedData,
    /// No more commands can be registered.
    ApplicationCommandCap,
    /// A count was asked for without saying of what.
    EmoteLogCountNoParams,
    /// The store returned no count.
    CountNone,
    /// The platform reported a command that the bot does not know.
    CommandRegisterUnknown,
    /// The registry of commands is missing.
    TypeMapNotFound,
    /// The commands could not be registered.
    CommandSetup,
}

/// What contracts say of a [`HandlerError`].
pub enum HandlerErrorView {
    UnrecognizedEmote(Seq<char>),
    UnrecognizedCommand(Seq<char>),
    EmptyCommand,
    EmoteData,
    Answers,
    Extract,
    TargetNone,
    Db,
    Send,
    NotGuild,
    TimeoutOrOverLimit,
    UserNotFound,
    UnexpectedData,
    ApplicationCommandCap,
    EmoteLogCountNoParams,
    CountNone,
    CommandRegisterUnknown,
    TypeMapNotFound,
    CommandSetup,
}

impl View for HandlerError {
    type V = HandlerErrorView;

    open spec fn view(&self) -> HandlerErrorView {
        match self {
            HandlerError::UnrecognizedEmote(name) => HandlerErrorView::UnrecognizedEmote(name@),
            HandlerError::UnrecognizedCommand(name) => HandlerErrorView::UnrecognizedCommand(name@),
            HandlerError::EmptyCommand => HandlerErrorView::EmptyCommand,
            HandlerError::EmoteData => HandlerErrorView::EmoteData,
            HandlerError::Answers => HandlerErrorView::Answers,
            HandlerError::Extract => HandlerErrorView::Extract,
            HandlerError::TargetNone => HandlerErrorView::TargetNone,
            HandlerError::Db => HandlerErrorView::Db,
            HandlerError::Send => HandlerErrorView::Send,
            HandlerError::NotGuild => HandlerErrorView::NotGuild,
            HandlerError::TimeoutOrOverLimit => HandlerErrorView::TimeoutOrOverLimit,
            HandlerError::UserNotFound => HandlerErrorView::UserNotFound,
            HandlerError::UnexpectedData => HandlerErrorView::UnexpectedData,
            HandlerError::ApplicationCommandCap => HandlerErrorView::ApplicationCommandCap,
            HandlerError::EmoteLogCountNoParams => HandlerErrorView::EmoteLogCountNoParams,
            HandlerError::CountNone => HandlerErrorView::CountNone,
            HandlerError::CommandRegisterUnknown => HandlerErrorView::CommandRegisterUnknown,
            HandlerError::TypeMapNotFound => HandlerErrorView::TypeMapNotFound,
            HandlerError::CommandSetup => HandlerErrorView::CommandSetup,
        }
    }
}

impl HandlerErrorView {
    /// What the user is told of the error.
    pub open spec fn message(self) -> Seq<char> {
        match self {
            HandlerErrorView::UnrecognizedEmote(name) => "Unrecognized emote ("@ + name + ")"@,
            HandlerErrorView::UnrecognizedCommand(name) => "Unrecognized command ("@ + name + ")"@,
            HandlerErrorView::EmptyCommand => "Command was empty"@,
            HandlerErrorView::EmoteData => "Internal error, could not retrieve emote data"@,
            HandlerErrorView::Answers => "Internal error, could not build response"@,
            HandlerErrorView::Extract => "Internal error, could not build response"@,
            HandlerErrorView::TargetNone => "Internal error, could not build response"@,
            HandlerErrorView::Db => "Internal error, could not build response"@,
            HandlerErrorView::Send => "Failed to send message"@,
            HandlerErrorView::NotGuild => "Command can only be used in a server"@,
            HandlerErrorView::TimeoutOrOverLimit => "Timed out or had too many inputs"@,
            HandlerErrorView::UserNotFound => "Couldn't find user"@,
            HandlerErrorView::UnexpectedData => "Unexpected data received from server"@,
            HandlerErrorView::ApplicationCommandCap => "Maximum number of commands reached"@,
            HandlerErrorView::EmoteLogCountNoParams => "Internal error, could not build response"@,
            HandlerErrorView::CountNone => "Internal error, could not build response"@,
            HandlerErrorView::CommandRegisterUnknown => "Received command info for unknown command"@,
            HandlerErrorView::TypeMapNotFound => "Internal error, could not build response"@,
            HandlerErrorView::CommandSetup => "Could not set up application commands"@,
        }
    }
}

impl HandlerError {
    /// Whether the user is to be told of the error. A prompt that ran out of
    /// time or of events ends silently; everything else is reported.
    pub fn should_followup(&self) -> (r: bool)
        ensures
            r == !(self@ is TimeoutOrOverLimit),
    {
        match self {
            HandlerError::TimeoutOrOverLimit => false,
            _ => true,
        }
    }

    /// What the user is told of the error.
    pub fn message(&self) -> (r: String)
        ensures
            r@ == self@.message(),
    {
        match self {
            HandlerError::UnrecognizedEmote(name) => {
                let mut out = String::from_str("Unrecognized emote (");
                out.append(name.as_str());
                out.append(")");
                out
            },
            HandlerError::UnrecognizedCommand(name) => {
                let mut out = String::from_str("Unrecognized command (");
                out.append(name.as_str());
                out.append(")");
                out
            },
            HandlerError::EmptyCommand => String::from_str("Command was empty"),
            HandlerError::EmoteData => String::from_str(
                "Internal error, could not retrieve emote data",
            ),
            HandlerError::Answers => String::from_str("Internal error, could not build response"),
            HandlerError::Extract => String::from_str("Internal error, could not build response"),
            HandlerError::TargetNone => String::from_str("Internal error, could not build response"),
            HandlerError::Db => String::from_str("Internal error, could not build response"),
            HandlerError::Send => String::from_str("Failed to send message"),
            HandlerError::NotGuild => String::from_str("Command can only be used in a server"),
            HandlerError::TimeoutOrOverLimit => String::from_str("Timed out or had too many inputs"),
            HandlerError::UserNotFound => String::from_str("Couldn't find user"),
            HandlerError::UnexpectedData => String::from_str("Unexpected data received from server"),
            HandlerError::ApplicationCommandCap => String::from_str(
                "Maximum number of commands reached",
            ),
            HandlerError::EmoteLogCountNoParams => String::from_str(
                "Internal error, could not build response",
            ),
            HandlerError::CountNone => String::from_str("Internal error, could not build response"),
            HandlerError::CommandRegisterUnknown => String::from_str(
                "Received command info for unknown command",
            ),
            HandlerError::TypeMapNotFound => String::from_str(
                "Internal error, could not build response",
            ),
            HandlerError::CommandSetup => String::from_str("Could not set up application commands"),
        }
    }
}

} // verus!
