//! Emotes as the game's data service reports them, before they are checked.

use vstd::prelude::*;

verus! {

/// A log message in each language.
#[derive(Debug, PartialEq, Eq)]
pub struct LogMessageData {
    pub text_en: String,
    pub text_ja: String,
}

/// What contracts say of a [`LogMessageData`].
pub struct LogMessageDataView {
    pub text_en: Seq<char>,
    pub text_ja: Seq<char>,
}

impl View for LogMessageData {
    type V = LogMessageDataView;

    open spec fn view(&self) -> LogMessageDataView {
        LogMessageDataView { text_en: self.text_en@, text_ja: self.text_ja@ }
    }
}

/// The texts that call an emote in the game's chat.
#[derive(Debug, PartialEq, Eq)]
pub struct TextCommand {
    pub alias_en: Option<String>,
    pub alias_ja: Option<String>,
    pub command_en: Option<String>,
    pub command_ja: Option<String>,
}

/// What contracts say of a [`TextCommand`].
pub struct TextCommandView {
    pub alias_en: Option<Seq<char>>,
    pub alias_ja: Option<Seq<char>>,
    pub command_en: Option<Seq<char>>,
    pub command_ja: Option<Seq<char>>,
}

/// A text that may be absent, as its characters.
pub open spec fn text_view(text: Option<String>) -> Option<Seq<char>> {
    match text {
        Some(t) => Some(t@),
        None => None,
    }
}

impl View for TextCommand {
    type V = TextCommandView;

    open spec fn view(&self) -> TextCommandView {
        TextCommandView {
            alias_en: text_view(self.alias_en),
            alias_ja: text_view(self.alias_ja),
            command_en: text_view(self.command_en),
            command_ja: text_view(self.command_ja),
        }
    }
}

/// An emote as reported: any part of it may be missing.
#[derive(Debug, PartialEq, Eq)]
pub struct EmoteData {
    pub log_message_targeted: Option<LogMessageData>,
    pub log_message_untargeted: Option<LogMessageData>,
    pub text_command: Option<TextCommand>,
    pub name: Option<String>,
    pub id: Option<u32>,
}

/// What contracts say of an [`EmoteData`].
pub struct EmoteDataView {
    pub log_message_targeted: Option<LogMessageDataView>,
    pub log_message_untargeted: Option<LogMessageDataView>,
    pub text_command: Option<TextCommandView>,
    pub name: Option<Seq<char>>,
    pub id: Option<u32>,
}

impl View for EmoteData {
    type V = EmoteDataView;

    open spec fn view(&self) -> EmoteDataView {
        EmoteDataView {
            log_message_targeted: match self.log_message_targeted {
                Some(m) => Some(m@),
                None => None,
            },
            log_message_untargeted: match self.log_message_untargeted {
                Some(m) => Some(m@),
                None => None,
            },
            text_command: match self.text_command {
                Some(c) => Some(c@),
                None => None,
            },
            name: text_view(self.name),
            id: self.id,
        }
    }
}

/// The views of a list of reported emotes, in order.
pub open spec fn emote_views(results: Seq<EmoteData>) -> Seq<EmoteDataView> {
    Seq::new(results.len(), |i: int| results[i]@)
}

} // verus!
