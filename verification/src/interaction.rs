//! What a command carries when a user invokes it.

use vstd::prelude::*;

verus! {

/// The value that an option of a command resolved to.
#[derive(Debug, PartialEq, Eq)]
pub enum CommandDataOptionValue {
    /// A text.
    String(String),
    /// Anything that is no text: a number, a user, a role and so on.
    Other,
}

/// What contracts say of a [`CommandDataOptionValue`].
pub enum CommandDataOptionValueView {
    String(Seq<char>),
    Other,
}

impl View for CommandDataOptionValue {
    type V = CommandDataOptionValueView;

    open spec fn view(&self) -> CommandDataOptionValueView {
        match self {
            CommandDataOptionValue::String(s) => CommandDataOptionValueView::String(s@),
            CommandDataOptionValue::Other => CommandDataOptionValueView::Other,
        }
    }
}

/// An option that a user gave to a command, with the options below it.
#[derive(Debug, PartialEq, Eq)]
pub struct CommandDataOption {
    pub name: String,
    pub resolved: Option<CommandDataOptionValue>,
    pub options: Vec<CommandDataOption>,
}

/// What contracts say of a [`CommandDataOption`].
pub struct CommandDataOptionView {
    pub name: Seq<char>,
    pub resolved: Option<CommandDataOptionValueView>,
    pub options: Seq<CommandDataOptionView>,
}

/// The view of an option, and of the options below it.
pub open spec fn option_view(option: CommandDataOption) -> CommandDataOptionView
    decreases option,
{
    CommandDataOptionView {
        name: option.name@,
        resolved: match option.resolved {
            Some(v) => Some(v@),
            None => None,
        },
        options: Seq::new(
            option.options.len() as nat,
            |i: int|
                if 0 <= i < option.options.len() {
                    option_view(option.options[i])
                } else {
                    arbitrary()
                },
        ),
    }
}

impl View for CommandDataOption {
    type V = CommandDataOptionView;

    open spec fn view(&self) -> CommandDataOptionView {
        option_view(*self)
    }
}

/// The views of a list of options, in order.
pub open spec fn option_views(options: Seq<CommandDataOption>) -> Seq<CommandDataOptionView> {
    Seq::new(options.len(), |i: int| options[i]@)
}

impl CommandDataOptionView {
    /// The text that the option at `index` below this one resolved to, if
    /// there is such an option and it resolved to a text.
    pub open spec fn text_at(self, index: int) -> Option<Seq<char>> {
        if 0 <= index < self.options.len() {
            match self.options[index].resolved {
                Some(CommandDataOptionValueView::String(s)) => Some(s),
                _ => None,
            }
        } else {
            None
        }
    }
}

impl CommandDataOption {
    /// The text that the option at `index` below this one resolved to, if
    /// there is such an option and it resolved to a text.
    pub fn text_at(&self, index: usize) -> (r: Option<&String>)
        ensures
            match r {
                Some(s) => self@.text_at(index as int) == Some(s@),
                None => self@.text_at(index as int) is None,
            },
    {
        proof {
            reveal_with_fuel(option_view, 2);
        }
        if index < self.options.len() {
            match &self.options[index].resolved {
                Some(CommandDataOptionValue::String(s)) => Some(s),
                _ => None,
            }
        } else {
            None
        }
    }
}

} // verus!
