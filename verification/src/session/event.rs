//! The events of a session, and the identifiers under which the platform
//! reports them.

use vstd::prelude::*;
use vstd::string::*;

use crate::id::UserId;
use crate::text::{parse_u64, parsed_u64, str_eq};

verus! {

/// A part of the prompt that reports events. The set is closed: an identifier
/// that names none of these is unknown.
#[derive(Clone, Copy, Debug, PartialEq, Eq, Structural)]
pub enum ComponentId {
    /// The menu of items.
    ItemSelect,
    /// The button that turns back a page.
    ItemPrev,
    /// The button that turns a page forward.
    ItemNext,
    /// The menu of candidate targets.
    TargetSelect,
    /// The button that opens the dialog for a typed target.
    TargetInputOpen,
    /// The text field of that dialog.
    TargetInputField,
    /// The button that confirms.
    Submit,
}

impl ComponentId {
    /// The identifier that the platform knows the part by.
    #[verifier::allow_in_spec]
    pub fn as_str(self) -> &'static str
        returns
            (match self {
                ComponentId::ItemSelect => "item_select",
                ComponentId::ItemPrev => "item_prev",
                ComponentId::ItemNext => "item_next",
                ComponentId::TargetSelect => "target_select",
                ComponentId::TargetInputOpen => "target_input_open",
                ComponentId::TargetInputField => "target_input_field",
                ComponentId::Submit => "submit",
            }),
    {
        match self {
            ComponentId::ItemSelect => "item_select",
            ComponentId::ItemPrev => "item_prev",
            ComponentId::ItemNext => "item_next",
            ComponentId::TargetSelect => "target_select",
            ComponentId::TargetInputOpen => "target_input_open",
            ComponentId::TargetInputField => "target_input_field",
            ComponentId::Submit => "submit",
        }
    }

    /// The part that `id` names, if it names one.
    pub open spec fn named(id: Seq<char>) -> Option<ComponentId> {
        if id == ComponentId::ItemSelect.as_str()@ {
            Some(ComponentId::ItemSelect)
        } else if id == ComponentId::ItemPrev.as_str()@ {
            Some(ComponentId::ItemPrev)
        } else if id == ComponentId::ItemNext.as_str()@ {
            Some(ComponentId::ItemNext)
        } else if id == ComponentId::TargetSelect.as_str()@ {
            Some(ComponentId::TargetSelect)
        } else if id == ComponentId::TargetInputOpen.as_str()@ {
            Some(ComponentId::TargetInputOpen)
        } else if id == ComponentId::TargetInputField.as_str()@ {
            Some(ComponentId::TargetInputField)
        } else if id == ComponentId::Submit.as_str()@ {
            Some(ComponentId::Submit)
        } else {
            None
        }
    }

    /// The part that `id` names, if it names one.
    pub fn parse(id: &str) -> (r: Option<ComponentId>)
        ensures
            r == Self::named(id@),
    {
        if str_eq(id, ComponentId::ItemSelect.as_str()) {
            Some(ComponentId::ItemSelect)
        } else if str_eq(id, ComponentId::ItemPrev.as_str()) {
            Some(ComponentId::ItemPrev)
        } else if str_eq(id, ComponentId::ItemNext.as_str()) {
            Some(ComponentId::ItemNext)
        } else if str_eq(id, ComponentId::TargetSelect.as_str()) {
            Some(ComponentId::TargetSelect)
        } else if str_eq(id, ComponentId::TargetInputOpen.as_str()) {
            Some(ComponentId::TargetInputOpen)
        } else if str_eq(id, ComponentId::TargetInputField.as_str()) {
            Some(ComponentId::TargetInputField)
        } else if str_eq(id, ComponentId::Submit.as_str()) {
            Some(ComponentId::Submit)
        } else {
            None
        }
    }
}

/// Each part is found again by its own identifier, so no two parts share one.
pub proof fn lemma_component_id_round_trip(id: ComponentId)
    ensures
        ComponentId::named(id.as_str()@) == Some(id),
{
    reveal_strlit("item_select");
    reveal_strlit("item_prev");
    reveal_strlit("item_next");
    reveal_strlit("target_select");
    reveal_strlit("target_input_open");
    reveal_strlit("target_input_field");
    reveal_strlit("submit");
    assert("item_select"@.len() == 11 && "item_prev"@.len() == 9 && "item_next"@.len() == 9);
    assert("target_select"@.len() == 13 && "target_input_open"@.len() == 17);
    assert("target_input_field"@.len() == 18 && "submit"@.len() == 6);
    assert("item_prev"@[5] == 'p' && "item_next"@[5] == 'n');
}

/// Something that the user did to the prompt.
#[derive(Debug, PartialEq, Eq)]
pub enum Event {
    /// An item was chosen from the menu.
    ItemSelected(String),
    /// The button that turns back a page was pressed.
    PagePrev,
    /// The button that turns a page forward was pressed.
    PageNext,
    /// A candidate was chosen from the menu of targets.
    TargetMemberSelected(UserId),
    /// The button that opens the dialog was pressed.
    OpenTargetInputDialog,
    /// A text was submitted in the dialog.
    TargetTextSubmitted(String),
    /// The button that confirms was pressed.
    Submit,
    /// Anything else, under the identifier it came with.
    Unknown(String),
}

/// What contracts say of an [`Event`].
pub enum EventView {
    ItemSelected(Seq<char>),
    PagePrev,
    PageNext,
    TargetMemberSelected(UserId),
    OpenTargetInputDialog,
    TargetTextSubmitted(Seq<char>),
    Submit,
    Unknown(Seq<char>),
}

impl View for Event {
    type V = EventView;

    open spec fn view(&self) -> EventView {
        match self {
            Event::ItemSelected(item) => EventView::ItemSelected(item@),
            Event::PagePrev => EventView::PagePrev,
            Event::PageNext => EventView::PageNext,
            Event::TargetMemberSelected(id) => EventView::TargetMemberSelected(*id),
            Event::OpenTargetInputDialog => EventView::OpenTargetInputDialog,
            Event::TargetTextSubmitted(text) => EventView::TargetTextSubmitted(text@),
            Event::Submit => EventView::Submit,
            Event::Unknown(raw) => EventView::Unknown(raw@),
        }
    }
}

/// The event that an identifier and the value reported with it stand for.
///
/// A menu reports the value chosen and the dialog's field the text typed;
/// buttons report no value and any that comes with one is passed over. The
/// menu of targets reports a candidate's number in decimal. An identifier
/// outside the vocabulary, a value that is missing where one is needed, and a
/// target that is no number all come to [`Event::Unknown`] under the
/// identifier received.
pub open spec fn decoded(id: Seq<char>, value: Option<Seq<char>>) -> EventView {
    match ComponentId::named(id) {
        Some(ComponentId::ItemSelect) => match value {
            Some(item) => EventView::ItemSelected(item),
            None => EventView::Unknown(id),
        },
        Some(ComponentId::ItemPrev) => EventView::PagePrev,
        Some(ComponentId::ItemNext) => EventView::PageNext,
        Some(ComponentId::TargetSelect) => match value {
            Some(number) => match parsed_u64(number) {
                Some(n) => EventView::TargetMemberSelected(UserId(n)),
                None => EventView::Unknown(id),
            },
            None => EventView::Unknown(id),
        },
        Some(ComponentId::TargetInputOpen) => EventView::OpenTargetInputDialog,
        Some(ComponentId::TargetInputField) => match value {
            Some(text) => EventView::TargetTextSubmitted(text),
            None => EventView::Unknown(id),
        },
        Some(ComponentId::Submit) => EventView::Submit,
        None => EventView::Unknown(id),
    }
}

/// A text that may be absent, as its characters.
pub open spec fn value_view(value: Option<&str>) -> Option<Seq<char>> {
    match value {
        Some(v) => Some(v@),
        None => None,
    }
}

/// Reads an event from the identifier of the part that reported it and the
/// value that came with it.
pub fn decode_event(id: &str, value: Option<&str>) -> (r: Event)
    ensures
        r@ == decoded(id@, value_view(value)),
{
    match ComponentId::parse(id) {
        Some(ComponentId::ItemSelect) => match value {
            Some(item) => Event::ItemSelected(item.to_owned()),
            None => Event::Unknown(id.to_owned()),
        },
        Some(ComponentId::ItemPrev) => Event::PagePrev,
        Some(ComponentId::ItemNext) => Event::PageNext,
        Some(ComponentId::TargetSelect) => match value {
            Some(number) => match parse_u64(number) {
                Some(n) => Event::TargetMemberSelected(UserId(n)),
                None => Event::Unknown(id.to_owned()),
            },
            None => Event::Unknown(id.to_owned()),
        },
        Some(ComponentId::TargetInputOpen) => Event::OpenTargetInputDialog,
        Some(ComponentId::TargetInputField) => match value {
            Some(text) => Event::TargetTextSubmitted(text.to_owned()),
            None => Event::Unknown(id.to_owned()),
        },
        Some(ComponentId::Submit) => Event::Submit,
        None => Event::Unknown(id.to_owned()),
    }
}

} // verus!
