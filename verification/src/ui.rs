//! What a prompt shows: a text, and rows of menus and buttons under it.
//!
//! A description holds plain values only. It says nothing of how the platform
//! draws it, so two descriptions with the same view are drawn alike.

use vstd::prelude::*;

verus! {

/// One entry of a menu.
#[derive(Debug, PartialEq, Eq)]
pub struct SelectOption {
    /// The text shown.
    pub label: String,
    /// What the menu reports when the entry is chosen.
    pub value: String,
    /// Whether the entry is shown as chosen.
    pub selected: bool,
}

/// What contracts say of a [`SelectOption`].
pub struct SelectOptionView {
    pub label: Seq<char>,
    pub value: Seq<char>,
    pub selected: bool,
}

impl View for SelectOption {
    type V = SelectOptionView;

    open spec fn view(&self) -> SelectOptionView {
        SelectOptionView { label: self.label@, value: self.value@, selected: self.selected }
    }
}

/// A menu from which one entry is chosen.
#[derive(Debug, PartialEq, Eq)]
pub struct SelectMenu {
    /// The identifier that events of this menu carry.
    pub id: &'static str,
    /// What the menu shows while no entry is chosen, if it is to show anything.
    pub placeholder: Option<String>,
    /// The entries, in the order shown.
    pub options: Vec<SelectOption>,
}

/// What contracts say of a [`SelectMenu`].
pub struct SelectMenuView {
    pub id: Seq<char>,
    pub placeholder: Option<Seq<char>>,
    pub options: Seq<SelectOptionView>,
}

/// The views of a list of entries, in order.
pub open spec fn option_views(options: Seq<SelectOption>) -> Seq<SelectOptionView> {
    Seq::new(options.len(), |i: int| options[i]@)
}

impl View for SelectMenu {
    type V = SelectMenuView;

    open spec fn view(&self) -> SelectMenuView {
        SelectMenuView {
            id: self.id@,
            placeholder: match self.placeholder {
                Some(p) => Some(p@),
                None => None,
            },
            options: option_views(self.options@),
        }
    }
}

/// A button.
#[derive(Debug, PartialEq, Eq)]
pub struct Button {
    /// The identifier that events of this button carry.
    pub id: &'static str,
    /// The text shown.
    pub label: String,
    /// Whether the button is shown but cannot be pressed.
    pub disabled: bool,
}

/// What contracts say of a [`Button`].
pub struct ButtonView {
    pub id: Seq<char>,
    pub label: Seq<char>,
    pub disabled: bool,
}

impl View for Button {
    type V = ButtonView;

    open spec fn view(&self) -> ButtonView {
        ButtonView { id: self.id@, label: self.label@, disabled: self.disabled }
    }
}

/// One row of a prompt.
#[derive(Debug, PartialEq, Eq)]
pub enum Row {
    /// A menu, alone in its row.
    Select(SelectMenu),
    /// Buttons side by side.
    Buttons(Vec<Button>),
}

/// What contracts say of a [`Row`].
pub enum RowView {
    Select(SelectMenuView),
    Buttons(Seq<ButtonView>),
}

/// The views of a list of buttons, in order.
pub open spec fn button_views(buttons: Seq<Button>) -> Seq<ButtonView> {
    Seq::new(buttons.len(), |i: int| buttons[i]@)
}

impl View for Row {
    type V = RowView;

    open spec fn view(&self) -> RowView {
        match self {
            Row::Select(menu) => RowView::Select(menu@),
            Row::Buttons(buttons) => RowView::Buttons(button_views(buttons@)),
        }
    }
}

/// A prompt: a text and the rows under it.
#[derive(Debug, PartialEq, Eq)]
pub struct Ui {
    /// The text above the rows.
    pub content: String,
    /// The rows, from top to bottom.
    pub rows: Vec<Row>,
}

/// What contracts say of a [`Ui`].
pub struct UiView {
    pub content: Seq<char>,
    pub rows: Seq<RowView>,
}

/// The views of a list of rows, in order.
pub open spec fn row_views(rows: Seq<Row>) -> Seq<RowView> {
    Seq::new(rows.len(), |i: int| rows[i]@)
}

impl View for Ui {
    type V = UiView;

    open spec fn view(&self) -> UiView {
        UiView { content: self.content@, rows: row_views(self.rows@) }
    }
}

/// A dialog that asks for one line of text.
#[derive(Debug, PartialEq, Eq)]
pub struct DialogSpec {
    /// The identifier that the dialog's submission carries.
    pub id: &'static str,
    /// The dialog's title.
    pub title: String,
    /// The text inside the dialog.
    pub content: String,
    /// The identifier of the text field.
    pub field_id: &'static str,
    /// The label of the text field.
    pub field_label: String,
    /// The longest text that the field takes, if it is limited.
    pub max_length: Option<u64>,
}

/// What contracts say of a [`DialogSpec`].
pub struct DialogSpecView {
    pub id: Seq<char>,
    pub title: Seq<char>,
    pub content: Seq<char>,
    pub field_id: Seq<char>,
    pub field_label: Seq<char>,
    pub max_length: Option<u64>,
}

impl View for DialogSpec {
    type V = DialogSpecView;

    open spec fn view(&self) -> DialogSpecView {
        DialogSpecView {
            id: self.id@,
            title: self.title@,
            content: self.content@,
            field_id: self.field_id@,
            field_label: self.field_label@,
            max_length: self.max_length,
        }
    }
}

/// A button that can be pressed.
pub fn button(id: &'static str, label: &str, disabled: bool) -> (r: Button)
    ensures
        r@ == (ButtonView { id: id@, label: label@, disabled }),
{
    Button { id, label: label.to_owned(), disabled }
}

/// A row that holds `menu` alone.
pub fn select_row(menu: SelectMenu) -> (r: Row)
    ensures
        r@ == RowView::Select(menu@),
{
    Row::Select(menu)
}

/// A row that holds one button.
pub fn button_row(only: Button) -> (r: Row)
    ensures
        r@ == RowView::Buttons(seq![only@]),
{
    let mut buttons = Vec::new();
    buttons.push(only);
    assert(button_views(buttons@) =~= seq![only@]);
    Row::Buttons(buttons)
}

/// A row that holds two buttons, `left` before `right`.
pub fn button_pair_row(left: Button, right: Button) -> (r: Row)
    ensures
        r@ == RowView::Buttons(seq![left@, right@]),
{
    let mut buttons = Vec::new();
    buttons.push(left);
    buttons.push(right);
    assert(button_views(buttons@) =~= seq![left@, right@]);
    Row::Buttons(buttons)
}

} // verus!
