//! The command that lets a user pick an emote and a target from menus.

use vstd::prelude::*;
use vstd::string::*;

use crate::db::models::{DbUser, DbUserView};
use crate::id::UserId;
use crate::session::controller::{Action, Session, SessionView, Submission, SubmissionView};
use crate::session::event::{
    decode_event, decoded, lemma_component_id_round_trip, value_view, ComponentId, EventView,
};
use crate::session::pager::{
    current_page_number, has_next_page, has_prev_page, page, page_count, page_count_of,
    page_number_of, page_slice,
};
use crate::session::target::{
    candidate_views, display_text, target_text, Candidate, CandidateView, Target,
    TargetView,
};
use crate::text::{decimal, decimal_string, lemma_decimal_parses_back, push_decimal, str_eq};
use crate::ui::{
    button, button_pair_row, button_row, option_views, select_row, ButtonView, DialogSpec,
    DialogSpecView, RowView, SelectMenu, SelectMenuView, SelectOption, SelectOptionView, Ui, UiView,
};
use crate::builder::{CommandView, CreateApplicationCommand};
use crate::util::{chat_command, create_chat_command, LocalizedString};

verus! {

/// The prompt above the menus.
#[verifier::allow_in_spec]
pub fn content() -> LocalizedString
    returns
        (LocalizedString {
            en: "Select an emote and optionally a target",
            ja: "エモートを選択してターゲットを任意選択して送信",
        }),
{
    LocalizedString {
        en: "Select an emote and optionally a target",
        ja: "エモートを選択してターゲットを任意選択して送信",
    }
}

/// What stands in the target menu while no target is chosen.
#[verifier::allow_in_spec]
pub fn no_user_selected() -> LocalizedString
    returns
        (LocalizedString { en: "no target selected", ja: "ユーザー未選択" }),
{
    LocalizedString { en: "no target selected", ja: "ユーザー未選択" }
}

/// The label of the button that opens the target dialog.
#[verifier::allow_in_spec]
pub fn input_user_btn() -> LocalizedString
    returns
        (LocalizedString { en: "Input custom target", ja: "ターゲット指定入力" }),
{
    LocalizedString { en: "Input custom target", ja: "ターゲット指定入力" }
}

/// The text of the target dialog.
#[verifier::allow_in_spec]
pub fn input_target_modal_content() -> LocalizedString
    returns
        (LocalizedString { en: "Input target name", ja: "ターゲットの名前を入力してください" }),
{
    LocalizedString { en: "Input target name", ja: "ターゲットの名前を入力してください" }
}

/// The label of the target dialog's field.
#[verifier::allow_in_spec]
pub fn input_target_modal_input() -> LocalizedString
    returns
        (LocalizedString { en: "Target name", ja: "ターゲットの名前" }),
{
    LocalizedString { en: "Target name", ja: "ターゲットの名前" }
}

/// The title of the target dialog.
#[verifier::allow_in_spec]
pub fn input_target_modal_title() -> LocalizedString
    returns
        (LocalizedString { en: "Custom emote target", ja: "エモートのターゲット指定" }),
{
    LocalizedString { en: "Custom emote target", ja: "エモートのターゲット指定" }
}

/// What stands in the emote menu while no emote is chosen.
#[verifier::allow_in_spec]
pub fn no_emote_selected() -> LocalizedString
    returns
        (LocalizedString { en: "No emote selected", ja: "エモート未選択" }),
{
    LocalizedString { en: "No emote selected", ja: "エモート未選択" }
}

/// The label of the button that turns back a page.
#[verifier::allow_in_spec]
pub fn prev_emote_page() -> LocalizedString
    returns
        (LocalizedString { en: "Previous emote page", ja: "前のエモートページへ" }),
{
    LocalizedString { en: "Previous emote page", ja: "前のエモートページへ" }
}

/// The label of the button that turns a page forward.
#[verifier::allow_in_spec]
pub fn next_emote_page() -> LocalizedString
    returns
        (LocalizedString { en: "Next emote page", ja: "次のエモートページへ" }),
{
    LocalizedString { en: "Next emote page", ja: "次のエモートページへ" }
}

/// The label of the button that sends.
#[verifier::allow_in_spec]
pub fn send_btn() -> LocalizedString
    returns
        (LocalizedString { en: "Send", ja: "送信" }),
{
    LocalizedString { en: "Send", ja: "送信" }
}

/// The confirmation shown once the emote has been sent.
#[verifier::allow_in_spec]
pub fn emote_sent() -> LocalizedString
    returns
        (LocalizedString { en: "Emote sent!", ja: "送信しました！" }),
{
    LocalizedString { en: "Emote sent!", ja: "送信しました！" }
}

/// The command's name.
#[verifier::allow_in_spec]
pub fn name() -> LocalizedString
    returns
        (LocalizedString { en: "emote-select", ja: "エモート選択" }),
{
    LocalizedString { en: "emote-select", ja: "エモート選択" }
}

/// What the command does.
#[verifier::allow_in_spec]
pub fn desc() -> LocalizedString
    returns
        (LocalizedString {
            en: "Interactively select and send an emote with an optional target user",
            ja: "エモートを選択してターゲットを任意選択して送信",
        }),
{
    LocalizedString {
        en: "Interactively select and send an emote with an optional target user",
        ja: "エモートを選択してターゲットを任意選択して送信",
    }
}

/// The emote selection command.
#[derive(Clone, Copy, Debug)]
pub struct EmoteSelectCmd;

impl EmoteSelectCmd {
    /// What is registered: a command for the chat input that also works in direct messages.
    pub open spec fn application_command() -> CommandView {
        CommandView { dm_permission: Some(true), ..chat_command(name(), desc()) }
    }

    /// The command as it is registered with the platform.
    pub fn to_application_command() -> (r: CreateApplicationCommand)
        ensures
            r@ == Self::application_command(),
    {
        let mut cmd = create_chat_command(name(), desc());
        cmd.dm_permission(true);
        cmd
    }

    /// The name under which the command is registered.
    #[verifier::allow_in_spec]
    pub fn name() -> LocalizedString
        returns
            name(),
    {
        name()
    }
}

/// The identifier of the dialog that asks for a typed target.
#[verifier::allow_in_spec]
pub fn input_target_modal() -> &'static str
    returns
        "input_target_modal",
{
    "input_target_modal"
}

/// The caption of the prompt: the prompt's text in the user's language, then
/// the number of the page shown and the number of pages, as `(n/m)`.
pub open spec fn caption(len: nat, offset: Option<usize>, user: DbUserView) -> Seq<char> {
    content().in_language(user.language) + seq![' ', '('] + decimal(page_number_of(offset))
        + seq!['/'] + decimal(page_count_of(len)) + seq![')']
}

/// The caption of the prompt for a catalog of `emote_list_len` entries shown
/// at the page `emote_list_offset`.
pub fn interaction_response_content(
    emote_list_len: usize,
    emote_list_offset: Option<usize>,
    user: &DbUser,
) -> (r: String)
    ensures
        r@ == caption(emote_list_len as nat, emote_list_offset, user@),
{
    proof {
        reveal_strlit(" (");
        reveal_strlit("/");
        reveal_strlit(")");
    }
    let mut out = String::from_str(content().for_user(user));
    out.append(" (");
    push_decimal(&mut out, current_page_number(emote_list_offset) as u64);
    out.append("/");
    push_decimal(&mut out, page_count(emote_list_len) as u64);
    out.append(")");
    assert(out@ =~= caption(emote_list_len as nat, emote_list_offset, user@));
    out
}

/// The characters of each text of a list, in order.
pub open spec fn text_views(texts: Seq<String>) -> Seq<Seq<char>> {
    Seq::new(texts.len(), |i: int| texts[i]@)
}

/// The entries of the menu of items: one for each item of the page, shown and
/// reported under the item's own name, and marked where it is the item
/// chosen.
pub open spec fn item_options(items: Seq<Seq<char>>, selected: Option<Seq<char>>) -> Seq<
    SelectOptionView,
> {
    Seq::new(
        items.len(),
        |i: int|
            SelectOptionView { label: items[i], value: items[i], selected: selected == Some(items[i]) },
    )
}

/// Whether `target` is the member numbered as `candidate` is.
pub open spec fn is_member(target: Option<TargetView>, candidate: CandidateView) -> bool {
    match target {
        Some(TargetView::Member { id, display_name }) => id == candidate.id,
        _ => false,
    }
}

/// The entries of the menu of targets: one for each candidate, shown under
/// the candidate's name, reported as the candidate's number in decimal, and
/// marked where the candidate is the member chosen.
pub open spec fn target_options(candidates: Seq<CandidateView>, target: Option<TargetView>) -> Seq<
    SelectOptionView,
> {
    Seq::new(
        candidates.len(),
        |i: int|
            SelectOptionView {
                label: candidates[i].display_name,
                value: decimal(candidates[i].id.0 as nat),
                selected: is_member(target, candidates[i]),
            },
    )
}

/// What the menus report is read back as the choice they show: an entry of
/// the menu of items as the choice of that item, and an entry of the menu of
/// targets as the choice of that candidate.
pub proof fn lemma_menu_values_decode(
    items: Seq<Seq<char>>,
    selected: Option<Seq<char>>,
    candidates: Seq<CandidateView>,
    target: Option<TargetView>,
)
    ensures
        forall|i: int|
            0 <= i < items.len() ==> decoded(
                ComponentId::ItemSelect.as_str()@,
                Some(#[trigger] item_options(items, selected)[i].value),
            ) == EventView::ItemSelected(items[i]),
        forall|i: int|
            0 <= i < candidates.len() ==> decoded(
                ComponentId::TargetSelect.as_str()@,
                Some(#[trigger] target_options(candidates, target)[i].value),
            ) == EventView::TargetMemberSelected(candidates[i].id),
{
    lemma_component_id_round_trip(ComponentId::ItemSelect);
    lemma_component_id_round_trip(ComponentId::TargetSelect);
    assert forall|i: int| 0 <= i < candidates.len() implies decoded(
        ComponentId::TargetSelect.as_str()@,
        Some(#[trigger] target_options(candidates, target)[i].value),
    ) == EventView::TargetMemberSelected(candidates[i].id) by {
        lemma_decimal_parses_back(candidates[i].id.0);
    }
}

/// What the menu of targets shows while none of its entries is marked: the
/// text that was typed as target, and where none was typed, also where a
/// member is the target, the words that no target is chosen.
pub open spec fn target_placeholder(target: Option<TargetView>, user: DbUserView) -> Seq<char> {
    match target {
        Some(TargetView::FreeText(text)) => text,
        _ => no_user_selected().in_language(user.language),
    }
}

/// The prompt that shows `s` over `catalog` and `candidates` to `user`.
///
/// From top to bottom: the menu of the items of the page; the buttons that
/// turn the page, each disabled where there is no page to turn to; the menu
/// of candidates, which shows a typed target in place of a marked entry; the
/// button that opens the dialog; the button that confirms.
pub open spec fn prompt(
    s: SessionView,
    catalog: Seq<Seq<char>>,
    candidates: Seq<CandidateView>,
    user: DbUserView,
) -> UiView {
    UiView {
        content: caption(catalog.len(), s.page_offset, user),
        rows: seq![
            RowView::Select(
                SelectMenuView {
                    id: ComponentId::ItemSelect.as_str()@,
                    placeholder: Some(no_emote_selected().in_language(user.language)),
                    options: item_options(page_slice(catalog, s.page_offset), s.selected_item),
                },
            ),
            RowView::Buttons(
                seq![
                    ButtonView {
                        id: ComponentId::ItemPrev.as_str()@,
                        label: prev_emote_page().in_language(user.language),
                        disabled: !has_prev_page(s.page_offset),
                    },
                    ButtonView {
                        id: ComponentId::ItemNext.as_str()@,
                        label: next_emote_page().in_language(user.language),
                        disabled: !has_next_page(s.page_offset, catalog.len()),
                    },
                ],
            ),
            RowView::Select(
                SelectMenuView {
                    id: ComponentId::TargetSelect.as_str()@,
                    placeholder: Some(target_placeholder(s.selected_target, user)),
                    options: target_options(candidates, s.selected_target),
                },
            ),
            RowView::Buttons(
                seq![
                    ButtonView {
                        id: ComponentId::TargetInputOpen.as_str()@,
                        label: input_user_btn().in_language(user.language),
                        disabled: false,
                    },
                ],
            ),
            RowView::Buttons(
                seq![
                    ButtonView {
                        id: ComponentId::Submit.as_str()@,
                        label: send_btn().in_language(user.language),
                        disabled: false,
                    },
                ],
            ),
        ],
    }
}

/// The entries of the menu of items for the items `items`.
fn create_item_options(items: &[String], selected: Option<&String>) -> (r: Vec<SelectOption>)
    ensures
        option_views(r@) == item_options(
            text_views(items@),
            match selected {
                Some(item) => Some(item@),
                None => None,
            },
        ),
{
    let ghost chosen: Option<Seq<char>> = match selected {
        Some(item) => Some(item@),
        None => None,
    };
    let ghost wanted = item_options(text_views(items@), chosen);
    let mut options: Vec<SelectOption> = Vec::new();
    let mut i: usize = 0;
    while i < items.len()
        invariant
            i <= items.len(),
            options.len() == i,
            wanted == item_options(text_views(items@), chosen),
            chosen == match selected {
                Some(item) => Some(item@),
                None => None,
            },
            forall|k: int| 0 <= k < i ==> (#[trigger] options[k])@ == wanted[k],
        decreases items.len() - i,
    {
        let item = &items[i];
        let marked = match selected {
            Some(s) => str_eq(s.as_str(), item.as_str()),
            None => false,
        };
        options.push(SelectOption { label: item.clone(), value: item.clone(), selected: marked });
        i += 1;
    }
    assert(option_views(options@) =~= wanted);
    options
}

/// The entries of the menu of targets for the candidates `members`.
fn create_target_options(members: &[Candidate], target: Option<&Target>) -> (r: Vec<SelectOption>)
    ensures
        option_views(r@) == target_options(
            candidate_views(members@),
            match target {
                Some(t) => Some(t@),
                None => None,
            },
        ),
{
    let ghost chosen: Option<TargetView> = match target {
        Some(t) => Some(t@),
        None => None,
    };
    let ghost wanted = target_options(candidate_views(members@), chosen);
    let mut options: Vec<SelectOption> = Vec::new();
    let mut i: usize = 0;
    while i < members.len()
        invariant
            i <= members.len(),
            options.len() == i,
            wanted == target_options(candidate_views(members@), chosen),
            chosen == match target {
                Some(t) => Some(t@),
                None => None,
            },
            forall|k: int| 0 <= k < i ==> (#[trigger] options[k])@ == wanted[k],
        decreases members.len() - i,
    {
        let member = &members[i];
        let marked = match target {
            Some(Target::Member { id, display_name }) => id.0 == member.id.0,
            _ => false,
        };
        options.push(
            SelectOption {
                label: member.display_name.clone(),
                value: decimal_string(member.id.0),
                selected: marked,
            },
        );
        i += 1;
    }
    assert(option_views(options@) =~= wanted);
    options
}

/// Renders the prompt of `session` over the catalog `emote_list` and the
/// candidates `members`, in the language of `user`.
///
/// The prompt is made from these values alone, so the same values always give
/// the same prompt.
pub fn create_response(
    user: &DbUser,
    emote_list: &[String],
    session: &Session,
    members: &[Candidate],
) -> (r: Ui)
    ensures
        r@ == prompt(session@, text_views(emote_list@), candidate_views(members@), user@),
{
    let ghost wanted = prompt(session@, text_views(emote_list@), candidate_views(members@), user@);
    let shown = page(emote_list, session.page_offset());
    assert(text_views(shown.items@) =~= page_slice(text_views(emote_list@), session@.page_offset));
    let item_menu = SelectMenu {
        id: ComponentId::ItemSelect.as_str(),
        placeholder: Some(String::from_str(no_emote_selected().for_user(user))),
        options: create_item_options(shown.items, session.selected_item()),
    };
    let typed = match session.selected_target() {
        Some(Target::FreeText(text)) => text.clone(),
        _ => display_text(None, user),
    };
    let target_menu = SelectMenu {
        id: ComponentId::TargetSelect.as_str(),
        placeholder: Some(typed),
        options: create_target_options(members, session.selected_target()),
    };
    let mut rows = Vec::new();
    rows.push(select_row(item_menu));
    rows.push(
        button_pair_row(
            button(ComponentId::ItemPrev.as_str(), prev_emote_page().for_user(user), !shown.has_prev),
            button(ComponentId::ItemNext.as_str(), next_emote_page().for_user(user), !shown.has_next),
        ),
    );
    rows.push(select_row(target_menu));
    rows.push(
        button_row(button(ComponentId::TargetInputOpen.as_str(), input_user_btn().for_user(user), false)),
    );
    rows.push(button_row(button(ComponentId::Submit.as_str(), send_btn().for_user(user), false)));
    let ui = Ui {
        content: interaction_response_content(emote_list.len(), session.page_offset(), user),
        rows,
    };
    assert(ui@.rows =~= wanted.rows);
    ui
}

/// While a typed text is the target, the menu of targets marks no candidate
/// and shows the text in place of a marked entry.
pub proof fn lemma_typed_target_marks_no_member(
    candidates: Seq<CandidateView>,
    text: Seq<char>,
    user: DbUserView,
)
    ensures
        target_placeholder(Some(TargetView::FreeText(text)), user) == text,
        forall|i: int|
            0 <= i < candidates.len() ==> !(#[trigger] target_options(
                candidates,
                Some(TargetView::FreeText(text)),
            )[i]).selected,
{
}

/// While a member is the target, the menu of targets marks the candidates
/// with the member's number and no others, and shows no typed text: in place
/// of one stand the words that no target is chosen, whatever was typed
/// before.
pub proof fn lemma_member_target_shows_no_typed_text(
    candidates: Seq<CandidateView>,
    id: UserId,
    display_name: Seq<char>,
    user: DbUserView,
)
    ensures
        target_placeholder(Some(TargetView::Member { id, display_name }), user)
            == no_user_selected().in_language(user.language),
        forall|i: int|
            0 <= i < candidates.len() ==> (#[trigger] target_options(
                candidates,
                Some(TargetView::Member { id, display_name }),
            )[i]).selected == (candidates[i].id == id),
{
}

/// Takes what a part of the prompt reported at the second `now`: reads the
/// event from the part's identifier and the value that came with it, and
/// hands it to the session. The result says what to do next.
pub fn handle_interaction(
    session: &mut Session,
    custom_id: &str,
    value: Option<&str>,
    now: u64,
    members: &[Candidate],
) -> (r: Action)
    ensures
        final(session)@ == old(session)@.handled(
            decoded(custom_id@, value_view(value)),
            now,
            candidate_views(members@),
        ),
        r@ == old(session)@.action_on(decoded(custom_id@, value_view(value)), now),
{
    session.handle_event(decode_event(custom_id, value), now, members)
}

/// The dialog that asks for a typed target.
pub open spec fn target_dialog_view(user: DbUserView) -> DialogSpecView {
    DialogSpecView {
        id: input_target_modal()@,
        title: input_target_modal_title().in_language(user.language),
        content: input_target_modal_content().in_language(user.language),
        field_id: ComponentId::TargetInputField.as_str()@,
        field_label: input_target_modal_input().in_language(user.language),
        max_length: None,
    }
}

/// The dialog that asks for a typed target, in the language of `user`.
pub fn target_dialog(user: &DbUser) -> (r: DialogSpec)
    ensures
        r@ == target_dialog_view(user@),
{
    DialogSpec {
        id: input_target_modal(),
        title: String::from_str(input_target_modal_title().for_user(user)),
        content: String::from_str(input_target_modal_content().for_user(user)),
        field_id: ComponentId::TargetInputField.as_str(),
        field_label: String::from_str(input_target_modal_input().for_user(user)),
        max_length: None,
    }
}

/// The confirmation shown once `submission` has been sent: the
/// acknowledgement in the user's language, then in brackets the item and,
/// after a space, the target where there is one.
pub open spec fn sent_text(user: DbUserView, submission: SubmissionView) -> Seq<char> {
    emote_sent().in_language(user.language) + seq![' ', '('] + submission.item + match submission.target {
        Some(target) => seq![' '] + target_text(target),
        None => Seq::empty(),
    } + seq![')']
}

/// The text of the final confirmation.
pub fn confirmation_content(user: &DbUser, submission: &Submission) -> (r: String)
    ensures
        r@ == sent_text(user@, submission@),
{
    proof {
        reveal_strlit(" (");
        reveal_strlit(" ");
        reveal_strlit(")");
    }
    let mut out = String::from_str(emote_sent().for_user(user));
    out.append(" (");
    out.append(submission.item.as_str());
    match &submission.target {
        Some(target) => {
            out.append(" ");
            let text = target.to_string();
            out.append(text.as_str());
        },
        None => {},
    }
    out.append(")");
    assert(out@ =~= sent_text(user@, submission@));
    out
}

/// The final prompt of a submitted session: the confirmation, with nothing
/// left to press.
pub fn confirmation(user: &DbUser, submission: &Submission) -> (r: Ui)
    ensures
        r@ == (UiView { content: sent_text(user@, submission@), rows: Seq::empty() }),
{
    let ui = Ui { content: confirmation_content(user, submission), rows: Vec::new() };
    assert(ui@.rows =~= Seq::empty());
    ui
}

} // verus!
