use discord_xiv_emotes::commands::global::emote_select::{
    confirmation, confirmation_content, create_response, handle_interaction,
    interaction_response_content, target_dialog, EmoteSelectCmd,
};
use discord_xiv_emotes::db::models::{DbGender, DbLanguage, DbUser};
use discord_xiv_emotes::id::UserId;
use discord_xiv_emotes::session::controller::{Action, Session, Submission};
use discord_xiv_emotes::session::event::{decode_event, Event};
use discord_xiv_emotes::session::target::{Candidate, Target};
use discord_xiv_emotes::ui::{Button, DialogSpec, Row, SelectMenu, SelectOption, Ui};

fn user(language: DbLanguage) -> DbUser {
    DbUser { discord_id: String::new(), language, gender: DbGender::M }
}

fn catalog(n: usize) -> Vec<String> {
    (0..n).map(|i| format!("/emote{}", i)).collect()
}

fn candidates() -> Vec<Candidate> {
    vec![
        Candidate { id: UserId(7), display_name: "Alphinaud".to_string() },
        Candidate { id: UserId(42), display_name: "Alisaie".to_string() },
    ]
}

fn started(catalog_len: usize) -> Session {
    let mut session = Session::new(1, catalog_len, 1000);
    session.rendered();
    session
}

fn item_menu(ui: &Ui) -> &SelectMenu {
    match &ui.rows[0] {
        Row::Select(menu) => menu,
        other => panic!("expected the item menu, got {:?}", other),
    }
}

fn page_buttons(ui: &Ui) -> &Vec<Button> {
    match &ui.rows[1] {
        Row::Buttons(buttons) => buttons,
        other => panic!("expected the page buttons, got {:?}", other),
    }
}

fn target_menu(ui: &Ui) -> &SelectMenu {
    match &ui.rows[2] {
        Row::Select(menu) => menu,
        other => panic!("expected the target menu, got {:?}", other),
    }
}

#[test]
fn caption_counts_pages_from_one() {
    let en = user(DbLanguage::En);
    assert_eq!(
        interaction_response_content(30, None, &en),
        "Select an emote and optionally a target (1/2)"
    );
    assert_eq!(
        interaction_response_content(30, Some(25), &en),
        "Select an emote and optionally a target (2/2)"
    );
    assert_eq!(
        interaction_response_content(25, None, &en),
        "Select an emote and optionally a target (1/1)"
    );
    assert_eq!(
        interaction_response_content(251, Some(225), &en),
        "Select an emote and optionally a target (10/11)"
    );
    assert_eq!(
        interaction_response_content(30, Some(25), &user(DbLanguage::Ja)),
        "エモートを選択してターゲットを任意選択して送信 (2/2)"
    );
}

#[test]
fn initial_prompt_of_thirty_items() {
    let items = catalog(30);
    let session = started(30);
    let ui = create_response(&user(DbLanguage::En), &items, &session, &candidates());
    let expected = Ui {
        content: "Select an emote and optionally a target (1/2)".to_string(),
        rows: vec![
            Row::Select(SelectMenu {
                id: "item_select",
                placeholder: Some("No emote selected".to_string()),
                options: items[0..25]
                    .iter()
                    .map(|item| SelectOption {
                        label: item.clone(),
                        value: item.clone(),
                        selected: false,
                    })
                    .collect(),
            }),
            Row::Buttons(vec![
                Button { id: "item_prev", label: "Previous emote page".to_string(), disabled: true },
                Button { id: "item_next", label: "Next emote page".to_string(), disabled: false },
            ]),
            Row::Select(SelectMenu {
                id: "target_select",
                placeholder: Some("no target selected".to_string()),
                options: vec![
                    SelectOption {
                        label: "Alphinaud".to_string(),
                        value: "7".to_string(),
                        selected: false,
                    },
                    SelectOption {
                        label: "Alisaie".to_string(),
                        value: "42".to_string(),
                        selected: false,
                    },
                ],
            }),
            Row::Buttons(vec![Button {
                id: "target_input_open",
                label: "Input custom target".to_string(),
                disabled: false,
            }]),
            Row::Buttons(vec![Button { id: "submit", label: "Send".to_string(), disabled: false }]),
        ],
    };
    assert_eq!(ui, expected);
}

#[test]
fn thirty_items_next_page_then_back() {
    let items = catalog(30);
    let en = user(DbLanguage::En);
    let mut session = started(30);
    let first = create_response(&en, &items, &session, &candidates());

    assert_eq!(session.handle_event(Event::PageNext, 1001, &candidates()), Action::Rerender);
    let second = create_response(&en, &items, &session, &candidates());
    assert_eq!(second.content, "Select an emote and optionally a target (2/2)");
    let shown: Vec<&String> = item_menu(&second).options.iter().map(|o| &o.value).collect();
    assert_eq!(shown, items[25..30].iter().collect::<Vec<_>>());
    assert!(!page_buttons(&second)[0].disabled);
    assert!(page_buttons(&second)[1].disabled);

    assert_eq!(session.handle_event(Event::PagePrev, 1002, &candidates()), Action::Rerender);
    let back = create_response(&en, &items, &session, &candidates());
    assert_eq!(back, first);
}

#[test]
fn short_catalog_has_no_page_to_turn_to() {
    let items = catalog(3);
    let session = started(3);
    let ui = create_response(&user(DbLanguage::En), &items, &session, &[]);
    assert_eq!(ui.content, "Select an emote and optionally a target (1/1)");
    assert_eq!(item_menu(&ui).options.len(), 3);
    assert!(page_buttons(&ui)[0].disabled);
    assert!(page_buttons(&ui)[1].disabled);
    assert!(target_menu(&ui).options.is_empty());
}

#[test]
fn selected_item_is_marked() {
    let items = catalog(30);
    let mut session = started(30);
    session.handle_event(Event::ItemSelected("/emote3".to_string()), 1001, &candidates());
    let ui = create_response(&user(DbLanguage::En), &items, &session, &candidates());
    let marked: Vec<&String> =
        item_menu(&ui).options.iter().filter(|o| o.selected).map(|o| &o.value).collect();
    assert_eq!(marked, vec![&"/emote3".to_string()]);
    session.handle_event(Event::PageNext, 1002, &candidates());
    let ui = create_response(&user(DbLanguage::En), &items, &session, &candidates());
    assert!(item_menu(&ui).options.iter().all(|o| !o.selected));
}

#[test]
fn selected_member_is_marked() {
    let items = catalog(30);
    let mut session = started(30);
    session.handle_event(Event::TargetMemberSelected(UserId(42)), 1001, &candidates());
    let ui = create_response(&user(DbLanguage::En), &items, &session, &candidates());
    let menu = target_menu(&ui);
    assert_eq!(menu.placeholder, Some("no target selected".to_string()));
    assert!(!menu.options[0].selected);
    assert!(menu.options[1].selected);
}

#[test]
fn member_after_typed_target_hides_the_text() {
    let items = catalog(30);
    let mut session = started(30);
    session.handle_event(Event::OpenTargetInputDialog, 1001, &candidates());
    session.dialog_response(Some("the void".to_string()));
    session.handle_event(Event::TargetMemberSelected(UserId(42)), 1002, &candidates());
    let ui = create_response(&user(DbLanguage::En), &items, &session, &candidates());
    let menu = target_menu(&ui);
    assert_eq!(menu.placeholder, Some("no target selected".to_string()));
    let marked: Vec<&String> =
        menu.options.iter().filter(|o| o.selected).map(|o| &o.value).collect();
    assert_eq!(marked, vec![&"42".to_string()]);
}

#[test]
fn reported_parts_are_handled_as_their_events() {
    let items = catalog(30);
    let mut session = started(30);
    assert_eq!(
        handle_interaction(&mut session, "item_select", Some("/emote3"), 1001, &candidates()),
        Action::Rerender
    );
    assert_eq!(session.selected_item(), Some(&"/emote3".to_string()));
    assert_eq!(
        handle_interaction(&mut session, "item_next", None, 1002, &candidates()),
        Action::Rerender
    );
    assert_eq!(session.page_offset(), Some(25));
    assert_eq!(
        handle_interaction(&mut session, "target_select", Some("42"), 1003, &candidates()),
        Action::Rerender
    );
    assert_eq!(session.selected_target().and_then(|t| t.user_id()), Some(UserId(42)));
    assert_eq!(
        handle_interaction(&mut session, "no_such_part", None, 1004, &candidates()),
        Action::Rerender
    );
    assert_eq!(session.events_consumed(), 4);
    let ui = create_response(&user(DbLanguage::En), &items, &session, &candidates());
    assert_eq!(item_menu(&ui).options.len(), 5);
    match handle_interaction(&mut session, "submit", None, 1005, &candidates()) {
        Action::Finish(submission) => assert_eq!(submission.item, "/emote3"),
        other => panic!("not finished: {other:?}"),
    }
}

#[test]
fn typed_target_is_the_placeholder() {
    let items = catalog(30);
    let mut session = started(30);
    session.handle_event(Event::TargetMemberSelected(UserId(42)), 1001, &candidates());
    session.handle_event(Event::OpenTargetInputDialog, 1002, &candidates());
    session.dialog_response(Some("the void".to_string()));
    let ui = create_response(&user(DbLanguage::Ja), &items, &session, &candidates());
    let menu = target_menu(&ui);
    assert_eq!(menu.placeholder, Some("the void".to_string()));
    assert!(menu.options.iter().all(|o| !o.selected));
    assert_eq!(page_buttons(&ui)[0].label, "前のエモートページへ");
    assert_eq!(page_buttons(&ui)[1].label, "次のエモートページへ");
    assert_eq!(item_menu(&ui).placeholder, Some("エモート未選択".to_string()));
}

#[test]
fn submit_without_item_leaves_the_prompt_as_it_was() {
    let items = catalog(30);
    let en = user(DbLanguage::En);
    let mut session = started(30);
    let before = create_response(&en, &items, &session, &candidates());
    assert_eq!(session.handle_event(Event::Submit, 1001, &candidates()), Action::Rerender);
    let after = create_response(&en, &items, &session, &candidates());
    assert_eq!(before, after);
}

#[test]
fn same_state_renders_the_same_prompt() {
    let items = catalog(60);
    let en = user(DbLanguage::En);
    let mut one = started(60);
    let mut two = started(60);
    for session in [&mut one, &mut two] {
        session.handle_event(Event::PageNext, 1001, &candidates());
        session.handle_event(Event::ItemSelected("/emote30".to_string()), 1002, &candidates());
        session.handle_event(Event::TargetMemberSelected(UserId(7)), 1003, &candidates());
    }
    assert_eq!(
        create_response(&en, &items, &one, &candidates()),
        create_response(&en, &items, &two, &candidates())
    );
}

#[test]
fn what_the_menus_report_decodes_to_the_choice() {
    let items = catalog(30);
    let session = started(30);
    let ui = create_response(&user(DbLanguage::En), &items, &session, &candidates());
    let item = item_menu(&ui);
    assert_eq!(
        decode_event(item.id, Some(&item.options[4].value)),
        Event::ItemSelected("/emote4".to_string())
    );
    let target = target_menu(&ui);
    assert_eq!(
        decode_event(target.id, Some(&target.options[1].value)),
        Event::TargetMemberSelected(UserId(42))
    );
    assert_eq!(decode_event(page_buttons(&ui)[0].id, None), Event::PagePrev);
    assert_eq!(decode_event(page_buttons(&ui)[1].id, None), Event::PageNext);
}

#[test]
fn confirmation_names_item_and_target() {
    let en = user(DbLanguage::En);
    let plain = Submission { item: "/wave".to_string(), target: None };
    assert_eq!(confirmation_content(&en, &plain), "Emote sent! (/wave)");
    let member = Submission {
        item: "/wave".to_string(),
        target: Some(Target::Member { id: UserId(42), display_name: "Alisaie".to_string() }),
    };
    assert_eq!(confirmation_content(&en, &member), "Emote sent! (/wave <@42>)");
    let text = Submission {
        item: "/wave".to_string(),
        target: Some(Target::FreeText("the void".to_string())),
    };
    assert_eq!(confirmation_content(&user(DbLanguage::Ja), &text), "送信しました！ (/wave the void)");
    assert_eq!(
        confirmation(&en, &text),
        Ui { content: "Emote sent! (/wave the void)".to_string(), rows: vec![] }
    );
}

#[test]
fn target_dialog_asks_for_a_name() {
    assert_eq!(
        target_dialog(&user(DbLanguage::En)),
        DialogSpec {
            id: "input_target_modal",
            title: "Custom emote target".to_string(),
            content: "Input target name".to_string(),
            field_id: "target_input_field",
            field_label: "Target name".to_string(),
            max_length: None,
        }
    );
    assert_eq!(target_dialog(&user(DbLanguage::Ja)).title, "エモートのターゲット指定");
}

#[test]
fn emote_select_command_name() {
    assert_eq!(EmoteSelectCmd::name().en, "emote-select");
    assert_eq!(EmoteSelectCmd::name().ja, "エモート選択");
}
