use discord_xiv_emotes::commands::global::user_settings;
use discord_xiv_emotes::commands::guild::server_settings;
use discord_xiv_emotes::commands::settings::{
    create_gender_menu, create_language_menu, read_gender, read_language, Ids, SettingsAction,
};
use discord_xiv_emotes::db::models::{DbGender, DbGuild, DbLanguage, DbUser};
use discord_xiv_emotes::handler::HandlerError;
use discord_xiv_emotes::text::parse_i32;
use discord_xiv_emotes::ui::{Button, DialogSpec, Row, SelectMenu, SelectOption, Ui};

fn user(language: DbLanguage, gender: DbGender) -> DbUser {
    DbUser { discord_id: "7".to_string(), language, gender }
}

fn guild() -> DbGuild {
    DbGuild {
        discord_id: "100".to_string(),
        language: DbLanguage::Ja,
        gender: DbGender::F,
        prefix: "!".to_string(),
    }
}

fn entry(label: &str, value: &str, selected: bool) -> SelectOption {
    SelectOption { label: label.to_string(), value: value.to_string(), selected }
}

#[test]
fn parse_i32_reads_what_std_reads() {
    let cases = [
        "", "0", "1", "-0", "+1", "-1", "+", "-", "01", "2147483647", "2147483648", "-2147483648",
        "-2147483649", "99999999999999999999999", "-99999999999999999999999", " 1", "1 ", "１",
        "abc", "--1", "+-1", "1.0",
    ];
    for case in cases {
        assert_eq!(parse_i32(case), case.parse::<i32>().ok(), "{:?}", case);
    }
}

#[test]
fn ids_are_found_by_their_identifier() {
    assert_eq!(Ids::GenderSelect.as_str(), "gender_select");
    assert_eq!(Ids::LanguageSelect.as_str(), "language_select");
    assert_eq!(Ids::PrefixInputBtn.as_str(), "prefix_input_btn");
    assert_eq!(Ids::Submit.as_str(), "submit");
    for id in [Ids::GenderSelect, Ids::LanguageSelect, Ids::PrefixInputBtn, Ids::Submit] {
        assert_eq!(Ids::try_from(id.as_str()), Some(id));
    }
    assert_eq!(Ids::try_from("item_select"), None);
}

#[test]
fn choices_are_read_from_numbers() {
    assert_eq!(read_gender(Some("0")), Some(DbGender::M));
    assert_eq!(read_gender(Some("1")), Some(DbGender::F));
    assert_eq!(read_gender(Some("+1")), Some(DbGender::F));
    assert_eq!(read_gender(Some("-0")), Some(DbGender::M));
    assert_eq!(read_gender(Some("2")), None);
    assert_eq!(read_gender(Some("-1")), None);
    assert_eq!(read_gender(Some("F")), None);
    assert_eq!(read_gender(Some("")), None);
    assert_eq!(read_gender(None), None);
    assert_eq!(read_language(Some("0")), Some(DbLanguage::En));
    assert_eq!(read_language(Some("1")), Some(DbLanguage::Ja));
    assert_eq!(read_language(Some("2")), None);
    assert_eq!(read_language(None), None);
}

#[test]
fn menus_show_every_choice() {
    let en = user(DbLanguage::En, DbGender::F);
    assert_eq!(
        create_gender_menu(&en, DbGender::F),
        SelectMenu {
            id: "gender_select",
            placeholder: None,
            options: vec![entry("Male", "0", false), entry("Female", "1", true)],
        }
    );
    let ja = user(DbLanguage::Ja, DbGender::M);
    assert_eq!(
        create_language_menu(&ja, DbLanguage::En),
        SelectMenu {
            id: "language_select",
            placeholder: None,
            options: vec![entry("英語", "0", true), entry("日本語", "1", false)],
        }
    );
}

#[test]
fn what_the_menus_report_is_read_back() {
    let en = user(DbLanguage::En, DbGender::M);
    for (i, option) in create_gender_menu(&en, DbGender::M).options.iter().enumerate() {
        assert_eq!(read_gender(Some(&option.value)), Some(DbGender::all()[i]));
    }
    for (i, option) in create_language_menu(&en, DbLanguage::En).options.iter().enumerate() {
        assert_eq!(read_language(Some(&option.value)), Some(DbLanguage::all()[i]));
    }
}

#[test]
fn user_settings_events() {
    let mut settings = user(DbLanguage::En, DbGender::M);
    let step = user_settings::handle_interaction("gender_select", Some("1"), &mut settings);
    assert_eq!(step, Ok(SettingsAction::Rerender));
    assert_eq!(settings, user(DbLanguage::En, DbGender::F));
    let step = user_settings::handle_interaction("language_select", Some("1"), &mut settings);
    assert_eq!(step, Ok(SettingsAction::Rerender));
    assert_eq!(settings, user(DbLanguage::Ja, DbGender::F));
    let step = user_settings::handle_interaction("unknown", Some("0"), &mut settings);
    assert_eq!(step, Ok(SettingsAction::Rerender));
    let step = user_settings::handle_interaction("prefix_input_btn", None, &mut settings);
    assert_eq!(step, Ok(SettingsAction::Rerender));
    assert_eq!(settings, user(DbLanguage::Ja, DbGender::F));
    let step = user_settings::handle_interaction("submit", None, &mut settings);
    assert_eq!(step, Ok(SettingsAction::Save));
    assert_eq!(settings, user(DbLanguage::Ja, DbGender::F));
}

#[test]
fn user_settings_refuse_values_that_are_no_choice() {
    let mut settings = user(DbLanguage::En, DbGender::M);
    for value in [Some("2"), Some("male"), Some(""), None] {
        assert_eq!(
            user_settings::handle_interaction("gender_select", value, &mut settings),
            Err(HandlerError::UnexpectedData)
        );
        assert_eq!(
            user_settings::handle_interaction("language_select", value, &mut settings),
            Err(HandlerError::UnexpectedData)
        );
    }
    assert_eq!(settings, user(DbLanguage::En, DbGender::M));
}

#[test]
fn user_settings_prompt() {
    let settings = user(DbLanguage::En, DbGender::F);
    assert_eq!(
        user_settings::create_response(&settings),
        Ui {
            content: "Emote message settings".to_string(),
            rows: vec![
                Row::Select(SelectMenu {
                    id: "gender_select",
                    placeholder: None,
                    options: vec![entry("Male", "0", false), entry("Female", "1", true)],
                }),
                Row::Select(SelectMenu {
                    id: "language_select",
                    placeholder: None,
                    options: vec![entry("English", "0", true), entry("Japanese", "1", false)],
                }),
                Row::Buttons(vec![Button { id: "submit", label: "Save".to_string(), disabled: false }]),
            ],
        }
    );
    assert_eq!(
        user_settings::saved_response(&user(DbLanguage::Ja, DbGender::M)),
        Ui { content: "設定を保存しました！".to_string(), rows: vec![] }
    );
}

#[test]
fn server_settings_events() {
    let mut settings = guild();
    let step = server_settings::handle_interaction("gender_select", Some("0"), &mut settings);
    assert_eq!(step, Ok(SettingsAction::Rerender));
    assert_eq!(settings.gender, DbGender::M);
    let step = server_settings::handle_interaction("language_select", Some("0"), &mut settings);
    assert_eq!(step, Ok(SettingsAction::Rerender));
    assert_eq!(settings.language, DbLanguage::En);
    let step = server_settings::handle_interaction("prefix_input_btn", None, &mut settings);
    assert_eq!(step, Ok(SettingsAction::OpenPrefixDialog));
    let step = server_settings::handle_interaction("submit", None, &mut settings);
    assert_eq!(step, Ok(SettingsAction::Save));
    let step = server_settings::handle_interaction("unknown", None, &mut settings);
    assert_eq!(step, Ok(SettingsAction::Rerender));
    let step = server_settings::handle_interaction("language_select", Some("9"), &mut settings);
    assert_eq!(step, Err(HandlerError::UnexpectedData));
    assert_eq!(
        settings,
        DbGuild { gender: DbGender::M, language: DbLanguage::En, ..guild() }
    );
}

#[test]
fn prefix_dialog_sets_the_prefix() {
    let mut settings = guild();
    assert_eq!(server_settings::prefix_submitted(&mut settings, Some("?".to_string())), Ok(()));
    assert_eq!(settings, DbGuild { prefix: "?".to_string(), ..guild() });
    assert_eq!(
        server_settings::prefix_submitted(&mut settings, None),
        Err(HandlerError::UnexpectedData)
    );
    assert_eq!(settings.prefix, "?");
}

#[test]
fn server_settings_prompt() {
    let viewer = user(DbLanguage::En, DbGender::M);
    assert_eq!(
        server_settings::create_response(&viewer, &guild()),
        Ui {
            content: "Server-wide emote message settings".to_string(),
            rows: vec![
                Row::Select(SelectMenu {
                    id: "gender_select",
                    placeholder: None,
                    options: vec![entry("Male", "0", false), entry("Female", "1", true)],
                }),
                Row::Select(SelectMenu {
                    id: "language_select",
                    placeholder: None,
                    options: vec![entry("English", "0", false), entry("Japanese", "1", true)],
                }),
                Row::Buttons(vec![Button {
                    id: "prefix_input_btn",
                    label: "Input a command prefix, currently: !".to_string(),
                    disabled: false,
                }]),
                Row::Buttons(vec![Button { id: "submit", label: "Save".to_string(), disabled: false }]),
            ],
        }
    );
    assert_eq!(
        server_settings::prefix_dialog(&viewer),
        DialogSpec {
            id: "prefix_input_modal_btn",
            title: "Server-wide command prefix".to_string(),
            content: "Input a command prefix (up to 5 characters)".to_string(),
            field_id: "prefix_input_modal",
            field_label: "Command prefix".to_string(),
            max_length: Some(5),
        }
    );
    assert_eq!(
        server_settings::saved_response(&viewer),
        Ui { content: "Settings saved!".to_string(), rows: vec![] }
    );
}
