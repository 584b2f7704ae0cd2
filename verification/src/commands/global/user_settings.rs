//! The command by which a user sets a language and a gender.

use vstd::prelude::*;
use vstd::string::*;

use crate::commands::settings::{
    chosen_gender, chosen_language, create_gender_menu, create_language_menu, gender_menu,
    language_menu, read_gender, read_language, value_view, Ids, SettingsAction,
};
use crate::db::models::{DbUser, DbUserView};
use crate::handler::{HandlerError, HandlerErrorView};
use crate::ui::{button, button_row, select_row, ButtonView, RowView, Ui, UiView};
use crate::builder::{CommandView, CreateApplicationCommand};
use crate::util::{chat_command, create_chat_command, LocalizedString};

verus! {

/// The caption of the settings prompt.
#[verifier::allow_in_spec]
pub fn content() -> LocalizedString
    returns
        (LocalizedString { en: "Emote message settings", ja: "エモート設定" }),
{
    LocalizedString { en: "Emote message settings", ja: "エモート設定" }
}

/// The label of the button that saves.
#[verifier::allow_in_spec]
pub fn save_btn() -> LocalizedString
    returns
        (LocalizedString { en: "Save", ja: "保存" }),
{
    LocalizedString { en: "Save", ja: "保存" }
}

/// The confirmation shown once the settings are saved.
#[verifier::allow_in_spec]
pub fn settings_saved() -> LocalizedString
    returns
        (LocalizedString { en: "Settings saved!", ja: "設定を保存しました！" }),
{
    LocalizedString { en: "Settings saved!", ja: "設定を保存しました！" }
}

/// The command's name.
#[verifier::allow_in_spec]
pub fn name() -> LocalizedString
    returns
        (LocalizedString { en: "settings", ja: "設定" }),
{
    LocalizedString { en: "settings", ja: "設定" }
}

/// What the command does.
#[verifier::allow_in_spec]
pub fn desc() -> LocalizedString
    returns
        (LocalizedString { en: "Set personal emote message settings", ja: "個人エモート設定" }),
{
    LocalizedString { en: "Set personal emote message settings", ja: "個人エモート設定" }
}

/// The user settings command.
#[derive(Clone, Copy, Debug)]
pub struct UserSettingsCmd;

impl UserSettingsCmd {
    /// What is registered: a command for the chat input that also works in direct messages.
    pub open spec fn application_command() -> CommandView {
        CommandView { dm_permission: Some(true), ..chat_command(name(), desc()) }
    }

    /// The command as it is registered with the platform.
    pub fn to_application_command() -> (r: CreateApplicationCommand)
        ensures
            r@ == Self::application_command(),
    {
        let mut cmd = create_chat_command(name(), desc());
        cmd.dm_permission(true);
        cmd
    }

    /// The name under which the command is registered.
    #[verifier::allow_in_spec]
    pub fn name() -> LocalizedString
        returns
            name(),
    {
        name()
    }
}

/// The settings and what the caller is to do after an event of the prompt.
///
/// A choice from a menu changes the setting; a value that is missing or
/// stands for no choice is an error. The button that saves ends the prompt.
/// Anything else changes nothing.
pub open spec fn handled(user: DbUserView, id: Seq<char>, value: Option<Seq<char>>) -> Result<
    (DbUserView, SettingsAction),
    HandlerErrorView,
> {
    match Ids::named(id) {
        Some(Ids::GenderSelect) => match chosen_gender(value) {
            Some(gender) => Ok((DbUserView { gender, ..user }, SettingsAction::Rerender)),
            None => Err(HandlerErrorView::UnexpectedData),
        },
        Some(Ids::LanguageSelect) => match chosen_language(value) {
            Some(language) => Ok((DbUserView { language, ..user }, SettingsAction::Rerender)),
            None => Err(HandlerErrorView::UnexpectedData),
        },
        Some(Ids::Submit) => Ok((user, SettingsAction::Save)),
        _ => Ok((user, SettingsAction::Rerender)),
    }
}

/// Takes an event of the prompt: the identifier of the part that reported it
/// and the value that came with it.
pub fn handle_interaction(custom_id: &str, value: Option<&str>, user: &mut DbUser) -> (r: Result<
    SettingsAction,
    HandlerError,
>)
    ensures
        match r {
            Ok(action) => handled(old(user)@, custom_id@, value_view(value)) == Ok::<
                (DbUserView, SettingsAction),
                HandlerErrorView,
            >((final(user)@, action)),
            Err(e) => handled(old(user)@, custom_id@, value_view(value)) == Err::<
                (DbUserView, SettingsAction),
                HandlerErrorView,
            >(e@) && final(user)@ == old(user)@,
        },
{
    match Ids::try_from(custom_id) {
        Some(Ids::GenderSelect) => match read_gender(value) {
            Some(gender) => {
                user.gender = gender;
                Ok(SettingsAction::Rerender)
            },
            None => Err(HandlerError::UnexpectedData),
        },
        Some(Ids::LanguageSelect) => match read_language(value) {
            Some(language) => {
                user.language = language;
                Ok(SettingsAction::Rerender)
            },
            None => Err(HandlerError::UnexpectedData),
        },
        Some(Ids::Submit) => Ok(SettingsAction::Save),
        _ => Ok(SettingsAction::Rerender),
    }
}

/// The prompt that shows the settings of `user`: the menu of genders, the
/// menu of languages and the button that saves, in the user's language.
pub open spec fn prompt(user: DbUserView) -> UiView {
    UiView {
        content: content().in_language(user.language),
        rows: seq![
            RowView::Select(gender_menu(user.language, user.gender)),
            RowView::Select(language_menu(user.language, user.language)),
            RowView::Buttons(
                seq![
                    ButtonView {
                        id: Ids::Submit.as_str()@,
                        label: save_btn().in_language(user.language),
                        disabled: false,
                    },
                ],
            ),
        ],
    }
}

/// Renders the prompt for the settings of `user`.
pub fn create_response(user: &DbUser) -> (r: Ui)
    ensures
        r@ == prompt(user@),
{
    let mut rows = Vec::new();
    rows.push(select_row(create_gender_menu(user, user.gender)));
    rows.push(select_row(create_language_menu(user, user.language)));
    rows.push(button_row(button(Ids::Submit.as_str(), save_btn().for_user(user), false)));
    let ui = Ui { content: String::from_str(content().for_user(user)), rows };
    assert(ui@.rows =~= prompt(user@).rows);
    ui
}

/// The final prompt once the settings are saved: the confirmation, with
/// nothing left to press.
pub fn saved_response(user: &DbUser) -> (r: Ui)
    ensures
        r@ == (UiView { content: settings_saved().in_language(user.language), rows: Seq::empty() }),
{
    let ui = Ui { content: String::from_str(settings_saved().for_user(user)), rows: Vec::new() };
    assert(ui@.rows =~= Seq::empty());
    ui
}

} // verus!
