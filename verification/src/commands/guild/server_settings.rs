//! The command by which a guild sets its language, gender and command prefix.

use vstd::prelude::*;
use vstd::string::*;

use crate::commands::settings::{
    chosen_gender, chosen_language, create_gender_menu, create_language_menu, gender_menu,
    language_menu, read_gender, read_language, value_view, Ids, SettingsAction,
};
use crate::db::models::{DbGuild, DbGuildView, DbUser, DbUserView};
use crate::handler::{HandlerError, HandlerErrorView};
use crate::ui::{
    button, button_row, select_row, ButtonView, DialogSpec, DialogSpecView, RowView, Ui, UiView,
};
use crate::builder::{CommandView, CreateApplicationCommand};
use crate::util::{chat_command, create_chat_command, LocalizedString};

verus! {

/// The caption of the settings prompt.
#[verifier::allow_in_spec]
pub fn content() -> LocalizedString
    returns
        (LocalizedString { en: "Server-wide emote message settings", ja: "サーバーのエモート設定" }),
{
    LocalizedString { en: "Server-wide emote message settings", ja: "サーバーのエモート設定" }
}

/// The label of the button that opens the prefix dialog; the current prefix follows it.
#[verifier::allow_in_spec]
pub fn prefix_input_btn() -> LocalizedString
    returns
        (LocalizedString { en: "Input a command prefix, currently: ", ja: "コマンドプレフィックスを入力、現在：" }),
{
    LocalizedString { en: "Input a command prefix, currently: ", ja: "コマンドプレフィックスを入力、現在：" }
}

/// The text of the prefix dialog.
#[verifier::allow_in_spec]
pub fn prefix_input_modal_content() -> LocalizedString
    returns
        (LocalizedString {
            en: "Input a command prefix (up to 5 characters)",
            ja: "コマンドプレフィックスを入力してください（5文字まで）",
        }),
{
    LocalizedString {
        en: "Input a command prefix (up to 5 characters)",
        ja: "コマンドプレフィックスを入力してください（5文字まで）",
    }
}

/// The label of the prefix dialog's field.
#[verifier::allow_in_spec]
pub fn prefix_input_modal_input() -> LocalizedString
    returns
        (LocalizedString { en: "Command prefix", ja: "コマンドプレフィックス" }),
{
    LocalizedString { en: "Command prefix", ja: "コマンドプレフィックス" }
}

/// The title of the prefix dialog.
#[verifier::allow_in_spec]
pub fn prefix_input_modal_title() -> LocalizedString
    returns
        (LocalizedString { en: "Server-wide command prefix", ja: "サーバーのコマンドプレフィックス" }),
{
    LocalizedString { en: "Server-wide command prefix", ja: "サーバーのコマンドプレフィックス" }
}

/// The label of the button that saves.
#[verifier::allow_in_spec]
pub fn save_btn() -> LocalizedString
    returns
        (LocalizedString { en: "Save", ja: "保存" }),
{
    LocalizedString { en: "Save", ja: "保存" }
}

/// The confirmation shown once the settings are saved.
#[verifier::allow_in_spec]
pub fn settings_saved() -> LocalizedString
    returns
        (LocalizedString { en: "Settings saved!", ja: "設定を保存しました！" }),
{
    LocalizedString { en: "Settings saved!", ja: "設定を保存しました！" }
}

/// The command's name.
#[verifier::allow_in_spec]
pub fn name() -> LocalizedString
    returns
        (LocalizedString { en: "server-settings", ja: "サーバー設定" }),
{
    LocalizedString { en: "server-settings", ja: "サーバー設定" }
}

/// What the command does.
#[verifier::allow_in_spec]
pub fn desc() -> LocalizedString
    returns
        (LocalizedString {
            en: "Set the default emote message settings used for this server",
            ja: "このサーバーのデフォルトのエモート設定",
        }),
{
    LocalizedString {
        en: "Set the default emote message settings used for this server",
        ja: "このサーバーのデフォルトのエモート設定",
    }
}

/// The server settings command.
#[derive(Clone, Copy, Debug)]
pub struct ServerSettingsCmd;

impl ServerSettingsCmd {
    /// What is registered: a command for the chat input, for members who may manage channels.
    pub open spec fn application_command() -> CommandView {
        CommandView {
            default_member_permissions: Some(MANAGE_CHANNELS),
            ..chat_command(name(), desc())
        }
    }

    /// The command as it is registered with the platform.
    pub fn to_application_command() -> (r: CreateApplicationCommand)
        ensures
            r@ == Self::application_command(),
    {
        let mut cmd = create_chat_command(name(), desc());
        cmd.default_member_permissions(manage_channels());
        cmd
    }

    /// The name under which the command is registered.
    #[verifier::allow_in_spec]
    pub fn name() -> LocalizedString
        returns
            name(),
    {
        name()
    }
}

/// The identifier of the text field of the prefix dialog.
#[verifier::allow_in_spec]
pub fn prefix_input_modal() -> &'static str
    returns
        "prefix_input_modal",
{
    "prefix_input_modal"
}

/// The identifier of the prefix dialog.
#[verifier::allow_in_spec]
pub fn prefix_input_modal_btn() -> &'static str
    returns
        "prefix_input_modal_btn",
{
    "prefix_input_modal_btn"
}

/// The longest prefix that the dialog takes.
pub const PREFIX_MAX_LENGTH: u64 = 5;

/// The settings and what the caller is to do after an event of the prompt.
///
/// A choice from a menu changes the setting; a value that is missing or
/// stands for no choice is an error. The prefix button opens the dialog and
/// the button that saves ends the prompt. Anything else changes nothing.
pub open spec fn handled(guild: DbGuildView, id: Seq<char>, value: Option<Seq<char>>) -> Result<
    (DbGuildView, SettingsAction),
    HandlerErrorView,
> {
    match Ids::named(id) {
        Some(Ids::GenderSelect) => match chosen_gender(value) {
            Some(gender) => Ok((DbGuildView { gender, ..guild }, SettingsAction::Rerender)),
            None => Err(HandlerErrorView::UnexpectedData),
        },
        Some(Ids::LanguageSelect) => match chosen_language(value) {
            Some(language) => Ok((DbGuildView { language, ..guild }, SettingsAction::Rerender)),
            None => Err(HandlerErrorView::UnexpectedData),
        },
        Some(Ids::PrefixInputBtn) => Ok((guild, SettingsAction::OpenPrefixDialog)),
        Some(Ids::Submit) => Ok((guild, SettingsAction::Save)),
        None => Ok((guild, SettingsAction::Rerender)),
    }
}

/// Takes an event of the prompt: the identifier of the part that reported it
/// and the value that came with it.
pub fn handle_interaction(custom_id: &str, value: Option<&str>, guild: &mut DbGuild) -> (r: Result<
    SettingsAction,
    HandlerError,
>)
    ensures
        match r {
            Ok(action) => handled(old(guild)@, custom_id@, value_view(value)) == Ok::<
                (DbGuildView, SettingsAction),
                HandlerErrorView,
            >((final(guild)@, action)),
            Err(e) => handled(old(guild)@, custom_id@, value_view(value)) == Err::<
                (DbGuildView, SettingsAction),
                HandlerErrorView,
            >(e@) && final(guild)@ == old(guild)@,
        },
{
    match Ids::try_from(custom_id) {
        Some(Ids::GenderSelect) => match read_gender(value) {
            Some(gender) => {
                guild.gender = gender;
                Ok(SettingsAction::Rerender)
            },
            None => Err(HandlerError::UnexpectedData),
        },
        Some(Ids::LanguageSelect) => match read_language(value) {
            Some(language) => {
                guild.language = language;
                Ok(SettingsAction::Rerender)
            },
            None => Err(HandlerError::UnexpectedData),
        },
        Some(Ids::PrefixInputBtn) => Ok(SettingsAction::OpenPrefixDialog),
        Some(Ids::Submit) => Ok(SettingsAction::Save),
        None => Ok(SettingsAction::Rerender),
    }
}

/// Takes the answer of the prefix dialog: the text of its field, or nothing
/// where the dialog came back without a text field. The text becomes the
/// prefix; a dialog without a text field is an error.
pub fn prefix_submitted(guild: &mut DbGuild, text: Option<String>) -> (r: Result<(), HandlerError>)
    ensures
        match text {
            Some(t) => r is Ok && final(guild)@ == (DbGuildView { prefix: t@, ..old(guild)@ }),
            None => r matches Err(e) && e@ == HandlerErrorView::UnexpectedData && final(guild)@
                == old(guild)@,
        },
{
    match text {
        Some(t) => {
            guild.prefix = t;
            Ok(())
        },
        None => Err(HandlerError::UnexpectedData),
    }
}

/// The prompt that shows the settings of `guild` to `user`: the menu of
/// genders, the menu of languages, the button that opens the prefix dialog,
/// which shows the prefix as it is, and the button that saves.
pub open spec fn prompt(user: DbUserView, guild: DbGuildView) -> UiView {
    UiView {
        content: content().in_language(user.language),
        rows: seq![
            RowView::Select(gender_menu(user.language, guild.gender)),
            RowView::Select(language_menu(user.language, guild.language)),
            RowView::Buttons(
                seq![
                    ButtonView {
                        id: Ids::PrefixInputBtn.as_str()@,
                        label: prefix_input_btn().in_language(user.language) + guild.prefix,
                        disabled: false,
                    },
                ],
            ),
            RowView::Buttons(
                seq![
                    ButtonView {
                        id: Ids::Submit.as_str()@,
                        label: save_btn().in_language(user.language),
                        disabled: false,
                    },
                ],
            ),
        ],
    }
}

/// Renders the prompt for the settings of `db_guild` in the language of
/// `user`.
pub fn create_response(user: &DbUser, db_guild: &DbGuild) -> (r: Ui)
    ensures
        r@ == prompt(user@, db_guild@),
{
    let mut label = String::from_str(prefix_input_btn().for_user(user));
    label.append(db_guild.prefix.as_str());
    let mut rows = Vec::new();
    rows.push(select_row(create_gender_menu(user, db_guild.gender)));
    rows.push(select_row(create_language_menu(user, db_guild.language)));
    rows.push(button_row(button(Ids::PrefixInputBtn.as_str(), label.as_str(), false)));
    rows.push(button_row(button(Ids::Submit.as_str(), save_btn().for_user(user), false)));
    let ui = Ui { content: String::from_str(content().for_user(user)), rows };
    assert(ui@.rows =~= prompt(user@, db_guild@).rows);
    ui
}

/// The dialog that asks for the command prefix.
pub open spec fn prefix_dialog_view(user: DbUserView) -> DialogSpecView {
    DialogSpecView {
        id: prefix_input_modal_btn()@,
        title: prefix_input_modal_title().in_language(user.language),
        content: prefix_input_modal_content().in_language(user.language),
        field_id: prefix_input_modal()@,
        field_label: prefix_input_modal_input().in_language(user.language),
        max_length: Some(PREFIX_MAX_LENGTH),
    }
}

/// The dialog that asks for the command prefix, in the language of `user`.
pub fn prefix_dialog(user: &DbUser) -> (r: DialogSpec)
    ensures
        r@ == prefix_dialog_view(user@),
{
    DialogSpec {
        id: prefix_input_modal_btn(),
        title: String::from_str(prefix_input_modal_title().for_user(user)),
        content: String::from_str(prefix_input_modal_content().for_user(user)),
        field_id: prefix_input_modal(),
        field_label: String::from_str(prefix_input_modal_input().for_user(user)),
        max_length: Some(PREFIX_MAX_LENGTH),
    }
}

/// The final prompt once the settings are saved: the confirmation, with
/// nothing left to press.
pub fn saved_response(user: &DbUser) -> (r: Ui)
    ensures
        r@ == (UiView { content: settings_saved().in_language(user.language), rows: Seq::empty() }),
{
    let ui = Ui { content: String::from_str(settings_saved().for_user(user)), rows: Vec::new() };
    assert(ui@.rows =~= Seq::empty());
    ui
}

/// The bit that stands for the permission to manage channels.
pub const MANAGE_CHANNELS: u64 = 16;

/// The permission to manage channels, as bits.
///
/// Reads the bits of serenity's `Permissions::MANAGE_CHANNELS`, which its
/// source gives as `1 << 4`.
#[verifier::external_body]
fn manage_channels() -> (r: u64)
    ensures
        r == MANAGE_CHANNELS,
{
    serenity::model::Permissions::MANAGE_CHANNELS.bits()
}

} // verus!
