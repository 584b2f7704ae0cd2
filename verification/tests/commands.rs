use std::collections::HashMap;

use discord_xiv_emotes::builder::{
    CommandOptionType, CommandType, CreateApplicationCommand, CreateApplicationCommandOption,
    Localization,
};
use discord_xiv_emotes::commands::global::emote::{
    requested_emote, requested_target, sent_content, to_emote_command, EmoteCmd,
};
use discord_xiv_emotes::commands::global::emote_select::EmoteSelectCmd;
use discord_xiv_emotes::commands::global::list_emotes::ListEmotesCmd;
use discord_xiv_emotes::commands::global::stats::GlobalStatsCmd;
use discord_xiv_emotes::commands::global::user_settings::UserSettingsCmd;
use discord_xiv_emotes::commands::global::{GlobalCommands, InvalidGlobalCommand};
use discord_xiv_emotes::commands::guild::server_settings::ServerSettingsCmd;
use discord_xiv_emotes::commands::guild::stats::GuildStatsCmd;
use discord_xiv_emotes::commands::guild::{GuildCommands, InvalidGuildCommand};
use discord_xiv_emotes::db::models::{DbGender, DbLanguage, DbUser};
use discord_xiv_emotes::handler::commands::{
    save_command_ids, try_handle_commands, AppCommand, RegisteredCommand,
};
use discord_xiv_emotes::handler::HandlerError;
use discord_xiv_emotes::id::CommandId;
use discord_xiv_emotes::interaction::{CommandDataOption, CommandDataOptionValue};
use discord_xiv_emotes::util::{
    CreateApplicationCommandExt, CreateApplicationCommandOptionExt, LocalizedString,
};

fn localized(en: &str, ja: &str) -> Vec<Localization> {
    vec![
        Localization { locale: "en-US".to_string(), text: en.to_string() },
        Localization { locale: "ja".to_string(), text: ja.to_string() },
    ]
}

fn option(
    kind: CommandOptionType,
    name: (&str, &str),
    desc: (&str, &str),
    required: bool,
    options: Vec<CreateApplicationCommandOption>,
) -> CreateApplicationCommandOption {
    CreateApplicationCommandOption {
        kind: Some(kind),
        name: Some(name.0.to_string()),
        name_localizations: localized(name.0, name.1),
        description: Some(desc.0.to_string()),
        description_localizations: localized(desc.0, desc.1),
        required,
        options,
    }
}

fn command(name: (&str, &str), desc: (&str, &str)) -> CreateApplicationCommand {
    CreateApplicationCommand {
        kind: Some(CommandType::ChatInput),
        name: Some(name.0.to_string()),
        name_localizations: localized(name.0, name.1),
        description: Some(desc.0.to_string()),
        description_localizations: localized(desc.0, desc.1),
        dm_permission: None,
        default_member_permissions: None,
        options: vec![],
    }
}

fn user_option() -> CreateApplicationCommandOption {
    option(
        CommandOptionType::User,
        ("user", "ユーザー"),
        ("User to investigate", "ユーザーの絞り込み"),
        true,
        vec![],
    )
}

fn emote_option() -> CreateApplicationCommandOption {
    option(
        CommandOptionType::String,
        ("emote", "エモート"),
        ("Emote to filter by", "エモートの絞り込み"),
        false,
        vec![],
    )
}

#[test]
fn localized_string_any_eq() {
    let text = LocalizedString { en: "stats", ja: "統計" };
    assert!(text.any_eq("stats"));
    assert!(text.any_eq("統計"));
    assert!(!text.any_eq("stat"));
    assert!(!text.any_eq(""));
}

#[test]
fn localized_string_for_user() {
    let text = LocalizedString { en: "stats", ja: "統計" };
    let en = DbUser { discord_id: String::new(), language: DbLanguage::En, gender: DbGender::M };
    let ja = DbUser { discord_id: String::new(), language: DbLanguage::Ja, gender: DbGender::M };
    assert_eq!(text.for_user(&en), "stats");
    assert_eq!(text.for_user(&ja), "統計");
}

#[test]
fn global_command_names() {
    assert_eq!(GlobalCommands::EmoteSelect.name().en, "emote-select");
    assert_eq!(GlobalCommands::EmoteSelect.name().ja, "エモート選択");
    assert_eq!(GlobalCommands::UserSettings.name().en, "settings");
    assert_eq!(GlobalCommands::UserSettings.name().ja, "設定");
    assert_eq!(GlobalCommands::Emote.name().en, "emote");
    assert_eq!(GlobalCommands::Emote.name().ja, "エモート");
    assert_eq!(GlobalCommands::ListEmotes.name().en, "emotes");
    assert_eq!(GlobalCommands::ListEmotes.name().ja, "エモート一覧");
    assert_eq!(GlobalCommands::Stats.name().en, "stats");
    assert_eq!(GlobalCommands::Stats.name().ja, "統計");
    assert_eq!(EmoteCmd::name().en, "emote");
    assert_eq!(ListEmotesCmd::name().en, "emotes");
    assert_eq!(UserSettingsCmd::name().en, "settings");
    assert_eq!(GlobalStatsCmd::name().en, "stats");
}

#[test]
fn guild_command_names() {
    assert_eq!(GuildCommands::ServerSettings.name().en, "server-settings");
    assert_eq!(GuildCommands::ServerSettings.name().ja, "サーバー設定");
    assert_eq!(GuildCommands::Stats.name().en, "stats");
    assert_eq!(GuildCommands::Stats.name().ja, "統計");
    assert_eq!(ServerSettingsCmd::name().en, "server-settings");
    assert_eq!(GuildStatsCmd::name().ja, "統計");
}

#[test]
fn commands_are_found_by_name_in_either_language() {
    for command in GlobalCommands::all() {
        assert_eq!(GlobalCommands::from_str(command.name().en).ok(), Some(command));
        assert_eq!(GlobalCommands::from_str(command.name().ja).ok(), Some(command));
    }
    for command in GuildCommands::all() {
        assert_eq!(GuildCommands::from_str(command.name().en).ok(), Some(command));
        assert_eq!(GuildCommands::from_str(command.name().ja).ok(), Some(command));
    }
}

#[test]
fn unknown_names_are_handed_back() {
    assert_eq!(
        GlobalCommands::from_str("server-settings"),
        Err(InvalidGlobalCommand("server-settings".to_string()))
    );
    assert_eq!(GlobalCommands::from_str(""), Err(InvalidGlobalCommand(String::new())));
    assert_eq!(GuildCommands::from_str("emote"), Err(InvalidGuildCommand("emote".to_string())));
}

#[test]
fn all_commands_in_order() {
    assert_eq!(
        GlobalCommands::all(),
        vec![
            GlobalCommands::EmoteSelect,
            GlobalCommands::UserSettings,
            GlobalCommands::Emote,
            GlobalCommands::ListEmotes,
            GlobalCommands::Stats,
        ]
    );
    assert_eq!(GuildCommands::all(), vec![GuildCommands::ServerSettings, GuildCommands::Stats]);
}

#[test]
fn localized_name_sets_name_and_locales() {
    let mut cmd = CreateApplicationCommand::default();
    cmd.localized_name(LocalizedString { en: "stats", ja: "統計" });
    assert_eq!(cmd.name, Some("stats".to_string()));
    assert_eq!(cmd.name_localizations, localized("stats", "統計"));
    assert_eq!(cmd.description, None);
    cmd.localized_desc(LocalizedString { en: "Emote usage statistics", ja: "エモート使用統計" });
    assert_eq!(cmd.description, Some("Emote usage statistics".to_string()));
    assert_eq!(cmd.description_localizations, localized("Emote usage statistics", "エモート使用統計"));
    assert_eq!(cmd.name, Some("stats".to_string()));

    let mut opt = CreateApplicationCommandOption::new();
    opt.localized_name(LocalizedString { en: "user", ja: "ユーザー" });
    opt.localized_desc(LocalizedString { en: "User to investigate", ja: "ユーザーの絞り込み" });
    opt.kind(CommandOptionType::User);
    opt.required(true);
    assert_eq!(opt, user_option());
}

#[test]
fn simple_commands_as_registered() {
    let mut expected = command(
        ("emote-select", "エモート選択"),
        (
            "Interactively select and send an emote with an optional target user",
            "エモートを選択してターゲットを任意選択して送信",
        ),
    );
    expected.dm_permission = Some(true);
    assert_eq!(EmoteSelectCmd::to_application_command(), expected);
    assert_eq!(GlobalCommands::EmoteSelect.to_application_command(), expected);

    let mut expected =
        command(("emotes", "エモート一覧"), ("List all available emotes", "選択できるエモートの一覧"));
    expected.dm_permission = Some(true);
    assert_eq!(ListEmotesCmd::to_application_command(), expected);

    let mut expected =
        command(("settings", "設定"), ("Set personal emote message settings", "個人エモート設定"));
    expected.dm_permission = Some(true);
    assert_eq!(UserSettingsCmd::to_application_command(), expected);

    let mut expected = command(
        ("server-settings", "サーバー設定"),
        (
            "Set the default emote message settings used for this server",
            "このサーバーのデフォルトのエモート設定",
        ),
    );
    expected.default_member_permissions = Some(16);
    assert_eq!(ServerSettingsCmd::to_application_command(), expected);
    assert_eq!(GuildCommands::ServerSettings.to_application_command(), expected);
}

#[test]
fn emote_command_as_registered() {
    let mut expected = command(
        ("emote", "エモート"),
        (
            "Send an emote with an optional target user",
            "エモートを選択してターゲットを任意選択して送信",
        ),
    );
    expected.dm_permission = Some(true);
    expected.options = vec![
        option(
            CommandOptionType::String,
            ("emote", "エモート"),
            ("Which emote to send", "エモートの指定"),
            true,
            vec![],
        ),
        option(
            CommandOptionType::String,
            ("target", "ターゲット"),
            (
                "Who to target with the emote (can be a mention)",
                "エモートのターゲット（メンション可）",
            ),
            false,
            vec![],
        ),
    ];
    assert_eq!(EmoteCmd::to_application_command(), expected);
}

#[test]
fn stats_commands_as_registered() {
    let received = ("received", "受信");
    let received_desc =
        ("Message statistics by targets received", "ターゲット受信される側の使用統計");
    let mut expected = command(("stats", "統計"), ("Emote usage statistics", "エモート使用統計"));
    expected.options = vec![
        option(
            CommandOptionType::SubCommand,
            ("user", "ユーザー"),
            ("Global emote usage statistics for a user", "ユーザーの全体使用統計"),
            false,
            vec![user_option(), emote_option()],
        ),
        option(
            CommandOptionType::SubCommandGroup,
            received,
            received_desc,
            false,
            vec![option(
                CommandOptionType::SubCommand,
                ("user", "ユーザー"),
                ("Global emote received usage statistics for a user", "ユーザーの全体使用統計"),
                false,
                vec![user_option(), emote_option()],
            )],
        ),
    ];
    assert_eq!(GlobalStatsCmd::to_application_command(), expected);

    let mut expected = command(("stats", "統計"), ("Emote usage statistics", "エモート使用統計"));
    expected.options = vec![
        option(
            CommandOptionType::SubCommand,
            ("guild", "サーバー"),
            ("Emote usage statistics for the current guild", "サーバーの使用統計"),
            false,
            vec![emote_option()],
        ),
        option(
            CommandOptionType::SubCommand,
            ("guild-user", "サーバーのユーザー"),
            (
                "Emote usage statistics for a user within the current guild",
                "ユーザーのサーバー内の使用統計",
            ),
            false,
            vec![user_option(), emote_option()],
        ),
        option(
            CommandOptionType::SubCommandGroup,
            received,
            received_desc,
            false,
            vec![
                option(
                    CommandOptionType::SubCommand,
                    ("guild", "サーバー"),
                    ("Emote received usage statistics for the current guild", "サーバーの使用統計"),
                    false,
                    vec![emote_option()],
                ),
                option(
                    CommandOptionType::SubCommand,
                    ("guild-user", "サーバーのユーザー"),
                    (
                        "Emote received usage statistics for a user within the current guild",
                        "ユーザーのサーバー内の使用統計",
                    ),
                    false,
                    vec![user_option(), emote_option()],
                ),
            ],
        ),
    ];
    assert_eq!(GuildStatsCmd::to_application_command(), expected);
}

#[test]
fn application_commands_follow_the_order_of_registration() {
    let global = GlobalCommands::application_commands();
    let names: Vec<&str> = global.iter().map(|c| c.name.as_deref().unwrap()).collect();
    assert_eq!(names, vec!["emote-select", "settings", "emote", "emotes", "stats"]);
    let guild = GuildCommands::application_commands();
    let names: Vec<&str> = guild.iter().map(|c| c.name.as_deref().unwrap()).collect();
    assert_eq!(names, vec!["server-settings", "stats"]);
}

fn registered(id: u64, name: &str) -> RegisteredCommand {
    RegisteredCommand { id: CommandId(id), name: name.to_string() }
}

#[test]
fn save_command_ids_reads_names() {
    let map: HashMap<u64, GlobalCommands> = save_command_ids(&[
        registered(10, "emote"),
        registered(11, "統計"),
        registered(12, "emote-select"),
        registered(10, "emotes"),
    ])
    .unwrap();
    let mut expected = HashMap::new();
    expected.insert(10, GlobalCommands::ListEmotes);
    expected.insert(11, GlobalCommands::Stats);
    expected.insert(12, GlobalCommands::EmoteSelect);
    assert_eq!(map, expected);
    let none: HashMap<u64, GuildCommands> = save_command_ids(&[]).unwrap();
    assert!(none.is_empty());
}

#[test]
fn save_command_ids_refuses_unknown_names() {
    let result: Result<HashMap<u64, GuildCommands>, HandlerError> =
        save_command_ids(&[registered(1, "stats"), registered(2, "emote"), registered(3, "stats")]);
    assert_eq!(result, Err(HandlerError::CommandRegisterUnknown));
}

#[test]
fn commands_are_looked_up_global_first() {
    let mut global = HashMap::new();
    global.insert(1, GlobalCommands::Emote);
    global.insert(2, GlobalCommands::Stats);
    let mut guild = HashMap::new();
    guild.insert(2, GuildCommands::Stats);
    guild.insert(3, GuildCommands::ServerSettings);
    let find = |id| try_handle_commands(Some(&global), Some(&guild), CommandId(id), "name");
    assert_eq!(find(1), Ok(AppCommand::Global(GlobalCommands::Emote)));
    assert_eq!(find(2), Ok(AppCommand::Global(GlobalCommands::Stats)));
    assert_eq!(find(3), Ok(AppCommand::Guild(GuildCommands::ServerSettings)));
    assert_eq!(find(4), Err(HandlerError::UnrecognizedCommand("name".to_string())));
}

#[test]
fn missing_registry_is_an_error() {
    let mut global = HashMap::new();
    global.insert(1, GlobalCommands::Emote);
    let guild: HashMap<u64, GuildCommands> = HashMap::new();
    assert_eq!(
        try_handle_commands(None, Some(&guild), CommandId(1), "emote"),
        Err(HandlerError::TypeMapNotFound)
    );
    assert_eq!(
        try_handle_commands(Some(&global), None, CommandId(1), "emote"),
        Ok(AppCommand::Global(GlobalCommands::Emote))
    );
    assert_eq!(
        try_handle_commands(Some(&global), None, CommandId(2), "emote"),
        Err(HandlerError::TypeMapNotFound)
    );
}

fn text_option(name: &str, text: &str) -> CommandDataOption {
    CommandDataOption {
        name: name.to_string(),
        resolved: Some(CommandDataOptionValue::String(text.to_string())),
        options: vec![],
    }
}

#[test]
fn emote_command_reads_its_options() {
    let options = vec![text_option("emote", "wave"), text_option("target", "the void")];
    assert_eq!(requested_emote(&options), Ok(&"wave".to_string()));
    assert_eq!(requested_target(&options), Some(&"the void".to_string()));
    assert_eq!(requested_target(&options[0..1]), None);
    assert_eq!(requested_emote(&[]), Err(HandlerError::UnexpectedData));
    let other =
        CommandDataOption { name: "emote".to_string(), resolved: None, options: vec![] };
    assert_eq!(requested_emote(&[other]), Err(HandlerError::UnexpectedData));
    let number = CommandDataOption {
        name: "emote".to_string(),
        resolved: Some(CommandDataOptionValue::Other),
        options: vec![],
    };
    assert_eq!(requested_emote(&[number]), Err(HandlerError::UnexpectedData));
}

#[test]
fn emote_command_is_the_name_after_a_slash() {
    assert_eq!(to_emote_command("wave", "!"), "/wave");
    assert_eq!(to_emote_command("/wave", "!"), "//wave");
    assert_eq!(to_emote_command("", "!"), "/");
    assert_eq!(to_emote_command("wave", ""), "wave");
    assert_eq!(to_emote_command("/wave", ""), "/wave");
}

#[test]
fn sent_content_names_emote_and_target() {
    let en = DbUser { discord_id: String::new(), language: DbLanguage::En, gender: DbGender::M };
    let ja = DbUser { discord_id: String::new(), language: DbLanguage::Ja, gender: DbGender::M };
    assert_eq!(sent_content(&en, "/wave", None), "Emote sent! (/wave)");
    assert_eq!(sent_content(&en, "/wave", Some("the void")), "Emote sent! (/wave the void)");
    assert_eq!(sent_content(&ja, "/wave", Some("<@42>")), "送信しました！ (/wave <@42>)");
}
