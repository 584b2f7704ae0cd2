use discord_xiv_emotes::db::models::{DbGender, DbGuild, DbLanguage, DbUser};
use discord_xiv_emotes::handler::repository::Handler;
use discord_xiv_emotes::handler::xivapi::{EmoteData as Reported, LogMessageData, TextCommand};
use discord_xiv_emotes::handler::HandlerError;
use discord_xiv_emotes::id::{GuildId, UserId};
use discord_xiv_emotes::message::{
    char_is_whitespace, find_emote, join, process_input, split_message, split_whitespace,
    starts_with, strip_prefix, MessageDbData, ParsedInput,
};

fn strings(parts: &[&str]) -> Vec<String> {
    parts.iter().map(|p| p.to_string()).collect()
}

#[test]
fn whitespace_is_what_std_calls_whitespace() {
    for n in 0..=0x3100u32 {
        if let Some(c) = char::from_u32(n) {
            assert_eq!(char_is_whitespace(c), c.is_whitespace(), "{:?}", c);
        }
    }
    for c in ['\u{feff}', '\u{e000}', '\u{1f600}', '\u{10ffff}'] {
        assert_eq!(char_is_whitespace(c), c.is_whitespace());
    }
}

#[test]
fn split_whitespace_splits_as_std_does() {
    let cases = [
        "",
        " ",
        "wave",
        "!wave the void",
        "  !wave\tthe\n\nvoid  ",
        "!wave\u{3000}ヤ・シュトラ",
        "a\u{a0}b\u{2003}c\u{85}d",
        "エモート 一覧",
        "trailing ",
        " leading",
    ];
    for case in cases {
        let expected: Vec<String> = case.split_whitespace().map(str::to_string).collect();
        assert_eq!(split_whitespace(case), expected, "{:?}", case);
    }
}

#[test]
fn starts_with_compares_characters() {
    let cases = [
        ("!wave", "!"),
        ("!wave", ""),
        ("", ""),
        ("", "!"),
        ("!wave", "!wave"),
        ("!wave", "!waves"),
        ("wave", "!"),
        ("！wave", "！"),
        ("！wave", "!"),
        ("エモート", "エモ"),
    ];
    for (s, prefix) in cases {
        assert_eq!(starts_with(s, prefix), s.starts_with(prefix), "{:?} {:?}", s, prefix);
        assert_eq!(strip_prefix(s, prefix), s.strip_prefix(prefix).unwrap_or(s));
    }
}

#[test]
fn join_puts_a_space_between() {
    assert_eq!(join(&[]), "");
    assert_eq!(join(&strings(&["the"])), "the");
    assert_eq!(join(&strings(&["the", "void"])), "the void");
    assert_eq!(join(&strings(&["a", "", "b"])), "a  b");
}

#[test]
fn process_input_reads_emote_and_mention() {
    assert_eq!(
        process_input(&strings(&["wave"])),
        Ok(ParsedInput {
            original_emote: "wave".to_string(),
            emote: "/wave".to_string(),
            mention: None,
        })
    );
    assert_eq!(
        process_input(&strings(&["wave", "the", "void"])),
        Ok(ParsedInput {
            original_emote: "wave".to_string(),
            emote: "/wave".to_string(),
            mention: Some("the void".to_string()),
        })
    );
    assert_eq!(process_input(&[]), Err(HandlerError::EmptyCommand));
}

#[test]
fn split_message_needs_the_prefix() {
    assert_eq!(split_message("!wave  the void", "!"), Some(strings(&["wave", "the", "void"])));
    assert_eq!(split_message("wave", "!"), None);
    assert_eq!(split_message(" !wave", "!"), None);
    assert_eq!(split_message("!", "!"), Some(strings(&[""])));
    assert_eq!(split_message("wave at you", ""), Some(strings(&["wave", "at", "you"])));
    assert_eq!(split_message("   ", ""), Some(vec![]));
    assert_eq!(split_message("e! wave", "e!"), Some(strings(&["", "wave"])));
}

fn handler() -> Handler {
    let text = "<If(PlayerParameter(7))><Sheet(ObjStr,PlayerParameter(7),0)/><Else/>ObjectParameter(2)</If> waves.";
    let message = || Some(LogMessageData { text_en: text.to_string(), text_ja: text.to_string() });
    Handler::new(vec![Reported {
        log_message_targeted: message(),
        log_message_untargeted: message(),
        text_command: Some(TextCommand {
            alias_en: None,
            alias_ja: None,
            command_en: Some("/wave".to_string()),
            command_ja: None,
        }),
        name: Some("Wave".to_string()),
        id: Some(20),
    }])
    .unwrap()
}

#[test]
fn find_emote_looks_up_the_command() {
    let handler = handler();
    let input = process_input(&split_message("!wave the void", "!").unwrap()).unwrap();
    assert_eq!(find_emote(&handler, &input).map(|e| e.id), Ok(20));
    let input = process_input(&split_message("!dance", "!").unwrap()).unwrap();
    assert_eq!(
        find_emote(&handler, &input).map(|e| e.id),
        Err(HandlerError::UnrecognizedEmote("dance".to_string()))
    );
}

#[test]
fn own_settings_come_first() {
    let own = DbUser { discord_id: "7".to_string(), language: DbLanguage::Ja, gender: DbGender::F };
    let data = MessageDbData {
        user_discord_id: UserId(7),
        guild_discord_id: Some(GuildId(100)),
        user: Some(own.clone()),
        guild: Some(DbGuild::default()),
    };
    assert_eq!(data.determine_user_settings(), own);
    assert_eq!(data.user(), Some(&own));
}

#[test]
fn guild_settings_come_second() {
    let guild = DbGuild {
        discord_id: "00000000000000000100".to_string(),
        language: DbLanguage::Ja,
        gender: DbGender::F,
        prefix: "?".to_string(),
    };
    let data = MessageDbData {
        user_discord_id: UserId(7),
        guild_discord_id: Some(GuildId(100)),
        user: None,
        guild: Some(guild.clone()),
    };
    assert_eq!(
        data.determine_user_settings(),
        DbUser {
            discord_id: "00000000000000000007".to_string(),
            language: DbLanguage::Ja,
            gender: DbGender::F,
        }
    );
    assert_eq!(data.guild(), Some(&guild));
    let outside = MessageDbData { guild_discord_id: None, ..data };
    assert_eq!(outside.guild(), None);
    assert_eq!(outside.determine_user_settings(), DbUser::default());
}

#[test]
fn defaults_come_last() {
    let data = MessageDbData::new(UserId(7), Some(GuildId(100)));
    assert_eq!(data.user(), None);
    assert_eq!(data.guild(), None);
    assert_eq!(
        data.determine_user_settings(),
        DbUser { discord_id: String::new(), language: DbLanguage::En, gender: DbGender::M }
    );
}

#[test]
fn process_message_input_reads_and_looks_up() {
    let handler = handler();
    let (input, emote) = handler.process_message_input(&strings(&["wave", "you"])).unwrap();
    assert_eq!(input.mention, Some("you".to_string()));
    assert_eq!(emote.name, "Wave");
    assert_eq!(
        handler.process_message_input(&strings(&["Dance"])).err(),
        Some(HandlerError::UnrecognizedEmote("Dance".to_string()))
    );
    assert_eq!(handler.process_message_input(&[]).err(), Some(HandlerError::EmptyCommand));
    let en = DbUser::default();
    assert_eq!(
        handler.build_emote_message(emote, &en, UserId(7), None),
        Ok("<@7> waves.".to_string())
    );
}
