use discord_xiv_emotes::handler::repository::{emote_log_id, store_id, Handler};
use discord_xiv_emotes::handler::xivapi::{EmoteData as Reported, LogMessageData, TextCommand};
use discord_xiv_emotes::handler::{ConditionTextPair, EmoteData, HandlerError};

const ORIGIN: &str = "<If(PlayerParameter(7))><Sheet(ObjStr,PlayerParameter(7),0)/><Else/>ObjectParameter(2)</If>";

fn message(words: &str) -> LogMessageData {
    LogMessageData {
        text_en: format!("{} {} in English.", ORIGIN, words),
        text_ja: format!("{} {} in Japanese.", ORIGIN, words),
    }
}

fn reported(id: u32, name: &str, commands: [Option<&str>; 4]) -> Reported {
    let [alias_en, alias_ja, command_en, command_ja] = commands.map(|c| c.map(str::to_string));
    Reported {
        log_message_targeted: Some(message("targets")),
        log_message_untargeted: Some(message("acts")),
        text_command: Some(TextCommand { alias_en, alias_ja, command_en, command_ja }),
        name: Some(name.to_string()),
        id: Some(id),
    }
}

fn kept(id: u32, name: &str) -> EmoteData {
    EmoteData {
        id,
        name: name.to_string(),
        en: ConditionTextPair {
            targeted: message("targets").text_en,
            untargeted: message("acts").text_en,
        },
        ja: ConditionTextPair {
            targeted: message("targets").text_ja,
            untargeted: message("acts").text_ja,
        },
    }
}

fn handler() -> Handler {
    Handler::new(vec![
        reported(20, "Wave", [None, Some("/てをふる"), Some("/wave"), Some("")]),
        reported(3, "Bow", [Some("/bow"), None, Some("/curtsy"), None]),
        reported(20, "Twin", [None, None, Some("/twin"), None]),
        reported(7, "Cheer", [None, None, Some("/cheer"), Some("/cheer")]),
    ])
    .unwrap()
}

#[test]
fn emotes_are_found_by_each_command() {
    let handler = handler();
    assert_eq!(handler.len(), 6);
    assert!(handler.contains_emote("/wave"));
    assert!(handler.contains_emote("/てをふる"));
    assert!(handler.contains_emote("/curtsy"));
    assert!(!handler.contains_emote("wave"));
    assert!(!handler.contains_emote(""));
    assert_eq!(handler.get_emote_data("/wave"), Some(&kept(20, "Wave")));
    assert_eq!(handler.get_emote_data("/bow"), Some(&kept(3, "Bow")));
    assert_eq!(handler.get_emote_data("/curtsy"), Some(&kept(3, "Bow")));
    assert_eq!(handler.get_emote_data("/dance"), None);
}

#[test]
fn commands_are_listed_by_emote_number() {
    assert_eq!(
        handler().emote_list_by_id(),
        vec!["/bow", "/curtsy", "/cheer", "/てをふる", "/wave", "/twin"]
    );
    assert!(Handler::new(vec![]).unwrap().emote_list_by_id().is_empty());
}

#[test]
fn later_emote_takes_over_a_command() {
    let handler = Handler::new(vec![
        reported(1, "First", [None, None, Some("/shared"), None]),
        reported(2, "Other", [None, None, Some("/other"), None]),
        reported(9, "Second", [None, None, Some("/shared"), None]),
    ])
    .unwrap();
    assert_eq!(handler.len(), 2);
    assert_eq!(handler.get_emote_data("/shared"), Some(&kept(9, "Second")));
    assert_eq!(handler.emote_list_by_id(), vec!["/other", "/shared"]);
}

#[test]
fn incomplete_emotes_are_passed_over() {
    let mut no_id = reported(1, "NoId", [None, None, Some("/noid"), None]);
    no_id.id = None;
    let mut no_name = reported(2, "NoName", [None, None, Some("/noname"), None]);
    no_name.name = None;
    let mut no_command = reported(3, "NoCommand", [None, None, Some("/nocommand"), None]);
    no_command.text_command = None;
    let mut no_targeted = reported(4, "NoTargeted", [None, None, Some("/notargeted"), None]);
    no_targeted.log_message_targeted = None;
    let mut no_untargeted = reported(5, "NoUntargeted", [None, None, Some("/nountargeted"), None]);
    no_untargeted.log_message_untargeted = None;
    let handler = Handler::new(vec![
        no_id,
        no_name,
        no_command,
        no_targeted,
        no_untargeted,
        reported(6, "Whole", [None, None, Some("/whole"), None]),
    ])
    .unwrap();
    assert_eq!(handler.emote_list_by_id(), vec!["/whole"]);
}

#[test]
fn emotes_with_an_empty_message_are_passed_over() {
    let mut empty = reported(1, "Empty", [None, None, Some("/empty"), None]);
    empty.log_message_untargeted = Some(LogMessageData {
        text_en: message("acts").text_en,
        text_ja: String::new(),
    });
    // an empty message is passed over before the engine is asked to read the others
    empty.log_message_targeted =
        Some(LogMessageData { text_en: "<Unknown/>".to_string(), text_ja: "x".to_string() });
    let handler = Handler::new(vec![empty]).unwrap();
    assert_eq!(handler.len(), 0);
}

#[test]
fn unreadable_message_fails_the_load() {
    let mut broken = reported(2, "Broken", [None, None, Some("/broken"), None]);
    broken.log_message_targeted = Some(LogMessageData {
        text_en: message("targets").text_en,
        text_ja: "<Unknown/>".to_string(),
    });
    let result = Handler::new(vec![
        reported(1, "Fine", [None, None, Some("/fine"), None]),
        broken,
        reported(3, "Never", [None, None, Some("/never"), None]),
    ]);
    assert_eq!(result.err(), Some(HandlerError::Extract));
}

#[test]
fn empty_handler_knows_no_emote() {
    let handler = Handler::empty();
    assert_eq!(handler.len(), 0);
    assert!(!handler.contains_emote("/wave"));
    assert_eq!(handler.emote_list_by_id(), Vec::<String>::new());
}

#[test]
fn readable_emote_is_taken_in() {
    let wave = reported(20, "Wave", [None, Some("/てをふる"), Some("/wave"), None]);
    let handler = Handler::empty().take_in(&wave, true).unwrap();
    assert_eq!(handler.len(), 2);
    assert_eq!(handler.get_emote_data("/wave"), Some(&kept(20, "Wave")));
    assert_eq!(handler.get_emote_data("/てをふる"), Some(&kept(20, "Wave")));
}

#[test]
fn unreadable_emote_stops_taking_in() {
    let wave = reported(20, "Wave", [None, None, Some("/wave"), None]);
    assert_eq!(Handler::empty().take_in(&wave, false).err(), Some(HandlerError::Extract));
}

#[test]
fn verdict_on_an_unusable_emote_does_not_matter() {
    let mut nameless = reported(20, "Wave", [None, None, Some("/wave"), None]);
    nameless.name = None;
    let handler = Handler::empty().take_in(&nameless, false).unwrap();
    assert_eq!(handler.len(), 0);
    let mut silent = reported(21, "Silent", [None, None, Some("/silent"), None]);
    silent.log_message_untargeted =
        Some(LogMessageData { text_en: String::new(), text_ja: message("acts").text_ja });
    let handler = handler.take_in(&silent, false).unwrap();
    assert_eq!(handler.len(), 0);
    assert!(!handler.contains_emote("/silent"));
}

#[test]
fn rows_for_the_store() {
    let handler = Handler::new(vec![
        reported(3, "Bow", [Some("/bow"), None, Some("/curtsy"), None]),
        reported(u32::MAX, "Big", [None, None, Some("/big"), None]),
    ])
    .unwrap();
    assert_eq!(
        handler.emote_rows(),
        vec![(3, "Bow".to_string()), (3, "Bow".to_string()), (-1, "Big".to_string())]
    );
}

#[test]
fn store_id_keeps_the_bits() {
    for id in [0u32, 1, 5, 0x7fff_ffff, 0x8000_0000, u32::MAX] {
        assert_eq!(store_id(id), id as i32);
    }
}

#[test]
fn emote_log_id_needs_the_number_to_fit() {
    assert_eq!(emote_log_id(0), Some(0));
    assert_eq!(emote_log_id(0x7fff_ffff), Some(i32::MAX));
    assert_eq!(emote_log_id(0x8000_0000), None);
    assert_eq!(emote_log_id(u32::MAX), None);
}

#[test]
fn error_messages() {
    assert_eq!(
        HandlerError::UnrecognizedEmote("wave".to_string()).message(),
        "Unrecognized emote (wave)"
    );
    assert_eq!(
        HandlerError::UnrecognizedCommand("stats".to_string()).message(),
        "Unrecognized command (stats)"
    );
    assert_eq!(HandlerError::EmptyCommand.message(), "Command was empty");
    assert_eq!(HandlerError::EmoteData.message(), "Internal error, could not retrieve emote data");
    for error in [
        HandlerError::Answers,
        HandlerError::Extract,
        HandlerError::TargetNone,
        HandlerError::Db,
        HandlerError::EmoteLogCountNoParams,
        HandlerError::CountNone,
        HandlerError::TypeMapNotFound,
    ] {
        assert_eq!(error.message(), "Internal error, could not build response");
    }
    assert_eq!(HandlerError::Send.message(), "Failed to send message");
    assert_eq!(HandlerError::NotGuild.message(), "Command can only be used in a server");
    assert_eq!(HandlerError::TimeoutOrOverLimit.message(), "Timed out or had too many inputs");
    assert_eq!(HandlerError::UserNotFound.message(), "Couldn't find user");
    assert_eq!(HandlerError::UnexpectedData.message(), "Unexpected data received from server");
    assert_eq!(HandlerError::ApplicationCommandCap.message(), "Maximum number of commands reached");
    assert_eq!(
        HandlerError::CommandRegisterUnknown.message(),
        "Received command info for unknown command"
    );
    assert_eq!(HandlerError::CommandSetup.message(), "Could not set up application commands");
}

#[test]
fn only_a_timeout_is_not_followed_up() {
    assert!(!HandlerError::TimeoutOrOverLimit.should_followup());
    for error in [
        HandlerError::UnrecognizedEmote(String::new()),
        HandlerError::EmptyCommand,
        HandlerError::TargetNone,
        HandlerError::Send,
        HandlerError::UnexpectedData,
        HandlerError::CommandSetup,
    ] {
        assert!(error.should_followup());
    }
}
