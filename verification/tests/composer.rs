use discord_xiv_emotes::db::models::{DbGender, DbLanguage, DbUser};
use discord_xiv_emotes::handler::emotes::{
    build_emote_message, compose, fill_template, surface_engine_result, untargeted_target,
    EngineError, Identity,
};
use discord_xiv_emotes::handler::{ConditionTextPair, EmoteData, HandlerError};
use discord_xiv_emotes::id::UserId;
use discord_xiv_emotes::session::target::Target;

const ORIGIN: &str = "<Clickable(<If(Equal(ObjectParameter(1),ObjectParameter(2)))>you<Else/><If(PlayerParameter(7))><SheetEn(ObjStr,2,PlayerParameter(7),1,1)/><Else/>ObjectParameter(2)</If></If>)/>";
const TARGET: &str = "<If(Equal(ObjectParameter(1),ObjectParameter(3)))><If(PlayerParameter(8))><SheetEn(ObjStr,2,PlayerParameter(8),1,1)/><Else/>you</If><Else/><If(PlayerParameter(8))><SheetEn(ObjStr,2,PlayerParameter(8),1,1)/><Else/>ObjectParameter(3)</If></If>";
const LOOKS: &str = "<If(Equal(ObjectParameter(1),ObjectParameter(2)))>look<Else/>looks</If>";
const HER_HIS: &str = "<If(PlayerParameter(7))><If(<Sheet(BNpcName,PlayerParameter(7),6)/>)>her<Else/>his</If><Else/><If(PlayerParameter(5))>her<Else/>his</If></If>";

fn surprised() -> EmoteData {
    EmoteData {
        id: 5,
        name: "Surprised".to_string(),
        en: ConditionTextPair {
            targeted: format!("{} {} at {} in surprise.", ORIGIN, LOOKS, TARGET),
            untargeted: format!("{} {} surprised.", ORIGIN, LOOKS),
        },
        ja: ConditionTextPair {
            targeted: "<If(PlayerParameter(7))><Sheet(ObjStr,PlayerParameter(7),0)/><Else/>ObjectParameter(2)</If>は<If(PlayerParameter(8))><Sheet(ObjStr,PlayerParameter(8),0)/><Else/>ObjectParameter(3)</If>におどろいた。".to_string(),
            untargeted: "<If(PlayerParameter(7))><Sheet(ObjStr,PlayerParameter(7),0)/><Else/>ObjectParameter(2)</If>はおどろいた。".to_string(),
        },
    }
}

fn origin(name: &str, gender: DbGender) -> Identity {
    Identity { name: name.to_string(), gender, is_pc: true, is_self: false }
}

fn user(language: DbLanguage, gender: DbGender) -> DbUser {
    DbUser { discord_id: String::new(), language, gender }
}

#[test]
fn untargeted_uses_the_untargeted_half() {
    let message = compose(&surprised(), DbLanguage::En, &origin("Alisaie", DbGender::F), None);
    assert_eq!(message, Ok("Alisaie looks surprised.".to_string()));
    let message = compose(&surprised(), DbLanguage::Ja, &origin("Alisaie", DbGender::F), None);
    assert_eq!(message, Ok("Alisaieはおどろいた。".to_string()));
}

#[test]
fn targeted_uses_the_targeted_half() {
    let target = Target::FreeText("the void".to_string());
    let message =
        compose(&surprised(), DbLanguage::En, &origin("Alisaie", DbGender::F), Some(&target));
    assert_eq!(message, Ok("Alisaie looks at the void in surprise.".to_string()));
    let message =
        compose(&surprised(), DbLanguage::Ja, &origin("Alisaie", DbGender::F), Some(&target));
    assert_eq!(message, Ok("Alisaieはthe voidにおどろいた。".to_string()));
}

#[test]
fn member_target_is_named_by_mention() {
    let target = Target::Member { id: UserId(42), display_name: "Alisaie".to_string() };
    let message =
        compose(&surprised(), DbLanguage::En, &origin("<@7>", DbGender::M), Some(&target));
    assert_eq!(message, Ok("<@7> looks at <@42> in surprise.".to_string()));
}

#[test]
fn build_emote_message_mentions_the_author() {
    let en = user(DbLanguage::En, DbGender::M);
    assert_eq!(
        build_emote_message(&surprised(), &en, UserId(7), None),
        Ok("<@7> looks surprised.".to_string())
    );
    assert_eq!(
        build_emote_message(&surprised(), &en, UserId(7), Some("the void")),
        Ok("<@7> looks at the void in surprise.".to_string())
    );
    let ja = user(DbLanguage::Ja, DbGender::F);
    assert_eq!(
        build_emote_message(&surprised(), &ja, UserId(7), Some("<@42>")),
        Ok("<@7>は<@42>におどろいた。".to_string())
    );
}

#[test]
fn gender_of_the_origin_picks_the_words() {
    let pair = ConditionTextPair {
        targeted: String::new(),
        untargeted: format!("{} takes {} turn.", ORIGIN, HER_HIS),
    };
    assert_eq!(
        fill_template(&pair, false, &origin("Alisaie", DbGender::F), None),
        Ok("Alisaie takes her turn.".to_string())
    );
    assert_eq!(
        fill_template(&pair, false, &origin("Alphinaud", DbGender::M), None),
        Ok("Alphinaud takes his turn.".to_string())
    );
}

#[test]
fn the_reader_is_addressed_as_you() {
    let pair = ConditionTextPair {
        targeted: format!("{} {} at {} in surprise.", ORIGIN, LOOKS, TARGET),
        untargeted: String::new(),
    };
    let me = Identity { name: "Alisaie".to_string(), gender: DbGender::F, is_pc: true, is_self: true };
    assert_eq!(
        fill_template(&pair, true, &me, Some("the void")),
        Ok("you look at the void in surprise.".to_string())
    );
}

#[test]
fn stand_in_is_named_where_an_untargeted_message_names_its_target() {
    let pair = ConditionTextPair {
        targeted: String::new(),
        untargeted: format!("{} {} at {}.", ORIGIN, LOOKS, TARGET),
    };
    assert_eq!(
        fill_template(&pair, false, &origin("Alisaie", DbGender::F), None),
        Ok("Alisaie looks at Godbert Manderville.".to_string())
    );
}

#[test]
fn targeted_template_without_target_is_refused() {
    let emote = surprised();
    assert_eq!(
        fill_template(&emote.en, true, &origin("Alisaie", DbGender::F), None),
        Err(HandlerError::TargetNone)
    );
}

#[test]
fn untargeted_template_with_a_target_ignores_nothing_it_names() {
    let emote = surprised();
    assert_eq!(
        fill_template(&emote.en, false, &origin("Alisaie", DbGender::F), Some("the void")),
        Ok("Alisaie looks surprised.".to_string())
    );
}

#[test]
fn unreadable_template_is_an_extract_error() {
    let pair = ConditionTextPair {
        targeted: "<Unknown/>".to_string(),
        untargeted: "<If(PlayerParameter(7))>unclosed".to_string(),
    };
    assert_eq!(
        fill_template(&pair, true, &origin("Alisaie", DbGender::F), Some("x")),
        Err(HandlerError::Extract)
    );
    assert_eq!(
        fill_template(&pair, false, &origin("Alisaie", DbGender::F), None),
        Err(HandlerError::Extract)
    );
    let empty = ConditionTextPair { targeted: String::new(), untargeted: String::new() };
    assert_eq!(
        fill_template(&empty, false, &origin("Alisaie", DbGender::F), None),
        Err(HandlerError::Extract)
    );
}

#[test]
fn two_different_readers_are_refused() {
    let emote = surprised();
    let me = Identity { name: "Alisaie".to_string(), gender: DbGender::F, is_pc: true, is_self: true };
    // the target that `fill_template` builds is never the reader, so the engine accepts it
    assert_eq!(
        fill_template(&emote.en, true, &me, Some("Alisaie")),
        Ok("you look at Alisaie in surprise.".to_string())
    );
}

#[test]
fn engine_errors_are_surfaced_by_kind() {
    assert_eq!(surface_engine_result(Ok("text".to_string())), Ok("text".to_string()));
    assert_eq!(surface_engine_result(Err(EngineError::Answers)), Err(HandlerError::Answers));
    assert_eq!(surface_engine_result(Err(EngineError::Text)), Err(HandlerError::Extract));
}

#[test]
fn untargeted_target_is_the_stand_in() {
    assert_eq!(
        untargeted_target(),
        Identity {
            name: "Godbert Manderville".to_string(),
            gender: DbGender::M,
            is_pc: false,
            is_self: false,
        }
    );
}

#[test]
fn with_emote_data_picks_the_language() {
    let emote = surprised();
    assert_eq!(DbLanguage::En.with_emote_data(&emote), &emote.en);
    assert_eq!(DbLanguage::Ja.with_emote_data(&emote), &emote.ja);
}
