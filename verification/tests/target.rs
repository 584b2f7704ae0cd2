use discord_xiv_emotes::db::models::{DbGender, DbLanguage, DbUser};
use discord_xiv_emotes::id::UserId;
use discord_xiv_emotes::session::target::{
    candidate_list, display_text, free_text, mention, pick_member, Candidate, Target,
};

fn user(language: DbLanguage) -> DbUser {
    DbUser { discord_id: String::new(), language, gender: DbGender::M }
}

fn candidates() -> Vec<Candidate> {
    vec![
        Candidate { id: UserId(7), display_name: "Alphinaud".to_string() },
        Candidate { id: UserId(42), display_name: "Alisaie".to_string() },
        Candidate { id: UserId(42), display_name: "Later".to_string() },
    ]
}

#[test]
fn mention_is_the_number_in_brackets() {
    assert_eq!(mention(UserId(42)), "<@42>");
    assert_eq!(mention(UserId(0)), "<@0>");
    assert_eq!(mention(UserId(u64::MAX)), "<@18446744073709551615>");
}

#[test]
fn member_is_shown_as_mention() {
    let target = Target::Member { id: UserId(42), display_name: "Alisaie".to_string() };
    assert_eq!(target.to_string(), "<@42>");
    assert_eq!(display_text(Some(&target), &user(DbLanguage::En)), "<@42>");
    let big = Target::Member { id: UserId(u64::MAX), display_name: String::new() };
    assert_eq!(big.to_string(), "<@18446744073709551615>");
    let zero = Target::Member { id: UserId(0), display_name: String::new() };
    assert_eq!(zero.to_string(), "<@0>");
}

#[test]
fn free_text_is_shown_as_it_is() {
    let target = free_text("the void".to_string());
    assert_eq!(target, Target::FreeText("the void".to_string()));
    assert_eq!(target.to_string(), "the void");
    assert_eq!(display_text(Some(&target), &user(DbLanguage::Ja)), "the void");
}

#[test]
fn no_target_is_shown_as_placeholder() {
    assert_eq!(display_text(None, &user(DbLanguage::En)), "no target selected");
    assert_eq!(display_text(None, &user(DbLanguage::Ja)), "ユーザー未選択");
}

#[test]
fn user_id_of_targets() {
    let member = Target::Member { id: UserId(42), display_name: "Alisaie".to_string() };
    assert_eq!(member.user_id(), Some(UserId(42)));
    assert_eq!(Target::FreeText("42".to_string()).user_id(), None);
}

#[test]
fn pick_member_takes_the_first_with_the_number() {
    assert_eq!(
        pick_member(&candidates(), UserId(42)),
        Some(Target::Member { id: UserId(42), display_name: "Alisaie".to_string() })
    );
    assert_eq!(
        pick_member(&candidates(), UserId(7)),
        Some(Target::Member { id: UserId(7), display_name: "Alphinaud".to_string() })
    );
}

#[test]
fn pick_member_finds_nothing_for_a_stranger() {
    assert_eq!(pick_member(&candidates(), UserId(8)), None);
    assert_eq!(pick_member(&[], UserId(7)), None);
}

#[test]
fn target_clone_is_equal() {
    let member = Target::Member { id: UserId(42), display_name: "Alisaie".to_string() };
    assert_eq!(member.clone(), member);
    let text = Target::FreeText("the void".to_string());
    assert_eq!(text.clone(), text);
}

#[test]
fn candidates_are_the_members_or_the_two_sides() {
    let caller = || Candidate { id: UserId(1), display_name: "Caller".to_string() };
    let bot = || Candidate { id: UserId(2), display_name: "Bot".to_string() };
    assert_eq!(candidate_list(None, caller(), bot()), vec![caller(), bot()]);
    assert_eq!(candidate_list(Some(candidates()), caller(), bot()), candidates());
    assert_eq!(candidate_list(Some(vec![]), caller(), bot()), vec![]);
}
