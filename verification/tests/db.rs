use discord_xiv_emotes::db::models::{
    default_prefix, DbGender, DbGuild, DbLanguage, DbUser, DbUserOpt,
};
use discord_xiv_emotes::db::util::{DiscordIdExt, DB_ID_WIDTH};
use discord_xiv_emotes::id::{GuildId, RoleId, UserId};

#[test]
fn language_names() {
    assert_eq!(DbLanguage::En.to_string_en(), "English");
    assert_eq!(DbLanguage::Ja.to_string_en(), "Japanese");
    assert_eq!(DbLanguage::En.to_string_ja(), "英語");
    assert_eq!(DbLanguage::Ja.to_string_ja(), "日本語");
    assert_eq!(DbLanguage::Ja.to_string(DbLanguage::En), "Japanese");
    assert_eq!(DbLanguage::Ja.to_string(DbLanguage::Ja), "日本語");
    assert_eq!(DbLanguage::En.to_string(DbLanguage::Ja), "英語");
}

#[test]
fn gender_names() {
    assert_eq!(DbGender::M.to_string_en(), "Male");
    assert_eq!(DbGender::F.to_string_en(), "Female");
    assert_eq!(DbGender::M.to_string_ja(), "男性");
    assert_eq!(DbGender::F.to_string_ja(), "女性");
    assert_eq!(DbGender::F.to_string(DbLanguage::En), "Female");
    assert_eq!(DbGender::F.to_string(DbLanguage::Ja), "女性");
}

#[test]
fn names_for_a_user() {
    let ja = DbUser { discord_id: String::new(), language: DbLanguage::Ja, gender: DbGender::M };
    assert_eq!(DbLanguage::En.for_user(&ja), "英語");
    assert_eq!(DbGender::F.for_user(&ja), "女性");
    assert_eq!(DbGender::F.for_user(&DbUser::default()), "Female");
}

#[test]
fn numbers_of_languages_and_genders() {
    assert_eq!(DbLanguage::En.repr(), 0);
    assert_eq!(DbLanguage::Ja.repr(), 1);
    assert_eq!(DbGender::M.repr(), 0);
    assert_eq!(DbGender::F.repr(), 1);
    for n in -3..4 {
        assert_eq!(DbLanguage::from_repr(n).map(DbLanguage::repr), (0..2).find(|v| *v == n));
        assert_eq!(DbGender::from_repr(n).map(DbGender::repr), (0..2).find(|v| *v == n));
    }
    assert_eq!(DbLanguage::all(), vec![DbLanguage::En, DbLanguage::Ja]);
    assert_eq!(DbGender::all(), vec![DbGender::M, DbGender::F]);
}

#[test]
fn defaults() {
    assert_eq!(DbLanguage::default(), DbLanguage::En);
    assert_eq!(DbGender::default(), DbGender::M);
    assert_eq!(
        DbUser::default(),
        DbUser { discord_id: String::new(), language: DbLanguage::En, gender: DbGender::M }
    );
    assert_eq!(default_prefix(), "!");
    assert_eq!(
        DbGuild::default(),
        DbGuild {
            discord_id: String::new(),
            language: DbLanguage::En,
            gender: DbGender::M,
            prefix: "!".to_string(),
        }
    );
}

#[test]
fn user_from_guild_takes_language_and_gender() {
    let guild = DbGuild {
        discord_id: "100".to_string(),
        language: DbLanguage::Ja,
        gender: DbGender::F,
        prefix: "?".to_string(),
    };
    assert_eq!(
        DbUser::from_guild(&guild),
        DbUser { discord_id: String::new(), language: DbLanguage::Ja, gender: DbGender::F }
    );
}

#[test]
fn user_getters_and_clone() {
    let user = DbUser { discord_id: "7".to_string(), language: DbLanguage::Ja, gender: DbGender::F };
    assert_eq!(user.discord_id(), "7");
    assert_eq!(user.language(), &DbLanguage::Ja);
    assert_eq!(user.gender(), &DbGender::F);
    assert_eq!(user.clone(), user);
    assert_eq!(DbGuild::default().clone(), DbGuild::default());
}

#[test]
fn unknown_user_has_the_defaults() {
    assert_eq!(DbUserOpt(None).language(), DbLanguage::En);
    assert_eq!(DbUserOpt(None).gender(), DbGender::M);
    let user = DbUser { discord_id: "7".to_string(), language: DbLanguage::Ja, gender: DbGender::F };
    assert_eq!(DbUserOpt(Some(user.clone())).language(), DbLanguage::Ja);
    assert_eq!(DbUserOpt(Some(user.clone())).gender(), DbGender::F);
    assert_eq!(DbUserOpt(Some(user.clone())).into_inner(), Some(user));
    assert_eq!(DbUserOpt(None).into_inner(), None);
}

#[test]
fn identifiers_are_written_with_twenty_digits() {
    assert_eq!(DB_ID_WIDTH, 20);
    assert_eq!(UserId(42).to_db_string(), "00000000000000000042");
    assert_eq!(GuildId(0).to_db_string(), "00000000000000000000");
    assert_eq!(RoleId(u64::MAX).to_db_string(), "18446744073709551615");
    for id in [1u64, 99, 100, 123456789012345678] {
        assert_eq!(UserId(id).to_db_string(), format!("{:0>20}", id));
    }
}
