//! Users, guilds and their preferences.

use vstd::prelude::*;
use vstd::string::*;

verus! {

/// The language that messages are written in.
#[derive(Clone, Copy, Debug, PartialEq, Eq, Structural)]
pub enum DbLanguage {
    En,
    Ja,
}

impl Default for DbLanguage {
    fn default() -> (r: DbLanguage)
        ensures
            r == DbLanguage::En,
    {
        DbLanguage::En
    }
}

impl DbLanguage {
    /// The language's name in English.
    #[verifier::allow_in_spec]
    pub fn to_string_en(self) -> &'static str
        returns
            (match self {
                DbLanguage::En => "English",
                DbLanguage::Ja => "Japanese",
            }),
    {
        match self {
            DbLanguage::En => "English",
            DbLanguage::Ja => "Japanese",
        }
    }

    /// The language's name in Japanese.
    #[verifier::allow_in_spec]
    pub fn to_string_ja(self) -> &'static str
        returns
            (match self {
                DbLanguage::En => "英語",
                DbLanguage::Ja => "日本語",
            }),
    {
        match self {
            DbLanguage::En => "英語",
            DbLanguage::Ja => "日本語",
        }
    }

    /// The language's name, written in `language`.
    #[verifier::allow_in_spec]
    pub fn to_string(self, language: DbLanguage) -> &'static str
        returns
            (match language {
                DbLanguage::En => self.to_string_en(),
                DbLanguage::Ja => self.to_string_ja(),
            }),
    {
        match language {
            DbLanguage::En => self.to_string_en(),
            DbLanguage::Ja => self.to_string_ja(),
        }
    }

    /// The language's name, written in the language that `user` has chosen.
    pub fn for_user(self, user: &DbUser) -> (r: &'static str)
        ensures
            r == self.to_string(user.language),
    {
        self.to_string(user.language)
    }

    /// The number under which the store keeps the language.
    #[verifier::allow_in_spec]
    pub fn repr(self) -> i32
        returns
            (match self {
                DbLanguage::En => 0i32,
                DbLanguage::Ja => 1i32,
            }),
    {
        match self {
            DbLanguage::En => 0,
            DbLanguage::Ja => 1,
        }
    }

    /// The language kept under `value`, if there is one.
    pub fn from_repr(value: i32) -> (r: Option<DbLanguage>)
        ensures
            r is Some <==> (value == 0 || value == 1),
            r matches Some(language) ==> language.repr() == value,
    {
        if value == 0 {
            Some(DbLanguage::En)
        } else if value == 1 {
            Some(DbLanguage::Ja)
        } else {
            None
        }
    }

    /// Every language, in the order of their numbers.
    pub fn all() -> (r: Vec<DbLanguage>)
        ensures
            r@ == seq![DbLanguage::En, DbLanguage::Ja],
    {
        let mut all = Vec::new();
        all.push(DbLanguage::En);
        all.push(DbLanguage::Ja);
        assert(all@ =~= seq![DbLanguage::En, DbLanguage::Ja]);
        all
    }
}

/// The grammatical gender that messages use for a user.
#[derive(Clone, Copy, Debug, PartialEq, Eq, Structural)]
pub enum DbGender {
    M,
    F,
}

impl Default for DbGender {
    fn default() -> (r: DbGender)
        ensures
            r == DbGender::M,
    {
        DbGender::M
    }
}

impl DbGender {
    /// The gender's name in English.
    #[verifier::allow_in_spec]
    pub fn to_string_en(self) -> &'static str
        returns
            (match self {
                DbGender::M => "Male",
                DbGender::F => "Female",
            }),
    {
        match self {
            DbGender::M => "Male",
            DbGender::F => "Female",
        }
    }

    /// The gender's name in Japanese.
    #[verifier::allow_in_spec]
    pub fn to_string_ja(self) -> &'static str
        returns
            (match self {
                DbGender::M => "男性",
                DbGender::F => "女性",
            }),
    {
        match self {
            DbGender::M => "男性",
            DbGender::F => "女性",
        }
    }

    /// The gender's name, written in `language`.
    #[verifier::allow_in_spec]
    pub fn to_string(self, language: DbLanguage) -> &'static str
        returns
            (match language {
                DbLanguage::En => self.to_string_en(),
                DbLanguage::Ja => self.to_string_ja(),
            }),
    {
        match language {
            DbLanguage::En => self.to_string_en(),
            DbLanguage::Ja => self.to_string_ja(),
        }
    }

    /// The gender's name, written in the language that `user` has chosen.
    pub fn for_user(self, user: &DbUser) -> (r: &'static str)
        ensures
            r == self.to_string(user.language),
    {
        self.to_string(user.language)
    }

    /// The number under which the store keeps the gender.
    #[verifier::allow_in_spec]
    pub fn repr(self) -> i32
        returns
            (match self {
                DbGender::M => 0i32,
                DbGender::F => 1i32,
            }),
    {
        match self {
            DbGender::M => 0,
            DbGender::F => 1,
        }
    }

    /// The gender kept under `value`, if there is one.
    pub fn from_repr(value: i32) -> (r: Option<DbGender>)
        ensures
            r is Some <==> (value == 0 || value == 1),
            r matches Some(gender) ==> gender.repr() == value,
    {
        if value == 0 {
            Some(DbGender::M)
        } else if value == 1 {
            Some(DbGender::F)
        } else {
            None
        }
    }

    /// Every gender, in the order of their numbers.
    pub fn all() -> (r: Vec<DbGender>)
        ensures
            r@ == seq![DbGender::M, DbGender::F],
    {
        let mut all = Vec::new();
        all.push(DbGender::M);
        all.push(DbGender::F);
        assert(all@ =~= seq![DbGender::M, DbGender::F]);
        all
    }
}

/// A user's preferences.
#[derive(Debug, PartialEq, Eq)]
pub struct DbUser {
    pub discord_id: String,
    pub language: DbLanguage,
    pub gender: DbGender,
}

/// What contracts say of a [`DbUser`].
pub struct DbUserView {
    pub discord_id: Seq<char>,
    pub language: DbLanguage,
    pub gender: DbGender,
}

impl View for DbUser {
    type V = DbUserView;

    open spec fn view(&self) -> DbUserView {
        DbUserView { discord_id: self.discord_id@, language: self.language, gender: self.gender }
    }
}

impl Clone for DbUser {
    fn clone(&self) -> (r: DbUser)
        ensures
            r@ == self@,
    {
        DbUser {
            discord_id: self.discord_id.clone(),
            language: self.language,
            gender: self.gender,
        }
    }
}

impl Default for DbUser {
    fn default() -> (r: DbUser)
        ensures
            r@ == (DbUserView {
                discord_id: Seq::<char>::empty(),
                language: DbLanguage::En,
                gender: DbGender::M,
            }),
    {
        DbUser { discord_id: String::new(), language: DbLanguage::En, gender: DbGender::M }
    }
}

impl DbUser {
    /// The user's identifier as the store writes it.
    pub fn discord_id(&self) -> (r: &String)
        ensures
            r@ == self.discord_id@,
    {
        &self.discord_id
    }

    /// The language that the user reads.
    pub fn language(&self) -> (r: &DbLanguage)
        ensures
            *r == self.language,
    {
        &self.language
    }

    /// The gender that messages use for the user.
    pub fn gender(&self) -> (r: &DbGender)
        ensures
            *r == self.gender,
    {
        &self.gender
    }

    /// The preferences that a guild lends to a member who has set none: the
    /// guild's language and gender, under no user id.
    pub fn from_guild(guild: &DbGuild) -> (r: DbUser)
        ensures
            r@ == (DbUserView {
                discord_id: Seq::<char>::empty(),
                language: guild.language,
                gender: guild.gender,
            }),
    {
        DbUser { discord_id: String::new(), language: guild.language, gender: guild.gender }
    }
}

/// A user who may be unknown to the store.
#[derive(Debug, PartialEq, Eq)]
pub struct DbUserOpt(pub Option<DbUser>);

impl DbUserOpt {
    /// The user, if known.
    pub fn into_inner(self) -> (r: Option<DbUser>)
        ensures
            r == self.0,
    {
        self.0
    }

    /// The user's language, or English for an unknown user.
    pub fn language(&self) -> (r: DbLanguage)
        ensures
            r == match self.0 {
                Some(user) => user.language,
                None => DbLanguage::En,
            },
    {
        match &self.0 {
            Some(user) => user.language,
            None => DbLanguage::En,
        }
    }

    /// The user's gender, or male for an unknown user.
    pub fn gender(&self) -> (r: DbGender)
        ensures
            r == match self.0 {
                Some(user) => user.gender,
                None => DbGender::M,
            },
    {
        match &self.0 {
            Some(user) => user.gender,
            None => DbGender::M,
        }
    }
}

/// The prefix that marks a message as a command where a guild has set none.
#[verifier::allow_in_spec]
pub fn default_prefix() -> &'static str
    returns
        "!",
{
    "!"
}

/// A guild's preferences.
#[derive(Debug, PartialEq, Eq)]
pub struct DbGuild {
    pub discord_id: String,
    pub language: DbLanguage,
    pub gender: DbGender,
    pub prefix: String,
}

/// What contracts say of a [`DbGuild`].
pub struct DbGuildView {
    pub discord_id: Seq<char>,
    pub language: DbLanguage,
    pub gender: DbGender,
    pub prefix: Seq<char>,
}

impl View for DbGuild {
    type V = DbGuildView;

    open spec fn view(&self) -> DbGuildView {
        DbGuildView {
            discord_id: self.discord_id@,
            language: self.language,
            gender: self.gender,
            prefix: self.prefix@,
        }
    }
}

impl Clone for DbGuild {
    fn clone(&self) -> (r: DbGuild)
        ensures
            r@ == self@,
    {
        DbGuild {
            discord_id: self.discord_id.clone(),
            language: self.language,
            gender: self.gender,
            prefix: self.prefix.clone(),
        }
    }
}

impl Default for DbGuild {
    fn default() -> (r: DbGuild)
        ensures
            r@ == (DbGuildView {
                discord_id: Seq::<char>::empty(),
                language: DbLanguage::En,
                gender: DbGender::M,
                prefix: default_prefix()@,
            }),
    {
        DbGuild {
            discord_id: String::new(),
            language: DbLanguage::En,
            gender: DbGender::M,
            prefix: String::from_str(default_prefix()),
        }
    }
}

} // verus!
