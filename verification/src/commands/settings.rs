//! What the prompts for personal and for guild settings share: the menus of
//! genders and of languages, and the choices read from them.

use vstd::prelude::*;
use vstd::string::*;

use crate::db::models::{DbGender, DbLanguage, DbUser};
use crate::text::{decimal, decimal_string, parse_i32, parsed_i32, str_eq};
use crate::ui::{option_views, SelectMenu, SelectMenuView, SelectOption, SelectOptionView};

verus! {

/// A part of a settings prompt that reports events.
#[derive(Clone, Copy, Debug, PartialEq, Eq, Structural)]
pub enum Ids {
    /// The menu of genders.
    GenderSelect,
    /// The menu of languages.
    LanguageSelect,
    /// The button that opens the dialog for the command prefix.
    PrefixInputBtn,
    /// The button that saves.
    Submit,
}

impl Ids {
    /// The identifier that the platform knows the part by.
    #[verifier::allow_in_spec]
    pub fn as_str(self) -> &'static str
        returns
            (match self {
                Ids::GenderSelect => "gender_select",
                Ids::LanguageSelect => "language_select",
                Ids::PrefixInputBtn => "prefix_input_btn",
                Ids::Submit => "submit",
            }),
    {
        match self {
            Ids::GenderSelect => "gender_select",
            Ids::LanguageSelect => "language_select",
            Ids::PrefixInputBtn => "prefix_input_btn",
            Ids::Submit => "submit",
        }
    }

    /// The part that `id` names, if it names one.
    pub open spec fn named(id: Seq<char>) -> Option<Ids> {
        if id == Ids::GenderSelect.as_str()@ {
            Some(Ids::GenderSelect)
        } else if id == Ids::LanguageSelect.as_str()@ {
            Some(Ids::LanguageSelect)
        } else if id == Ids::PrefixInputBtn.as_str()@ {
            Some(Ids::PrefixInputBtn)
        } else if id == Ids::Submit.as_str()@ {
            Some(Ids::Submit)
        } else {
            None
        }
    }

    /// The part that `id` names, if it names one.
    pub fn try_from(id: &str) -> (r: Option<Ids>)
        ensures
            r == Self::named(id@),
    {
        if str_eq(id, Ids::GenderSelect.as_str()) {
            Some(Ids::GenderSelect)
        } else if str_eq(id, Ids::LanguageSelect.as_str()) {
            Some(Ids::LanguageSelect)
        } else if str_eq(id, Ids::PrefixInputBtn.as_str()) {
            Some(Ids::PrefixInputBtn)
        } else if str_eq(id, Ids::Submit.as_str()) {
            Some(Ids::Submit)
        } else {
            None
        }
    }
}

/// Each part is found again by its own identifier.
pub proof fn lemma_ids_round_trip(id: Ids)
    ensures
        Ids::named(id.as_str()@) == Some(id),
{
    reveal_strlit("gender_select");
    reveal_strlit("language_select");
    reveal_strlit("prefix_input_btn");
    reveal_strlit("submit");
    assert("gender_select"@.len() == 13 && "language_select"@.len() == 15);
    assert("prefix_input_btn"@.len() == 16 && "submit"@.len() == 6);
}

/// What the caller is to do after an event of a settings prompt.
#[derive(Clone, Copy, Debug, PartialEq, Eq, Structural)]
pub enum SettingsAction {
    /// Render the prompt anew and send it as the update that answers the
    /// event.
    Rerender,
    /// Open the dialog for the command prefix and wait for its answer.
    OpenPrefixDialog,
    /// Show that the settings are saved, and save them.
    Save,
}

/// The number that `value` writes, if the menu reported a value and it writes
/// a number.
pub open spec fn chosen_number(value: Option<Seq<char>>) -> Option<i32> {
    match value {
        Some(v) => parsed_i32(v),
        None => None,
    }
}

/// The gender that a value reported by the menu of genders stands for.
pub open spec fn chosen_gender(value: Option<Seq<char>>) -> Option<DbGender> {
    match chosen_number(value) {
        Some(n) => if n == DbGender::M.repr() {
            Some(DbGender::M)
        } else if n == DbGender::F.repr() {
            Some(DbGender::F)
        } else {
            None
        },
        None => None,
    }
}

/// The language that a value reported by the menu of languages stands for.
pub open spec fn chosen_language(value: Option<Seq<char>>) -> Option<DbLanguage> {
    match chosen_number(value) {
        Some(n) => if n == DbLanguage::En.repr() {
            Some(DbLanguage::En)
        } else if n == DbLanguage::Ja.repr() {
            Some(DbLanguage::Ja)
        } else {
            None
        },
        None => None,
    }
}

/// A text that may be absent, as its characters.
pub open spec fn value_view(value: Option<&str>) -> Option<Seq<char>> {
    match value {
        Some(v) => Some(v@),
        None => None,
    }
}

/// Reads the gender that the menu of genders reported.
pub fn read_gender(value: Option<&str>) -> (r: Option<DbGender>)
    ensures
        r == chosen_gender(value_view(value)),
{
    match value {
        Some(v) => match parse_i32(v) {
            Some(n) => DbGender::from_repr(n),
            None => None,
        },
        None => None,
    }
}

/// Reads the language that the menu of languages reported.
pub fn read_language(value: Option<&str>) -> (r: Option<DbLanguage>)
    ensures
        r == chosen_language(value_view(value)),
{
    match value {
        Some(v) => match parse_i32(v) {
            Some(n) => DbLanguage::from_repr(n),
            None => None,
        },
        None => None,
    }
}

/// The entry of the menu of genders for `gender`: shown under the gender's
/// name in `language`, reported as the gender's number, and marked where it
/// is `selected`.
pub open spec fn gender_option(
    gender: DbGender,
    language: DbLanguage,
    selected: DbGender,
) -> SelectOptionView {
    SelectOptionView {
        label: gender.to_string(language)@,
        value: decimal(gender.repr() as nat),
        selected: selected == gender,
    }
}

/// The menu of genders, with `selected` marked.
pub open spec fn gender_menu(language: DbLanguage, selected: DbGender) -> SelectMenuView {
    SelectMenuView {
        id: Ids::GenderSelect.as_str()@,
        placeholder: None,
        options: seq![
            gender_option(DbGender::M, language, selected),
            gender_option(DbGender::F, language, selected),
        ],
    }
}

/// The entry of the menu of languages for `shown`.
pub open spec fn language_option(
    shown: DbLanguage,
    language: DbLanguage,
    selected: DbLanguage,
) -> SelectOptionView {
    SelectOptionView {
        label: shown.to_string(language)@,
        value: decimal(shown.repr() as nat),
        selected: selected == shown,
    }
}

/// The menu of languages, with `selected` marked.
pub open spec fn language_menu(language: DbLanguage, selected: DbLanguage) -> SelectMenuView {
    SelectMenuView {
        id: Ids::LanguageSelect.as_str()@,
        placeholder: None,
        options: seq![
            language_option(DbLanguage::En, language, selected),
            language_option(DbLanguage::Ja, language, selected),
        ],
    }
}

/// The menu of genders in the language of `user`, with `selected` marked.
pub fn create_gender_menu(user: &DbUser, selected: DbGender) -> (r: SelectMenu)
    ensures
        r@ == gender_menu(user.language, selected),
{
    let all = DbGender::all();
    let mut options: Vec<SelectOption> = Vec::new();
    let mut i: usize = 0;
    while i < all.len()
        invariant
            i <= all.len(),
            all@ == seq![DbGender::M, DbGender::F],
            options.len() == i,
            forall|k: int|
                0 <= k < i ==> (#[trigger] options[k])@ == gender_option(
                    all[k],
                    user.language,
                    selected,
                ),
        decreases all.len() - i,
    {
        let gender = all[i];
        options.push(
            SelectOption {
                label: String::from_str(gender.for_user(user)),
                value: decimal_string(gender.repr() as u64),
                selected: selected == gender,
            },
        );
        i += 1;
    }
    assert(option_views(options@) =~= gender_menu(user.language, selected).options);
    SelectMenu { id: Ids::GenderSelect.as_str(), placeholder: None, options }
}

/// The menu of languages in the language of `user`, with `selected` marked.
pub fn create_language_menu(user: &DbUser, selected: DbLanguage) -> (r: SelectMenu)
    ensures
        r@ == language_menu(user.language, selected),
{
    let all = DbLanguage::all();
    let mut options: Vec<SelectOption> = Vec::new();
    let mut i: usize = 0;
    while i < all.len()
        invariant
            i <= all.len(),
            all@ == seq![DbLanguage::En, DbLanguage::Ja],
            options.len() == i,
            forall|k: int|
                0 <= k < i ==> (#[trigger] options[k])@ == language_option(
                    all[k],
                    user.language,
                    selected,
                ),
        decreases all.len() - i,
    {
        let shown = all[i];
        options.push(
            SelectOption {
                label: String::from_str(shown.for_user(user)),
                value: decimal_string(shown.repr() as u64),
                selected: selected == shown,
            },
        );
        i += 1;
    }
    assert(option_views(options@) =~= language_menu(user.language, selected).options);
    SelectMenu { id: Ids::LanguageSelect.as_str(), placeholder: None, options }
}

} // verus!
