//! The message composer: turns an emote, the one who sends it and the one it
//! is sent to into the text of a message.
//!
//! The text comes from the emote's log message, a template of the game. The
//! composer picks the template and names the two sides; reading the template
//! and filling it in is the template engine's work.

use vstd::prelude::*;
use vstd::string::*;
use xiv_emote_parser::log_message::condition::{Character, Gender, LogMessageAnswers};
use xiv_emote_parser::log_message::process_log_message;

use super::repository::Handler;
use super::{
    ConditionTextPair, ConditionTextPairView, EmoteData, EmoteDataView, HandlerError,
    HandlerErrorView,
};
use crate::db::models::{DbGender, DbLanguage, DbUser};
use crate::id::UserId;
use crate::session::target::{mention, mention_text, target_text, Target, TargetView};

verus! {

/// One side of a message, as the template engine is told of it.
#[derive(Debug, PartialEq, Eq)]
pub struct Identity {
    /// The text that stands for this side in the message.
    pub name: String,
    /// The gender that the message uses for this side.
    pub gender: DbGender,
    /// Whether this side is a player.
    pub is_pc: bool,
    /// Whether this side is the reader of the message.
    pub is_self: bool,
}

/// What contracts say of an [`Identity`].
pub struct IdentityView {
    pub name: Seq<char>,
    pub gender: DbGender,
    pub is_pc: bool,
    pub is_self: bool,
}

impl View for Identity {
    type V = IdentityView;

    open spec fn view(&self) -> IdentityView {
        IdentityView {
            name: self.name@,
            gender: self.gender,
            is_pc: self.is_pc,
            is_self: self.is_self,
        }
    }
}

/// The name of the one who stands in for the target of a message that has
/// none.
#[verifier::allow_in_spec]
pub fn untargeted_name() -> &'static str
    returns
        "Godbert Manderville",
{
    "Godbert Manderville"
}

/// The identity that stands in for the target of a message that has none. A
/// log message for use without a target should not name its target; where one
/// does, this name appears.
pub open spec fn untargeted_target_view() -> IdentityView {
    IdentityView { name: untargeted_name()@, gender: DbGender::M, is_pc: false, is_self: false }
}

/// The identity that stands in for the target of a message that has none.
pub fn untargeted_target() -> (r: Identity)
    ensures
        r@ == untargeted_target_view(),
{
    Identity {
        name: String::from_str(untargeted_name()),
        gender: DbGender::M,
        is_pc: false,
        is_self: false,
    }
}

/// The identity of the one who sends: a player, named by `name`, who is not
/// the reader.
pub open spec fn origin_identity_view(name: Seq<char>, gender: DbGender) -> IdentityView {
    IdentityView { name, gender, is_pc: true, is_self: false }
}

/// The identity of the one a message is sent to: a player, named by `name`,
/// who is not the reader; or the stand-in where there is no target.
pub open spec fn target_identity_view(name: Option<Seq<char>>) -> IdentityView {
    match name {
        Some(n) => IdentityView { name: n, gender: DbGender::M, is_pc: true, is_self: false },
        None => untargeted_target_view(),
    }
}

/// Whether the template engine refuses the two identities: both claim to be
/// the reader, and they differ.
pub open spec fn multiple_selves(origin: IdentityView, target: IdentityView) -> bool {
    origin.is_self && target.is_self && origin != target
}

/// The text that the template engine makes of `template` for the two
/// identities, where it gives one.
pub uninterp spec fn engine_text(
    template: Seq<char>,
    origin: IdentityView,
    target: IdentityView,
) -> Seq<char>;

/// What the template engine reported instead of a text.
#[derive(Clone, Copy, Debug, PartialEq, Eq, Structural)]
pub enum EngineError {
    /// It refused the identities.
    Answers,
    /// It could not read the template.
    Text,
}

/// A text or an error, with the text as its characters.
pub open spec fn text_result_view<E>(r: Result<String, E>) -> Result<Seq<char>, E> {
    match r {
        Ok(text) => Ok(text@),
        Err(e) => Err(e),
    }
}

/// Hands a template and the two identities to the template engine.
///
/// Builds the engine's `Character` for each identity with
/// `Character::new_from_string`, from the identity's name, gender and flags;
/// joins the two with `LogMessageAnswers::new`; and calls
/// `process_log_message` on the template. The contract states, of
/// `LogMessageAnswers::new`, what its source shows: it fails exactly where
/// both characters are marked as the reader and differ. Of
/// `process_log_message` it states that a text it gives depends on the
/// template and the two characters alone. When it fails is not stated: its
/// parser gives up where little stack is left or a set limit of calls is
/// passed, which the template does not decide.
#[verifier::external_body]
fn engine_process(template: &str, origin: &Identity, target: &Identity) -> (r: Result<String, EngineError>)
    ensures
        match r {
            Ok(text) => !multiple_selves(origin@, target@) && text@ == engine_text(
                template@,
                origin@,
                target@,
            ),
            Err(EngineError::Answers) => multiple_selves(origin@, target@),
            Err(EngineError::Text) => !multiple_selves(origin@, target@),
        },
{
    let gender = |g: DbGender| match g {
        DbGender::M => Gender::Male,
        DbGender::F => Gender::Female,
    };
    let o = Character::new_from_string(origin.name.clone(), gender(origin.gender), origin.is_pc, origin.is_self);
    let t = Character::new_from_string(target.name.clone(), gender(target.gender), target.is_pc, target.is_self);
    match LogMessageAnswers::new(o, t) {
        Ok(answers) => process_log_message(template, &answers).map_err(|_| EngineError::Text),
        Err(_) => Err(EngineError::Answers),
    }
}

/// The error that the library reports for what the engine reported.
pub open spec fn surfaced(error: EngineError) -> HandlerErrorView {
    match error {
        EngineError::Answers => HandlerErrorView::Answers,
        EngineError::Text => HandlerErrorView::Extract,
    }
}

/// A text or an error, as contracts see it.
pub open spec fn message_view(r: Result<String, HandlerError>) -> Result<
    Seq<char>,
    HandlerErrorView,
> {
    match r {
        Ok(text) => Ok(text@),
        Err(e) => Err(e@),
    }
}

/// What the composer returns for what the engine gave: the engine's text as it
/// is, and each of its errors as the library's error of the same kind.
pub open spec fn surfaced_result(engine: Result<Seq<char>, EngineError>) -> Result<
    Seq<char>,
    HandlerErrorView,
> {
    match engine {
        Ok(text) => Ok(text),
        Err(e) => Err(surfaced(e)),
    }
}

/// Passes on what the engine gave: its text unchanged, or its error.
pub fn surface_engine_result(engine: Result<String, EngineError>) -> (r: Result<
    String,
    HandlerError,
>)
    ensures
        message_view(r) == surfaced_result(text_result_view(engine)),
{
    match engine {
        Ok(text) => Ok(text),
        Err(EngineError::Answers) => Err(HandlerError::Answers),
        Err(EngineError::Text) => Err(HandlerError::Extract),
    }
}

impl DbLanguage {
    /// The log messages of `emote_data` in this language.
    pub fn with_emote_data<'a>(&'a self, emote_data: &'a EmoteData) -> (r: &'a ConditionTextPair)
        ensures
            r@ == localized_pair(emote_data@, *self),
    {
        match self {
            DbLanguage::En => &emote_data.en,
            DbLanguage::Ja => &emote_data.ja,
        }
    }
}

/// The log messages of `emote` in `language`.
pub open spec fn localized_pair(emote: EmoteDataView, language: DbLanguage) -> ConditionTextPairView {
    match language {
        DbLanguage::En => emote.en,
        DbLanguage::Ja => emote.ja,
    }
}

/// The template that a message is made from: the one for use with a target
/// where there is a target, the one for use without where there is none.
pub open spec fn chosen_template(pair: ConditionTextPairView, targeted: bool) -> Seq<char> {
    if targeted {
        pair.targeted
    } else {
        pair.untargeted
    }
}

/// Whether `outcome` may be the message for a template of `pair`, chosen by
/// `targeted`, between `origin` and the target named `target`.
///
/// A template for use with a target and no target to name is the one case
/// that the composer itself refuses, and then nothing else is returned.
/// Otherwise the identities are handed to the engine, with the stand-in as
/// target where there is none. Identities that both claim to be the reader,
/// and differ, are refused as such, and no others are. A text is the one that
/// the engine makes of the template for the two. Whether the engine manages
/// to read a template is its own affair: it may be reported as unreadable
/// whenever the identities are in order.
pub open spec fn template_message(
    pair: ConditionTextPairView,
    targeted: bool,
    origin: IdentityView,
    target: Option<Seq<char>>,
    outcome: Result<Seq<char>, HandlerErrorView>,
) -> bool {
    if targeted && target is None {
        outcome == Err::<Seq<char>, HandlerErrorView>(HandlerErrorView::TargetNone)
    } else {
        let template = chosen_template(pair, targeted);
        let target = target_identity_view(target);
        match outcome {
            Ok(text) => !multiple_selves(origin, target) && text == engine_text(
                template,
                origin,
                target,
            ),
            Err(HandlerErrorView::Answers) => multiple_selves(origin, target),
            Err(HandlerErrorView::Extract) => !multiple_selves(origin, target),
            Err(_) => false,
        }
    }
}

/// What [`template_message`] admits, case by case: the refusal of a missing
/// target exactly where the template needs one and none is given; else the
/// refusal of two readers exactly where both identities claim to be the
/// reader and differ; else the engine's text, or the report that the template
/// could not be read.
pub proof fn lemma_template_message(
    pair: ConditionTextPairView,
    targeted: bool,
    origin: IdentityView,
    target: Option<Seq<char>>,
    outcome: Result<Seq<char>, HandlerErrorView>,
)
    requires
        template_message(pair, targeted, origin, target, outcome),
    ensures
        outcome == Err::<Seq<char>, HandlerErrorView>(HandlerErrorView::TargetNone) <==> targeted
            && target is None,
        outcome == Err::<Seq<char>, HandlerErrorView>(HandlerErrorView::Answers) <==> !(targeted
            && target is None) && multiple_selves(origin, target_identity_view(target)),
        !(targeted && target is None) && !multiple_selves(origin, target_identity_view(target))
            ==> outcome == Err::<Seq<char>, HandlerErrorView>(HandlerErrorView::Extract)
            || outcome == Ok::<Seq<char>, HandlerErrorView>(
            engine_text(chosen_template(pair, targeted), origin, target_identity_view(target)),
        ),
{
}

/// Fills in one template of `pair`: the one for use with a target where
/// `targeted`, the other where not.
pub fn fill_template(
    pair: &ConditionTextPair,
    targeted: bool,
    origin: &Identity,
    target: Option<&str>,
) -> (r: Result<String, HandlerError>)
    ensures
        template_message(
            pair@,
            targeted,
            origin@,
            match target {
                Some(t) => Some(t@),
                None => None,
            },
            message_view(r),
        ),
{
    let template = if targeted {
        &pair.targeted
    } else {
        &pair.untargeted
    };
    let target_identity = match target {
        Some(name) => Identity {
            name: String::from_str(name),
            gender: DbGender::M,
            is_pc: true,
            is_self: false,
        },
        None => {
            if targeted {
                return Err(HandlerError::TargetNone);
            }
            untargeted_target()
        },
    };
    let ghost named = match target {
        Some(t) => Some(t@),
        None => None,
    };
    let engine = engine_process(template.as_str(), origin, &target_identity);
    proof {
        assert(template@ == chosen_template(pair@, targeted));
        assert(target_identity@ == target_identity_view(named));
    }
    surface_engine_result(engine)
}

/// Whether `outcome` may be the message that `compose` makes.
///
/// The template is the one for use with a target exactly where there is a
/// target, so the composer never reports a missing target.
pub open spec fn composed(
    emote: EmoteDataView,
    language: DbLanguage,
    origin: IdentityView,
    target: Option<Seq<char>>,
    outcome: Result<Seq<char>, HandlerErrorView>,
) -> bool {
    template_message(localized_pair(emote, language), target is Some, origin, target, outcome)
}

/// The text of a target that may be absent.
pub open spec fn target_name(target: Option<TargetView>) -> Option<Seq<char>> {
    match target {
        Some(t) => Some(target_text(t)),
        None => None,
    }
}

/// Composes the message for `emote` in `language`, from `origin` to `target`.
///
/// With a target the message comes from the log message for use with a
/// target, and names the target by its text; without one it comes from the
/// log message for use without.
pub fn compose(
    emote: &EmoteData,
    language: DbLanguage,
    origin: &Identity,
    target: Option<&Target>,
) -> (r: Result<String, HandlerError>)
    ensures
        composed(
            emote@,
            language,
            origin@,
            target_name(
                match target {
                    Some(t) => Some(t@),
                    None => None,
                },
            ),
            message_view(r),
        ),
        !(message_view(r) matches Err(HandlerErrorView::TargetNone)),
{
    let pair = language.with_emote_data(emote);
    match target {
        Some(t) => {
            let name = t.to_string();
            fill_template(pair, true, origin, Some(name.as_str()))
        },
        None => fill_template(pair, false, origin, None),
    }
}

/// The message that `author` sends with `emote`, to `target` where there is
/// one, in the language and with the gender of `user`.
///
/// The author is named by mention and takes part as a player who is not the
/// reader; so does the target, named by the text given.
pub fn build_emote_message(
    emote: &EmoteData,
    user: &DbUser,
    author: UserId,
    target: Option<&str>,
) -> (r: Result<String, HandlerError>)
    ensures
        composed(
            emote@,
            user.language,
            origin_identity_view(mention_text(author), user.gender),
            match target {
                Some(t) => Some(t@),
                None => None,
            },
            message_view(r),
        ),
        !(message_view(r) matches Err(HandlerErrorView::TargetNone)),
        !(message_view(r) matches Err(HandlerErrorView::Answers)),
{
    let origin = Identity {
        name: mention(author),
        gender: user.gender,
        is_pc: true,
        is_self: false,
    };
    let pair = user.language.with_emote_data(emote);
    fill_template(pair, target.is_some(), &origin, target)
}

impl Handler {
    /// The message that `author_mentionable` sends with `emote`, to `target`
    /// where there is one, in the language and with the gender of `user`.
    pub fn build_emote_message(
        &self,
        emote: &EmoteData,
        user: &DbUser,
        author_mentionable: UserId,
        target: Option<&str>,
    ) -> (r: Result<String, HandlerError>)
        ensures
            composed(
                emote@,
                user.language,
                origin_identity_view(mention_text(author_mentionable), user.gender),
                match target {
                    Some(t) => Some(t@),
                    None => None,
                },
                message_view(r),
            ),
            !(message_view(r) matches Err(HandlerErrorView::TargetNone)),
            !(message_view(r) matches Err(HandlerErrorView::Answers)),
    {
        build_emote_message(emote, user, author_mentionable, target)
    }
}

/// Without a target the composer uses the log message for use without one
/// and hands the engine the stand-in as target: a message that it returns is
/// the engine's text for these, and it never reports a missing target,
/// whatever the emote, the language and the origin.
pub proof fn lemma_untargeted_message(
    emote: EmoteDataView,
    language: DbLanguage,
    origin: IdentityView,
    outcome: Result<Seq<char>, HandlerErrorView>,
)
    requires
        composed(emote, language, origin, None, outcome),
    ensures
        outcome is Ok ==> outcome->Ok_0 == engine_text(
            localized_pair(emote, language).untargeted,
            origin,
            untargeted_target_view(),
        ),
        outcome is Err ==> outcome->Err_0 == HandlerErrorView::Extract || (outcome->Err_0
            == HandlerErrorView::Answers && origin.is_self),
        !(outcome matches Err(HandlerErrorView::TargetNone)),
{
}

/// With a target the composer uses the log message for use with one and names
/// the target by the text given: a message that it returns is the engine's
/// text for these, and it never reports a missing target.
pub proof fn lemma_targeted_message(
    emote: EmoteDataView,
    language: DbLanguage,
    origin: IdentityView,
    target: Seq<char>,
    outcome: Result<Seq<char>, HandlerErrorView>,
)
    requires
        composed(emote, language, origin, Some(target), outcome),
    ensures
        outcome is Ok ==> outcome->Ok_0 == engine_text(
            localized_pair(emote, language).targeted,
            origin,
            target_identity_view(Some(target)),
        ),
        !(outcome matches Err(HandlerErrorView::TargetNone)),
        !(outcome matches Err(HandlerErrorView::Answers)),
{
}

} // verus!
