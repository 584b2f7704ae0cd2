//! The target resolver: whom, if anyone, the chosen item is addressed to.
//!
//! A target is either a member picked from the candidates, or a text typed
//! into the dialog. A session holds at most one: a new target of either kind
//! takes the place of the one before it.

use serenity::model::mention::Mentionable;
use vstd::prelude::*;
use vstd::string::*;

use crate::commands::global::emote_select::no_user_selected;
use crate::db::models::{DbUser, DbUserView};
use crate::id::UserId;
use crate::text::decimal;

verus! {

/// Someone who can be addressed in the session's context.
#[derive(Debug, PartialEq, Eq)]
pub struct Candidate {
    pub id: UserId,
    pub display_name: String,
}

/// What contracts say of a [`Candidate`].
pub struct CandidateView {
    pub id: UserId,
    pub display_name: Seq<char>,
}

impl View for Candidate {
    type V = CandidateView;

    open spec fn view(&self) -> CandidateView {
        CandidateView { id: self.id, display_name: self.display_name@ }
    }
}

/// The views of a list of candidates, in order.
pub open spec fn candidate_views(candidates: Seq<Candidate>) -> Seq<CandidateView> {
    Seq::new(candidates.len(), |i: int| candidates[i]@)
}

/// Those who can be addressed: the members of the guild where the session
/// runs in one, and otherwise the two sides of the conversation, the one who
/// called the prompt before the bot.
pub open spec fn candidates_for(
    members: Option<Seq<CandidateView>>,
    caller: CandidateView,
    bot: CandidateView,
) -> Seq<CandidateView> {
    match members {
        Some(list) => list,
        None => seq![caller, bot],
    }
}

/// Those who can be addressed in a session: `members` where the session runs
/// in a guild, and `caller` and `bot` where it does not.
pub fn candidate_list(members: Option<Vec<Candidate>>, caller: Candidate, bot: Candidate) -> (r: Vec<
    Candidate,
>)
    ensures
        candidate_views(r@) == candidates_for(
            match members {
                Some(list) => Some(candidate_views(list@)),
                None => None,
            },
            caller@,
            bot@,
        ),
{
    match members {
        Some(list) => list,
        None => {
            let mut both = Vec::new();
            both.push(caller);
            both.push(bot);
            assert(candidate_views(both@) =~= seq![caller@, bot@]);
            both
        },
    }
}

/// The resolved recipient of the message.
#[derive(Debug, PartialEq, Eq)]
pub enum Target {
    /// A member picked from the candidates.
    Member { id: UserId, display_name: String },
    /// A text typed into the dialog.
    FreeText(String),
}

/// What contracts say of a [`Target`].
pub enum TargetView {
    Member { id: UserId, display_name: Seq<char> },
    FreeText(Seq<char>),
}

impl View for Target {
    type V = TargetView;

    open spec fn view(&self) -> TargetView {
        match self {
            Target::Member { id, display_name } => TargetView::Member {
                id: *id,
                display_name: display_name@,
            },
            Target::FreeText(text) => TargetView::FreeText(text@),
        }
    }
}

/// A target that may be absent, as contracts see it.
pub open spec fn target_view(target: Option<Target>) -> Option<TargetView> {
    match target {
        Some(t) => Some(t@),
        None => None,
    }
}

impl Clone for Target {
    fn clone(&self) -> (r: Target)
        ensures
            r@ == self@,
    {
        match self {
            Target::Member { id, display_name } => Target::Member {
                id: *id,
                display_name: display_name.clone(),
            },
            Target::FreeText(text) => Target::FreeText(text.clone()),
        }
    }
}

/// How a user is mentioned in a message: the user's number between `<@` and
/// `>`.
pub open spec fn mention_text(id: UserId) -> Seq<char> {
    seq!['<', '@'] + decimal(id.0 as nat) + seq!['>']
}

/// The mention of a user, as serenity writes it.
///
/// Calls `Mentionable::mention` on serenity's `UserId` and formats the
/// `Mention` it gives. The contract states the format that serenity's
/// `Display` for `Mention::User` writes: `<@`, the number in decimal, `>`.
#[verifier::external_body]
fn user_mention(id: UserId) -> (r: String)
    ensures
        r@ == mention_text(id),
{
    serenity::model::id::UserId(id.0).mention().to_string()
}

/// The mention of the user numbered `id`, as it stands in a message.
pub fn mention(id: UserId) -> (r: String)
    ensures
        r@ == mention_text(id),
{
    user_mention(id)
}

/// The text that stands for `target`: a member's mention, or the typed text.
pub open spec fn target_text(target: TargetView) -> Seq<char> {
    match target {
        TargetView::Member { id, display_name } => mention_text(id),
        TargetView::FreeText(text) => text,
    }
}

/// The text shown for a target that may be absent: where there is none, the
/// placeholder in the language of `user`.
pub open spec fn shown_target_text(target: Option<TargetView>, user: DbUserView) -> Seq<char> {
    match target {
        Some(t) => target_text(t),
        None => no_user_selected().in_language(user.language),
    }
}

impl Target {
    /// The member's number, where the target is a member.
    pub fn user_id(&self) -> (r: Option<UserId>)
        ensures
            r == match self@ {
                TargetView::Member { id, display_name } => Some(id),
                TargetView::FreeText(text) => None,
            },
    {
        match self {
            Target::Member { id, display_name } => Some(*id),
            Target::FreeText(_) => None,
        }
    }

    /// The text that stands for the target in a message.
    pub fn to_string(&self) -> (r: String)
        ensures
            r@ == target_text(self@),
    {
        match self {
            Target::Member { id, display_name } => mention(*id),
            Target::FreeText(text) => text.clone(),
        }
    }
}

/// The text shown for `target` in a prompt. The placeholder that stands for an
/// absent target is for the prompt only: it never enters a message.
pub fn display_text(target: Option<&Target>, user: &DbUser) -> (r: String)
    ensures
        r@ == shown_target_text(
            match target {
                Some(t) => Some(t@),
                None => None,
            },
            user@,
        ),
{
    match target {
        Some(t) => t.to_string(),
        None => String::from_str(no_user_selected().for_user(user)),
    }
}

/// The place of the first candidate with the number `id`, if there is one.
pub open spec fn candidate_index(candidates: Seq<CandidateView>, id: UserId) -> Option<int>
    decreases candidates.len(),
{
    if candidates.len() == 0 {
        None
    } else if candidates[0].id == id {
        Some(0)
    } else {
        match candidate_index(candidates.drop_first(), id) {
            Some(i) => Some(i + 1),
            None => None,
        }
    }
}

/// The member target that picking `id` from `candidates` resolves to: the
/// first candidate with that number, with the name it is shown under.
pub open spec fn picked_member(candidates: Seq<CandidateView>, id: UserId) -> Option<TargetView> {
    match candidate_index(candidates, id) {
        Some(i) => Some(TargetView::Member { id, display_name: candidates[i].display_name }),
        None => None,
    }
}

/// What [`candidate_index`] finds: the first place that holds `id`, or nothing
/// where no place does.
pub proof fn lemma_candidate_index(candidates: Seq<CandidateView>, id: UserId)
    ensures
        match candidate_index(candidates, id) {
            Some(i) => 0 <= i < candidates.len() && candidates[i].id == id && forall|k: int|
                0 <= k < i ==> candidates[k].id != id,
            None => forall|k: int| 0 <= k < candidates.len() ==> candidates[k].id != id,
        },
    decreases candidates.len(),
{
    if candidates.len() > 0 && candidates[0].id != id {
        let rest = candidates.drop_first();
        lemma_candidate_index(rest, id);
        match candidate_index(rest, id) {
            Some(i) => {
                assert forall|k: int| 0 <= k < i + 1 implies candidates[k].id != id by {
                    if k > 0 {
                        assert(rest[k - 1].id != id);
                    }
                }
            },
            None => {
                assert forall|k: int| 0 <= k < candidates.len() implies candidates[k].id != id by {
                    if k > 0 {
                        assert(rest[k - 1].id != id);
                    }
                }
            },
        }
    }
}

/// Resolves the choice of the candidate numbered `id`.
///
/// Gives the member target for the first candidate with that number, and
/// nothing where the candidates hold no such number.
pub fn pick_member(candidates: &[Candidate], id: UserId) -> (r: Option<Target>)
    ensures
        target_view(r) == picked_member(candidate_views(candidates@), id),
{
    let ghost views = candidate_views(candidates@);
    proof {
        lemma_candidate_index(views, id);
    }
    let mut i: usize = 0;
    while i < candidates.len()
        invariant
            i <= candidates.len(),
            views == candidate_views(candidates@),
            forall|k: int| 0 <= k < i ==> views[k].id != id,
        decreases candidates.len() - i,
    {
        if candidates[i].id.0 == id.0 {
            proof {
                lemma_candidate_index(views, id);
                assert(views[i as int].id == id);
            }
            return Some(
                Target::Member { id, display_name: candidates[i].display_name.clone() },
            );
        }
        i += 1;
    }
    None
}

/// Resolves a text typed into the dialog.
pub fn free_text(text: String) -> (r: Target)
    ensures
        r@ == TargetView::FreeText(text@),
{
    Target::FreeText(text)
}

} // verus!
