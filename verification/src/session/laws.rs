//! What holds of every session, whatever events arrive.

use vstd::prelude::*;

use super::controller::{
    ActionView, SessionState, SessionView, SubmissionView, TransportFailure, MAX_EVENTS,
    SESSION_TIMEOUT,
};
use super::event::EventView;
use super::pager::{lemma_move_keeps_offset_valid, PageMove};
use super::target::{lemma_candidate_index, picked_member, CandidateView, TargetView};
use crate::id::UserId;

verus! {

/// Whether `event` is a move to a neighbouring page.
pub open spec fn is_page_move(event: EventView) -> bool {
    event is PagePrev || event is PageNext
}

/// Whether every event of `events` is a page move.
pub open spec fn all_page_moves(events: Seq<(EventView, u64)>) -> bool {
    forall|i: int| 0 <= i < events.len() ==> is_page_move(#[trigger] events[i].0)
}

/// Whether every event of `events` arrives before the time of `s` is exceeded.
pub open spec fn all_in_time(s: SessionView, events: Seq<(EventView, u64)>) -> bool {
    forall|i: int| 0 <= i < events.len() ==> s.elapsed(#[trigger] events[i].1) <= SESSION_TIMEOUT
}

/// Every step of the controller keeps a session well formed.
pub proof fn lemma_steps_keep_wf(
    s: SessionView,
    event: EventView,
    now: u64,
    candidates: Seq<CandidateView>,
    text: Option<Seq<char>>,
    failure: TransportFailure,
)
    requires
        s.wf(),
    ensures
        s.after_rendered().wf(),
        s.after_failure(failure).wf(),
        s.after_wait_check(now).wf(),
        s.after_wait_expired().wf(),
        s.handled(event, now, candidates).wf(),
        s.after_dialog(text).wf(),
{
    lemma_move_keeps_offset_valid(s.page_offset, s.catalog_len, PageMove::Prev);
    lemma_move_keeps_offset_valid(s.page_offset, s.catalog_len, PageMove::Next);
}

/// A session that is over stays as it is, whatever arrives.
pub proof fn lemma_terminal_states_absorb(
    s: SessionView,
    event: EventView,
    now: u64,
    candidates: Seq<CandidateView>,
    text: Option<Seq<char>>,
    failure: TransportFailure,
)
    requires
        s.state.is_terminal(),
    ensures
        s.after_rendered() == s,
        s.after_failure(failure) == s,
        s.after_wait_check(now) == s,
        s.after_wait_expired() == s,
        s.handled(event, now, candidates) == s,
        s.action_on(event, now) == ActionView::Nothing,
        s.after_dialog(text) == s,
        s.action_after_dialog(text) == ActionView::Nothing,
{
}

/// An event moves a session to `Submitted` only where it is a confirmation and
/// an item is chosen; the snapshot handed out then holds that item and the
/// target as they stand.
pub proof fn lemma_submitted_only_with_item(
    s: SessionView,
    event: EventView,
    now: u64,
    candidates: Seq<CandidateView>,
)
    requires
        s.state != SessionState::Submitted,
        s.handled(event, now, candidates).state == SessionState::Submitted,
    ensures
        event is Submit,
        s.selected_item is Some,
        s.action_on(event, now) == ActionView::Finish(
            SubmissionView { item: s.selected_item->0, target: s.selected_target },
        ),
        s.handled(event, now, candidates).selected_item == s.selected_item,
        s.handled(event, now, candidates).selected_target == s.selected_target,
{
}

/// No event, no answer of the dialog and no check of the time makes a session
/// fail: only a failure of the transport does.
pub proof fn lemma_failed_only_by_transport(
    s: SessionView,
    event: EventView,
    now: u64,
    candidates: Seq<CandidateView>,
    text: Option<Seq<char>>,
)
    requires
        !(s.state is Failed),
    ensures
        !(s.after_rendered().state is Failed),
        !(s.after_wait_check(now).state is Failed),
        !(s.after_wait_expired().state is Failed),
        !(s.handled(event, now, candidates).state is Failed),
        !(s.after_dialog(text).state is Failed),
{
}

/// A confirmation with no item chosen changes nothing in the dispatch: the
/// session goes back to awaiting events with its target, whatever that is,
/// and its page as they were.
pub proof fn lemma_submit_without_item_is_no_op(s: SessionView, candidates: Seq<CandidateView>)
    requires
        s.selected_item is None,
    ensures
        s.dispatched(EventView::Submit, candidates) == (SessionView {
            state: SessionState::AwaitingEvent,
            ..s
        }),
{
}

/// A confirmation with no item chosen, arriving while events and time are
/// left, leaves the session awaiting events: it is counted, the prompt is
/// rendered anew, and nothing else changes.
pub proof fn lemma_submit_without_item_keeps_waiting(
    s: SessionView,
    now: u64,
    candidates: Seq<CandidateView>,
)
    requires
        s.state == SessionState::AwaitingEvent,
        s.selected_item is None,
        s.may_process(now),
    ensures
        s.handled(EventView::Submit, now, candidates) == (SessionView {
            events_consumed: s.events_consumed + 1,
            ..s
        }),
        s.handled(EventView::Submit, now, candidates).state == SessionState::AwaitingEvent,
        s.action_on(EventView::Submit, now) == ActionView::Rerender,
{
}

/// A move to the next page, whenever it arrives, leaves the session on the
/// first page or on an offset that is a multiple of 25 inside the catalog.
pub proof fn lemma_next_page_stays_inside(
    s: SessionView,
    now: u64,
    candidates: Seq<CandidateView>,
)
    requires
        s.wf(),
    ensures
        match s.handled(EventView::PageNext, now, candidates).page_offset {
            None => true,
            Some(o) => o % 25 == 0 && o < s.catalog_len,
        },
        s.handled(EventView::PageNext, now, candidates).selected_item == s.selected_item,
        s.handled(EventView::PageNext, now, candidates).selected_target == s.selected_target,
{
}

/// A move to the previous page that is dispatched leaves the session on the
/// first page, written as no offset, or on an offset that is a multiple of 25,
/// at least 25 and inside the catalog. One that is not dispatched leaves the
/// page where it was.
pub proof fn lemma_prev_page_stays_inside(
    s: SessionView,
    now: u64,
    candidates: Seq<CandidateView>,
)
    requires
        s.wf(),
    ensures
        s.state == SessionState::AwaitingEvent && s.may_process(now) ==> match s.handled(
            EventView::PagePrev,
            now,
            candidates,
        ).page_offset {
            None => true,
            Some(o) => o % 25 == 0 && 25 <= o < s.catalog_len,
        },
        !(s.state == SessionState::AwaitingEvent && s.may_process(now)) ==> s.handled(
            EventView::PagePrev,
            now,
            candidates,
        ).page_offset == s.page_offset,
        s.handled(EventView::PagePrev, now, candidates).selected_item == s.selected_item,
        s.handled(EventView::PagePrev, now, candidates).selected_target == s.selected_target,
{
}

/// A member chosen and then a text typed into the dialog, each arriving while
/// events and time are left: the text alone is the target, and the session
/// awaits events again.
pub proof fn lemma_member_then_typed_text(
    s: SessionView,
    id: UserId,
    text: Seq<char>,
    chosen_at: u64,
    opened_at: u64,
    candidates: Seq<CandidateView>,
)
    requires
        s.wf(),
        s.state == SessionState::AwaitingEvent,
        s.events_consumed + 2 <= MAX_EVENTS,
        s.may_process(chosen_at),
        s.may_process(opened_at),
    ensures
        ({
            let opened = s.handled(
                EventView::TargetMemberSelected(id),
                chosen_at,
                candidates,
            ).handled(EventView::OpenTargetInputDialog, opened_at, candidates);
            let after = opened.after_dialog(Some(text));
            &&& opened.state == SessionState::AwaitingDialogResponse
            &&& after.state == SessionState::AwaitingEvent
            &&& after.selected_target == Some(TargetView::FreeText(text))
            &&& after.free_text_active()
            &&& !after.member_active()
            &&& after.selected_item == s.selected_item
            &&& after.page_offset == s.page_offset
        }),
{
}

/// A text typed into the dialog and then a member chosen whom the candidates
/// hold, each arriving while events and time are left: the member alone is
/// the target, under the name that the candidates give, and nothing is left
/// of the text.
pub proof fn lemma_typed_text_then_member(
    s: SessionView,
    id: UserId,
    text: Seq<char>,
    opened_at: u64,
    chosen_at: u64,
    candidates: Seq<CandidateView>,
)
    requires
        s.wf(),
        s.state == SessionState::AwaitingEvent,
        s.events_consumed + 2 <= MAX_EVENTS,
        s.may_process(opened_at),
        s.may_process(chosen_at),
        picked_member(candidates, id) is Some,
    ensures
        ({
            let after = s.handled(
                EventView::OpenTargetInputDialog,
                opened_at,
                candidates,
            ).after_dialog(Some(text)).handled(
                EventView::TargetMemberSelected(id),
                chosen_at,
                candidates,
            );
            &&& after.state == SessionState::AwaitingEvent
            &&& after.selected_target == picked_member(candidates, id)
            &&& after.selected_target matches Some(TargetView::Member { id: chosen, .. })
                && chosen == id
            &&& after.member_active()
            &&& !after.free_text_active()
            &&& after.selected_item == s.selected_item
            &&& after.page_offset == s.page_offset
        }),
{
}

/// A session never holds a target of both kinds.
pub proof fn lemma_target_kinds_exclude_each_other(s: SessionView)
    ensures
        !(s.member_active() && s.free_text_active()),
        s.selected_target is Some ==> (s.member_active() || s.free_text_active()),
{
}

/// After a member and then a typed text, the text alone is the target; after
/// a typed text and then a member that the candidates hold, the member alone
/// is. Either way exactly one kind of target is active.
pub proof fn lemma_later_target_replaces_earlier(
    s: SessionView,
    id: UserId,
    text: Seq<char>,
    candidates: Seq<CandidateView>,
)
    ensures
        ({
            let after = s.dispatched(EventView::TargetMemberSelected(id), candidates).dispatched(
                EventView::TargetTextSubmitted(text),
                candidates,
            );
            &&& after.selected_target == Some(TargetView::FreeText(text))
            &&& after.free_text_active()
            &&& !after.member_active()
        }),
        ({
            let after = SessionView {
                state: SessionState::AwaitingDialogResponse,
                ..s.dispatched(EventView::TargetMemberSelected(id), candidates)
            }.after_dialog(Some(text));
            &&& after.selected_target == Some(TargetView::FreeText(text))
            &&& after.free_text_active()
            &&& !after.member_active()
        }),
        picked_member(candidates, id) is Some ==> ({
            let after = s.dispatched(EventView::TargetTextSubmitted(text), candidates).dispatched(
                EventView::TargetMemberSelected(id),
                candidates,
            );
            &&& after.selected_target == picked_member(candidates, id)
            &&& after.member_active()
            &&& !after.free_text_active()
        }),
{
}

/// A member that the candidates do not hold leaves the target as it was.
pub proof fn lemma_unknown_member_changes_nothing(
    s: SessionView,
    id: UserId,
    candidates: Seq<CandidateView>,
)
    requires
        forall|k: int| 0 <= k < candidates.len() ==> candidates[k].id != id,
    ensures
        s.dispatched(EventView::TargetMemberSelected(id), candidates).selected_target
            == s.selected_target,
{
    lemma_candidate_index(candidates, id);
}

/// Events that arrive one run after another come to the same session as the
/// same events in one run.
pub proof fn lemma_run_in_two_parts(
    s: SessionView,
    first: Seq<(EventView, u64)>,
    second: Seq<(EventView, u64)>,
    candidates: Seq<CandidateView>,
)
    ensures
        s.run(first + second, candidates) == s.run(first, candidates).run(second, candidates),
    decreases second.len(),
{
    if second.len() == 0 {
        assert(first + second =~= first);
    } else {
        lemma_run_in_two_parts(s, first, second.drop_last(), candidates);
        assert((first + second).drop_last() =~= first + second.drop_last());
        assert((first + second).last() == second.last());
    }
}

/// Page moves that arrive in time, and in a number that the session still has,
/// change the page and the count of events and nothing else.
pub proof fn lemma_page_moves_keep_selection(
    s: SessionView,
    moves: Seq<(EventView, u64)>,
    candidates: Seq<CandidateView>,
)
    requires
        s.wf(),
        s.state == SessionState::AwaitingEvent,
        all_page_moves(moves),
        all_in_time(s, moves),
        s.events_consumed + moves.len() <= MAX_EVENTS,
    ensures
        s.run(moves, candidates) == (SessionView {
            page_offset: s.run(moves, candidates).page_offset,
            events_consumed: s.events_consumed + moves.len(),
            ..s
        }),
        s.run(moves, candidates).wf(),
    decreases moves.len(),
{
    if moves.len() > 0 {
        let before = moves.drop_last();
        assert forall|i: int| 0 <= i < before.len() implies is_page_move(
            #[trigger] before[i].0,
        ) by {
            assert(before[i] == moves[i]);
        }
        assert forall|i: int| 0 <= i < before.len() implies s.elapsed(#[trigger] before[i].1)
            <= SESSION_TIMEOUT by {
            assert(before[i] == moves[i]);
        }
        lemma_page_moves_keep_selection(s, before, candidates);
        let mid = s.run(before, candidates);
        assert(is_page_move(moves[moves.len() - 1].0));
        assert(s.elapsed(moves[moves.len() - 1].1) <= SESSION_TIMEOUT);
        assert(mid.elapsed(moves.last().1) == s.elapsed(moves.last().1));
        lemma_move_keeps_offset_valid(mid.page_offset, mid.catalog_len, PageMove::Prev);
        lemma_move_keeps_offset_valid(mid.page_offset, mid.catalog_len, PageMove::Next);
    }
}

/// A session that receives one choice of an item and then a confirmation ends
/// submitted with that item and no target, whatever page moves arrive before
/// the choice and between the choice and the confirmation, as long as all of
/// them arrive in time and are no more than the session may consume.
pub proof fn lemma_item_then_submit_is_submitted(
    id: u64,
    catalog_len: nat,
    started_at: u64,
    before: Seq<(EventView, u64)>,
    item: Seq<char>,
    chosen_at: u64,
    between: Seq<(EventView, u64)>,
    submitted_at: u64,
    candidates: Seq<CandidateView>,
)
    requires
        catalog_len <= usize::MAX,
        all_page_moves(before),
        all_page_moves(between),
        before.len() + between.len() + 2 <= MAX_EVENTS,
        ({
            let s = SessionView::fresh(id, catalog_len, started_at).after_rendered();
            &&& all_in_time(s, before)
            &&& all_in_time(s, between)
            &&& s.elapsed(chosen_at) <= SESSION_TIMEOUT
            &&& s.elapsed(submitted_at) <= SESSION_TIMEOUT
        }),
    ensures
        ({
            let s = SessionView::fresh(id, catalog_len, started_at).after_rendered();
            let events = before + seq![(EventView::ItemSelected(item), chosen_at)] + between;
            let last = s.run(events, candidates);
            let end = last.handled(EventView::Submit, submitted_at, candidates);
            &&& end == s.run(events + seq![(EventView::Submit, submitted_at)], candidates)
            &&& end.state == SessionState::Submitted
            &&& end.selected_item == Some(item)
            &&& end.selected_target is None
            &&& last.action_on(EventView::Submit, submitted_at) == ActionView::Finish(
                SubmissionView { item, target: None },
            )
        }),
{
    let s = SessionView::fresh(id, catalog_len, started_at).after_rendered();
    let choice = seq![(EventView::ItemSelected(item), chosen_at)];
    let events = before + choice + between;
    lemma_page_moves_keep_selection(s, before, candidates);
    let s1 = s.run(before, candidates);
    assert(s1.elapsed(chosen_at) == s.elapsed(chosen_at));
    assert(choice.drop_last() =~= Seq::<(EventView, u64)>::empty());
    assert(s1.run(choice.drop_last(), candidates) == s1);
    let s2 = s1.run(choice, candidates);
    assert(s2 == s1.handled(EventView::ItemSelected(item), chosen_at, candidates));
    lemma_run_in_two_parts(s, before, choice, candidates);
    assert forall|i: int| 0 <= i < between.len() implies s2.elapsed(#[trigger] between[i].1)
        <= SESSION_TIMEOUT by {
        assert(s2.elapsed(between[i].1) == s.elapsed(between[i].1));
    }
    lemma_page_moves_keep_selection(s2, between, candidates);
    lemma_run_in_two_parts(s, before + choice, between, candidates);
    let last = s.run(events, candidates);
    assert(last == s2.run(between, candidates));
    assert(last.elapsed(submitted_at) == s.elapsed(submitted_at));
    let closing = seq![(EventView::Submit, submitted_at)];
    assert(closing.drop_last() =~= Seq::<(EventView, u64)>::empty());
    assert(last.run(closing.drop_last(), candidates) == last);
    lemma_run_in_two_parts(s, events, closing, candidates);
}

/// A session that awaits events and receives none times out: the wait that
/// ends without an event ends the session, and so does the check made once
/// the session's time is up. The same check ends a session that has consumed
/// all its events.
pub proof fn lemma_silence_times_out(s: SessionView, now: u64)
    requires
        s.state == SessionState::AwaitingEvent,
    ensures
        s.after_wait_expired().state == SessionState::TimedOut,
        s.elapsed(now) >= SESSION_TIMEOUT ==> s.after_wait_check(now).state
            == SessionState::TimedOut,
        s.events_consumed >= MAX_EVENTS ==> s.after_wait_check(now).state
            == SessionState::TimedOut,
        s.may_wait(now) ==> s.after_wait_check(now) == s && 0 < s.time_left(now)
            <= SESSION_TIMEOUT,
{
}

/// A new session whose first prompt is up and that receives nothing until its
/// time has run times out.
pub proof fn lemma_fresh_session_times_out(id: u64, catalog_len: nat, started_at: u64, now: u64)
    requires
        now - started_at >= SESSION_TIMEOUT,
    ensures
        SessionView::fresh(id, catalog_len, started_at).after_rendered().after_wait_check(
            now,
        ).state == SessionState::TimedOut,
        SessionView::fresh(id, catalog_len, started_at).after_rendered().after_wait_expired().state
            == SessionState::TimedOut,
{
}

} // verus!
