//! The session controller: one run of the selection prompt, from its first
//! rendering to its end.
//!
//! The controller decides; it performs no input or output. Its caller posts
//! the prompt, waits for events and hands each one in, and does what the
//! [`Action`] that comes back says. A session is over once it is submitted,
//! has timed out or has failed: whatever arrives after that changes nothing.

use vstd::prelude::*;

use super::event::{Event, EventView};
use super::pager::{next_offset, page_next, page_prev, prev_offset, valid_offset};
use super::target::{
    candidate_views, free_text, pick_member, picked_member, target_view, Candidate, CandidateView,
    Target, TargetView,
};
use crate::handler::{HandlerError, HandlerErrorView};

verus! {

/// Seconds that a session may last.
pub const SESSION_TIMEOUT: u64 = 60;

/// Number of events that a session may consume.
pub const MAX_EVENTS: u32 = 20;

/// The step of the transport that failed.
#[derive(Clone, Copy, Debug, PartialEq, Eq, Structural)]
pub enum TransportFailure {
    /// The first prompt could not be posted.
    Render,
    /// The prompt could not be replaced.
    Update,
    /// The dialog could not be opened.
    Dialog,
}

/// Where a session stands.
#[derive(Clone, Copy, Debug, PartialEq, Eq, Structural)]
pub enum SessionState {
    /// The first prompt is being posted.
    Rendering,
    /// The prompt is up and the next event is awaited.
    AwaitingEvent,
    /// An event is being dispatched.
    ProcessingEvent,
    /// The dialog is open and its answer is awaited.
    AwaitingDialogResponse,
    /// The user has confirmed a choice.
    Submitted,
    /// The time or the number of events ran out.
    TimedOut,
    /// The transport failed.
    Failed(TransportFailure),
}

impl SessionState {
    /// Whether the session is over.
    #[verifier::allow_in_spec]
    pub fn is_terminal(self) -> bool
        returns
            (match self {
                SessionState::Submitted => true,
                SessionState::TimedOut => true,
                SessionState::Failed(_) => true,
                _ => false,
            }),
    {
        match self {
            SessionState::Submitted => true,
            SessionState::TimedOut => true,
            SessionState::Failed(_) => true,
            _ => false,
        }
    }
}

/// What a session has settled on when it is submitted.
#[derive(Debug, PartialEq, Eq)]
pub struct Submission {
    /// The item chosen.
    pub item: String,
    /// The target, if one was resolved.
    pub target: Option<Target>,
}

/// What contracts say of a [`Submission`].
pub struct SubmissionView {
    pub item: Seq<char>,
    pub target: Option<TargetView>,
}

impl View for Submission {
    type V = SubmissionView;

    open spec fn view(&self) -> SubmissionView {
        SubmissionView { item: self.item@, target: target_view(self.target) }
    }
}

/// What the caller is to do after a step of the controller.
#[derive(Debug, PartialEq, Eq)]
pub enum Action {
    /// Render the prompt anew from the session and send it as the update that
    /// answers the event.
    Rerender,
    /// Open the dialog and wait for its one answer, `timeout` seconds at most.
    OpenDialog { timeout: u64 },
    /// Render the prompt anew from the session and send it as the answer to
    /// the dialog's submission.
    RenderDialogReply,
    /// Send the final confirmation: the session is submitted.
    Finish(Submission),
    /// Send nothing.
    Nothing,
}

/// What contracts say of an [`Action`].
pub enum ActionView {
    Rerender,
    OpenDialog { timeout: u64 },
    RenderDialogReply,
    Finish(SubmissionView),
    Nothing,
}

impl View for Action {
    type V = ActionView;

    open spec fn view(&self) -> ActionView {
        match self {
            Action::Rerender => ActionView::Rerender,
            Action::OpenDialog { timeout } => ActionView::OpenDialog { timeout: *timeout },
            Action::RenderDialogReply => ActionView::RenderDialogReply,
            Action::Finish(submission) => ActionView::Finish(submission@),
            Action::Nothing => ActionView::Nothing,
        }
    }
}

/// One run of the selection prompt.
#[derive(Debug)]
pub struct Session {
    id: u64,
    state: SessionState,
    selected_item: Option<String>,
    selected_target: Option<Target>,
    page_offset: Option<usize>,
    events_consumed: u32,
    started_at: u64,
    catalog_len: usize,
}

/// What contracts say of a [`Session`].
pub struct SessionView {
    /// The number that tells the session from others.
    pub id: u64,
    /// Where the session stands.
    pub state: SessionState,
    /// The item chosen, if any.
    pub selected_item: Option<Seq<char>>,
    /// The target resolved, if any.
    pub selected_target: Option<TargetView>,
    /// The page shown: `None` is the first.
    pub page_offset: Option<usize>,
    /// Number of events dispatched so far.
    pub events_consumed: nat,
    /// The second at which the session started.
    pub started_at: u64,
    /// Number of entries of the catalog that the session pages through.
    pub catalog_len: nat,
}

impl SessionView {
    /// What holds of every session: the page shown is a page of the catalog,
    /// no more events were consumed than are allowed, a session is submitted
    /// only with an item chosen, and nothing was chosen before the first
    /// prompt went up.
    pub open spec fn wf(self) -> bool {
        &&& self.catalog_len <= usize::MAX
        &&& valid_offset(self.page_offset, self.catalog_len)
        &&& self.events_consumed <= MAX_EVENTS
        &&& (self.state == SessionState::Submitted ==> self.selected_item is Some)
        &&& (self.state == SessionState::Rendering ==> self.selected_item is None
            && self.selected_target is None && self.page_offset is None && self.events_consumed
            == 0)
    }

    /// A session that has just been created.
    pub open spec fn fresh(id: u64, catalog_len: nat, started_at: u64) -> SessionView {
        SessionView {
            id,
            state: SessionState::Rendering,
            selected_item: None,
            selected_target: None,
            page_offset: None,
            events_consumed: 0,
            started_at,
            catalog_len,
        }
    }

    /// Seconds gone by at `now` since the session started.
    pub open spec fn elapsed(self, now: u64) -> nat {
        if now >= self.started_at {
            (now - self.started_at) as nat
        } else {
            0
        }
    }

    /// Seconds left at `now` before the session's time is up.
    pub open spec fn time_left(self, now: u64) -> u64 {
        if self.elapsed(now) < SESSION_TIMEOUT {
            (SESSION_TIMEOUT - self.elapsed(now)) as u64
        } else {
            0
        }
    }

    /// Whether a wait for the next event may begin at `now`: events and time
    /// are both left.
    pub open spec fn may_wait(self, now: u64) -> bool {
        self.events_consumed < MAX_EVENTS && self.elapsed(now) < SESSION_TIMEOUT
    }

    /// Whether an event that arrives at `now` may be dispatched: the session
    /// has consumed fewer events than allowed and its time is not exceeded.
    pub open spec fn may_process(self, now: u64) -> bool {
        self.events_consumed < MAX_EVENTS && self.elapsed(now) <= SESSION_TIMEOUT
    }

    /// Whether a member is the active target.
    pub open spec fn member_active(self) -> bool {
        self.selected_target matches Some(TargetView::Member { .. })
    }

    /// Whether a typed text is the active target.
    pub open spec fn free_text_active(self) -> bool {
        self.selected_target matches Some(TargetView::FreeText(_))
    }

    /// The session once its first prompt is up.
    pub open spec fn after_rendered(self) -> SessionView {
        if self.state == SessionState::Rendering {
            SessionView { state: SessionState::AwaitingEvent, ..self }
        } else {
            self
        }
    }

    /// The session after a failure of the transport. A session that is over
    /// stays as it is.
    pub open spec fn after_failure(self, failure: TransportFailure) -> SessionView {
        if self.state.is_terminal() {
            self
        } else {
            SessionView { state: SessionState::Failed(failure), ..self }
        }
    }

    /// The session after the check made before a wait at `now`: it times out
    /// where no event or no time is left.
    pub open spec fn after_wait_check(self, now: u64) -> SessionView {
        if self.state == SessionState::AwaitingEvent && !self.may_wait(now) {
            SessionView { state: SessionState::TimedOut, ..self }
        } else {
            self
        }
    }

    /// The session after a wait that ended without an event.
    pub open spec fn after_wait_expired(self) -> SessionView {
        if self.state == SessionState::AwaitingEvent {
            SessionView { state: SessionState::TimedOut, ..self }
        } else {
            self
        }
    }

    /// The session once `event` is accepted for dispatch.
    pub open spec fn accepted(self) -> SessionView {
        SessionView {
            state: SessionState::ProcessingEvent,
            events_consumed: self.events_consumed + 1,
            ..self
        }
    }

    /// The session after the dispatch of `event`, whatever came before.
    ///
    /// An item chosen takes the place of the one before it. A page move goes
    /// through the pager. A member is resolved against `candidates`, and one
    /// they do not hold changes nothing. A typed text becomes the target. Of
    /// the two kinds of target the later one stands. A confirmation ends the
    /// session where an item is chosen and changes nothing where none is. An
    /// unknown event changes nothing.
    pub open spec fn dispatched(
        self,
        event: EventView,
        candidates: Seq<CandidateView>,
    ) -> SessionView {
        let next = SessionView { state: SessionState::AwaitingEvent, ..self };
        match event {
            EventView::ItemSelected(item) => SessionView { selected_item: Some(item), ..next },
            EventView::PagePrev => SessionView {
                page_offset: prev_offset(self.page_offset),
                ..next
            },
            EventView::PageNext => SessionView {
                page_offset: next_offset(self.page_offset, self.catalog_len),
                ..next
            },
            EventView::TargetMemberSelected(id) => match picked_member(candidates, id) {
                Some(member) => SessionView { selected_target: Some(member), ..next },
                None => next,
            },
            EventView::OpenTargetInputDialog => SessionView {
                state: SessionState::AwaitingDialogResponse,
                ..self
            },
            EventView::TargetTextSubmitted(text) => SessionView {
                selected_target: Some(TargetView::FreeText(text)),
                ..next
            },
            EventView::Submit => if self.selected_item is Some {
                SessionView { state: SessionState::Submitted, ..self }
            } else {
                next
            },
            EventView::Unknown(_) => next,
        }
    }

    /// The session after `event` has arrived at `now`.
    ///
    /// A session that is not awaiting an event ignores it. One whose events or
    /// time are used up times out without dispatching it. Otherwise the event
    /// is counted and dispatched.
    pub open spec fn handled(
        self,
        event: EventView,
        now: u64,
        candidates: Seq<CandidateView>,
    ) -> SessionView {
        if self.state != SessionState::AwaitingEvent {
            self
        } else if !self.may_process(now) {
            SessionView { state: SessionState::TimedOut, ..self }
        } else {
            self.accepted().dispatched(event, candidates)
        }
    }

    /// What the caller is to do after the dispatch of `event`, with
    /// `time_left` seconds of the session left.
    ///
    /// The button for a typed target opens the dialog, which may wait as long
    /// as the session has left. A confirmation with an item chosen finishes
    /// with the item and the target as they stand. After anything else the
    /// prompt is rendered anew.
    pub open spec fn dispatch_action(self, event: EventView, time_left: u64) -> ActionView {
        match event {
            EventView::OpenTargetInputDialog => ActionView::OpenDialog { timeout: time_left },
            EventView::Submit => match self.selected_item {
                Some(item) => ActionView::Finish(
                    SubmissionView { item, target: self.selected_target },
                ),
                None => ActionView::Rerender,
            },
            _ => ActionView::Rerender,
        }
    }

    /// What the caller is to do once `event` has arrived at `now`: nothing
    /// where the event is ignored or the session times out, and what the
    /// dispatch asks for otherwise.
    pub open spec fn action_on(self, event: EventView, now: u64) -> ActionView {
        if self.state != SessionState::AwaitingEvent || !self.may_process(now) {
            ActionView::Nothing
        } else {
            self.accepted().dispatch_action(event, self.time_left(now))
        }
    }

    /// The session after the dialog has answered with `text`, or has closed
    /// without an answer.
    pub open spec fn after_dialog(self, text: Option<Seq<char>>) -> SessionView {
        if self.state != SessionState::AwaitingDialogResponse {
            self
        } else {
            match text {
                Some(t) => SessionView {
                    state: SessionState::AwaitingEvent,
                    selected_target: Some(TargetView::FreeText(t)),
                    ..self
                },
                None => SessionView { state: SessionState::AwaitingEvent, ..self },
            }
        }
    }

    /// What the caller is to do once the dialog has answered.
    pub open spec fn action_after_dialog(self, text: Option<Seq<char>>) -> ActionView {
        if self.state == SessionState::AwaitingDialogResponse && text is Some {
            ActionView::RenderDialogReply
        } else {
            ActionView::Nothing
        }
    }

    /// The session after the events of `events` have arrived, each at its
    /// time, in order.
    pub open spec fn run(
        self,
        events: Seq<(EventView, u64)>,
        candidates: Seq<CandidateView>,
    ) -> SessionView
        decreases events.len(),
    {
        if events.len() == 0 {
            self
        } else {
            self.run(events.drop_last(), candidates).handled(
                events.last().0,
                events.last().1,
                candidates,
            )
        }
    }
}

/// A text that may be absent, as its characters.
pub open spec fn text_view(text: Option<String>) -> Option<Seq<char>> {
    match text {
        Some(t) => Some(t@),
        None => None,
    }
}

impl View for Session {
    type V = SessionView;

    closed spec fn view(&self) -> SessionView {
        SessionView {
            id: self.id,
            state: self.state,
            selected_item: text_view(self.selected_item),
            selected_target: target_view(self.selected_target),
            page_offset: self.page_offset,
            events_consumed: self.events_consumed as nat,
            started_at: self.started_at,
            catalog_len: self.catalog_len as nat,
        }
    }
}

impl Session {
    #[verifier::type_invariant]
    spec fn well_formed(self) -> bool {
        self@.wf()
    }

    /// A session about to post its first prompt for a catalog of
    /// `catalog_len` entries, started at the second `started_at`.
    pub fn new(id: u64, catalog_len: usize, started_at: u64) -> (r: Session)
        ensures
            r@ == SessionView::fresh(id, catalog_len as nat, started_at),
            r@.wf(),
    {
        Session {
            id,
            state: SessionState::Rendering,
            selected_item: None,
            selected_target: None,
            page_offset: None,
            events_consumed: 0,
            started_at,
            catalog_len,
        }
    }

    /// The number that tells the session from others.
    pub fn id(&self) -> (r: u64)
        ensures
            r == self@.id,
    {
        self.id
    }

    /// Where the session stands.
    pub fn state(&self) -> (r: SessionState)
        ensures
            r == self@.state,
            self@.wf(),
    {
        proof {
            use_type_invariant(self);
        }
        self.state
    }

    /// The item chosen, if any.
    pub fn selected_item(&self) -> (r: Option<&String>)
        ensures
            match r {
                Some(item) => self@.selected_item == Some(item@),
                None => self@.selected_item is None,
            },
    {
        self.selected_item.as_ref()
    }

    /// The target resolved, if any.
    pub fn selected_target(&self) -> (r: Option<&Target>)
        ensures
            match r {
                Some(target) => self@.selected_target == Some(target@),
                None => self@.selected_target is None,
            },
    {
        self.selected_target.as_ref()
    }

    /// The page shown: `None` is the first.
    pub fn page_offset(&self) -> (r: Option<usize>)
        ensures
            r == self@.page_offset,
            valid_offset(r, self@.catalog_len),
    {
        proof {
            use_type_invariant(self);
        }
        self.page_offset
    }

    /// Number of events dispatched so far.
    pub fn events_consumed(&self) -> (r: u32)
        ensures
            r == self@.events_consumed,
            r <= MAX_EVENTS,
    {
        proof {
            use_type_invariant(self);
        }
        self.events_consumed
    }

    /// The second at which the session started.
    pub fn started_at(&self) -> (r: u64)
        ensures
            r == self@.started_at,
    {
        self.started_at
    }

    /// Number of entries of the catalog that the session pages through.
    pub fn catalog_len(&self) -> (r: usize)
        ensures
            r == self@.catalog_len,
    {
        self.catalog_len
    }

    /// Whether the session is over.
    pub fn is_over(&self) -> (r: bool)
        ensures
            r == self@.state.is_terminal(),
    {
        self.state.is_terminal()
    }

    /// Seconds left at `now` before the session's time is up.
    pub fn time_left(&self, now: u64) -> (r: u64)
        ensures
            r == self@.time_left(now),
            r <= SESSION_TIMEOUT,
    {
        let elapsed = if now >= self.started_at {
            now - self.started_at
        } else {
            0
        };
        if elapsed < SESSION_TIMEOUT {
            SESSION_TIMEOUT - elapsed
        } else {
            0
        }
    }

    /// What the session has settled on, once it is submitted.
    pub fn submission(&self) -> (r: Option<Submission>)
        ensures
            match r {
                Some(s) => self@.state == SessionState::Submitted && self@.selected_item == Some(
                    s@.item,
                ) && s@.target == self@.selected_target,
                None => self@.state != SessionState::Submitted,
            },
    {
        proof {
            use_type_invariant(self);
        }
        match self.state {
            SessionState::Submitted => match &self.selected_item {
                Some(item) => Some(
                    Submission { item: item.clone(), target: clone_target(&self.selected_target) },
                ),
                None => None,
            },
            _ => None,
        }
    }

    /// How the session ended, once it is over: with what it settled on where
    /// it was submitted, and with the error that its caller passes on where it
    /// timed out or the transport failed.
    pub fn outcome(&self) -> (r: Option<Result<Submission, HandlerError>>)
        ensures
            match r {
                Some(Ok(s)) => self@.state == SessionState::Submitted && self@.selected_item
                    == Some(s@.item) && s@.target == self@.selected_target,
                Some(Err(e)) => e@ == match self@.state {
                    SessionState::TimedOut => HandlerErrorView::TimeoutOrOverLimit,
                    _ => HandlerErrorView::Send,
                } && (self@.state == SessionState::TimedOut || self@.state is Failed),
                None => !self@.state.is_terminal(),
            },
    {
        proof {
            use_type_invariant(self);
        }
        match self.state {
            SessionState::Submitted => match self.submission() {
                Some(submission) => Some(Ok(submission)),
                None => None,
            },
            SessionState::TimedOut => Some(Err(HandlerError::TimeoutOrOverLimit)),
            SessionState::Failed(_) => Some(Err(HandlerError::Send)),
            _ => None,
        }
    }

    /// Records that the first prompt is up: the session now awaits events.
    pub fn rendered(&mut self)
        ensures
            final(self)@ == old(self)@.after_rendered(),
    {
        proof {
            use_type_invariant(&*self);
        }
        match self.state {
            SessionState::Rendering => {
                self.state = SessionState::AwaitingEvent;
            },
            _ => {},
        }
    }

    /// Records that the transport failed: the session is over, unless it was
    /// over already.
    pub fn fail(&mut self, failure: TransportFailure)
        ensures
            final(self)@ == old(self)@.after_failure(failure),
    {
        proof {
            use_type_invariant(&*self);
        }
        if !self.state.is_terminal() {
            self.state = SessionState::Failed(failure);
        }
    }

    /// The check before a wait for the next event, made at the second `now`.
    ///
    /// Gives the seconds that the wait may last. Where the session has used
    /// up its events or its time, it times out and there is no wait; there is
    /// none either where the session is not awaiting an event.
    pub fn begin_wait(&mut self, now: u64) -> (r: Option<u64>)
        ensures
            final(self)@ == old(self)@.after_wait_check(now),
            r == if old(self)@.state == SessionState::AwaitingEvent && old(self)@.may_wait(now) {
                Some(old(self)@.time_left(now))
            } else {
                None
            },
            r matches Some(timeout) ==> 0 < timeout <= SESSION_TIMEOUT,
    {
        proof {
            use_type_invariant(&*self);
        }
        match self.state {
            SessionState::AwaitingEvent => {
                let left = self.time_left(now);
                if self.events_consumed < MAX_EVENTS && left > 0 {
                    Some(left)
                } else {
                    self.state = SessionState::TimedOut;
                    None
                }
            },
            _ => None,
        }
    }

    /// Records that a wait ended without an event: the session times out.
    pub fn wait_expired(&mut self)
        ensures
            final(self)@ == old(self)@.after_wait_expired(),
    {
        proof {
            use_type_invariant(&*self);
        }
        match self.state {
            SessionState::AwaitingEvent => {
                self.state = SessionState::TimedOut;
            },
            _ => {},
        }
    }

    /// Counts an event in and marks the session as processing it.
    fn accept(&mut self)
        requires
            old(self)@.state == SessionState::AwaitingEvent,
            old(self)@.events_consumed < MAX_EVENTS,
        ensures
            final(self)@ == old(self)@.accepted(),
    {
        proof {
            use_type_invariant(&*self);
        }
        self.events_consumed = self.events_consumed + 1;
        self.state = SessionState::ProcessingEvent;
    }

    /// Dispatches the event that the session is processing.
    fn dispatch(&mut self, event: Event, time_left: u64, candidates: &[Candidate]) -> (r: Action)
        requires
            old(self)@.state == SessionState::ProcessingEvent,
        ensures
            final(self)@ == old(self)@.dispatched(event@, candidate_views(candidates@)),
            r@ == old(self)@.dispatch_action(event@, time_left),
    {
        proof {
            use_type_invariant(&*self);
        }
        match event {
            Event::ItemSelected(item) => {
                self.selected_item = Some(item);
                self.state = SessionState::AwaitingEvent;
                Action::Rerender
            },
            Event::PagePrev => {
                self.page_offset = page_prev(self.page_offset);
                self.state = SessionState::AwaitingEvent;
                Action::Rerender
            },
            Event::PageNext => {
                self.page_offset = page_next(self.page_offset, self.catalog_len);
                self.state = SessionState::AwaitingEvent;
                Action::Rerender
            },
            Event::TargetMemberSelected(id) => {
                match pick_member(candidates, id) {
                    Some(member) => {
                        self.selected_target = Some(member);
                    },
                    None => {},
                }
                self.state = SessionState::AwaitingEvent;
                Action::Rerender
            },
            Event::OpenTargetInputDialog => {
                self.state = SessionState::AwaitingDialogResponse;
                Action::OpenDialog { timeout: time_left }
            },
            Event::TargetTextSubmitted(text) => {
                self.selected_target = Some(free_text(text));
                self.state = SessionState::AwaitingEvent;
                Action::Rerender
            },
            Event::Submit => {
                match &self.selected_item {
                    Some(item) => {
                        let submission = Submission {
                            item: item.clone(),
                            target: clone_target(&self.selected_target),
                        };
                        self.state = SessionState::Submitted;
                        Action::Finish(submission)
                    },
                    None => {
                        self.state = SessionState::AwaitingEvent;
                        Action::Rerender
                    },
                }
            },
            Event::Unknown(_) => {
                self.state = SessionState::AwaitingEvent;
                Action::Rerender
            },
        }
    }

    /// Takes the event that arrived at the second `now` and says what to do.
    ///
    /// A session that is not awaiting an event ignores it. One whose events
    /// or time are used up times out without dispatching it. Otherwise the
    /// event is counted and dispatched.
    pub fn handle_event(&mut self, event: Event, now: u64, candidates: &[Candidate]) -> (r: Action)
        ensures
            final(self)@ == old(self)@.handled(event@, now, candidate_views(candidates@)),
            r@ == old(self)@.action_on(event@, now),
    {
        proof {
            use_type_invariant(&*self);
        }
        match self.state {
            SessionState::AwaitingEvent => {},
            _ => {
                return Action::Nothing;
            },
        }
        let elapsed = if now >= self.started_at {
            now - self.started_at
        } else {
            0
        };
        if self.events_consumed >= MAX_EVENTS || elapsed > SESSION_TIMEOUT {
            self.state = SessionState::TimedOut;
            return Action::Nothing;
        }
        self.accept();
        self.dispatch(event, SESSION_TIMEOUT - elapsed, candidates)
    }

    /// Takes the dialog's answer: the text submitted, or nothing where the
    /// dialog closed without one. Without an answer the target stays as it
    /// was. Either way the session awaits events again.
    pub fn dialog_response(&mut self, text: Option<String>) -> (r: Action)
        ensures
            final(self)@ == old(self)@.after_dialog(text_view(text)),
            r@ == old(self)@.action_after_dialog(text_view(text)),
    {
        proof {
            use_type_invariant(&*self);
        }
        match self.state {
            SessionState::AwaitingDialogResponse => {},
            _ => {
                return Action::Nothing;
            },
        }
        self.state = SessionState::AwaitingEvent;
        match text {
            Some(t) => {
                self.selected_target = Some(free_text(t));
                Action::RenderDialogReply
            },
            None => Action::Nothing,
        }
    }
}

/// A copy of a target that may be absent.
fn clone_target(target: &Option<Target>) -> (r: Option<Target>)
    ensures
        target_view(r) == target_view(*target),
{
    match target {
        Some(t) => Some(t.clone()),
        None => None,
    }
}

} // verus!
