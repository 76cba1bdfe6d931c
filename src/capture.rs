//! The capture slot shared by the request handlers and the waiting caller, and
//! the routing of requests against it.
use vstd::prelude::*;
use crate::response::CodeGrantResponse;
use crate::server::{
    Error, Outcome, outcome_of, query_outcome, page_for, handle_oauth2_response, PENDING_TEXT,
    HEALTH_OK_TEXT,
};

verus! {

/// Where a run of the listener stands.
#[derive(PartialEq, Eq, Structural, Clone, Copy)]
pub enum Phase {
    /// Listening, nothing captured yet.
    Idle,
    /// A callback was captured; the listener is shutting down.
    Draining,
    /// The caller has taken the result.
    Stopped,
}

/// The mathematical state of a capture slot.
pub struct CaptureView {
    pub slot: Option<Outcome>,
    pub phase: Phase,
}

/// The slot is filled exactly while the run is draining.
pub open spec fn capture_wf(v: CaptureView) -> bool {
    (v.slot is Some) == (v.phase == Phase::Draining)
}

/// The state after offering outcome `o`: only an idle slot takes it.
pub open spec fn fill(v: CaptureView, o: Outcome) -> CaptureView {
    if v.phase == Phase::Idle {
        CaptureView { slot: Some(o), phase: Phase::Draining }
    } else {
        v
    }
}

/// The state after the caller has taken the slot's content.
pub open spec fn stopped() -> CaptureView {
    CaptureView { slot: None, phase: Phase::Stopped }
}

/// The result handed to the caller for what the slot held.
pub open spec fn conclusion(slot: Option<Outcome>) -> Outcome {
    match slot {
        Some(o) => o,
        None => Outcome::NoResponse,
    }
}

/// A single-write cell for the outcome of the first terminal request.
pub struct CaptureState {
    slot: Option<Result<CodeGrantResponse, Error>>,
    phase: Phase,
}

impl View for CaptureState {
    type V = CaptureView;

    closed spec fn view(&self) -> CaptureView {
        CaptureView {
            slot: match self.slot {
                Some(r) => Some(outcome_of(r)),
                None => None,
            },
            phase: self.phase,
        }
    }
}

impl CaptureState {
    /// The slot holds an outcome exactly while the run is draining.
    #[verifier::type_invariant]
    spec fn inv(&self) -> bool {
        (self.slot is Some) == (self.phase == Phase::Draining)
    }

    /// An empty slot, at the start of a run.
    pub fn new() -> (r: CaptureState)
        ensures
            r@ == (CaptureView { slot: None, phase: Phase::Idle }),
            capture_wf(r@),
    {
        CaptureState { slot: None, phase: Phase::Idle }
    }

    /// Whether a terminal request has been captured and not yet taken.
    pub fn is_filled(&self) -> (r: bool)
        ensures
            r == (self@.slot is Some),
            r == (self@.phase == Phase::Draining),
            capture_wf(self@),
    {
        proof {
            use_type_invariant(self);
        }
        self.slot.is_some()
    }

    /// The phase of the run.
    pub fn phase(&self) -> (r: Phase)
        ensures
            r == self@.phase,
            capture_wf(self@),
    {
        proof {
            use_type_invariant(self);
        }
        self.phase
    }

    /// Stores `result` if nothing was stored before in this run. Returns whether
    /// this call stored it; that call, and only that one, starts the shutdown.
    pub fn try_fill(&mut self, result: Result<CodeGrantResponse, Error>) -> (filled: bool)
        ensures
            final(self)@ == fill(old(self)@, outcome_of(result)),
            capture_wf(final(self)@),
            old(self)@.slot is Some ==> final(self)@ == old(self)@,
            filled == (old(self)@.phase == Phase::Idle),
    {
        proof {
            use_type_invariant(&*self);
        }
        match self.phase {
            Phase::Idle => {
                *self = CaptureState { slot: Some(result), phase: Phase::Draining };
                true
            },
            _ => false,
        }
    }

    /// Takes what the slot holds and stops the run.
    pub fn take(&mut self) -> (r: Option<Result<CodeGrantResponse, Error>>)
        ensures
            final(self)@ == stopped(),
            capture_wf(final(self)@),
            r is None <==> old(self)@.slot is None,
            r matches Some(x) ==> old(self)@.slot == Some(outcome_of(x)),
    {
        let mut emptied = CaptureState { slot: None, phase: Phase::Stopped };
        std::mem::swap(self, &mut emptied);
        emptied.slot
    }

    /// One look of a polling control path: once a terminal request has been
    /// captured, stops the run and hands back its result; before that, changes
    /// nothing.
    pub fn poll(&mut self) -> (r: Option<Result<CodeGrantResponse, Error>>)
        ensures
            capture_wf(final(self)@),
            old(self)@.phase == Phase::Draining ==> final(self)@ == stopped() && r is Some,
            r matches Some(x) ==> old(self)@.slot == Some(outcome_of(x)),
            old(self)@.phase != Phase::Draining ==> final(self)@ == old(self)@ && r is None,
    {
        proof {
            use_type_invariant(&*self);
        }
        match self.phase {
            Phase::Draining => Some(self.conclude()),
            _ => None,
        }
    }

    /// Takes the slot's content as the run's result: what was captured, or
    /// `Timeout` if nothing was.
    pub fn conclude(&mut self) -> (r: Result<CodeGrantResponse, Error>)
        ensures
            final(self)@ == stopped(),
            outcome_of(r) == conclusion(old(self)@.slot),
    {
        match self.take() {
            Some(r) => r,
            None => Err(Error::Timeout),
        }
    }
}

/// What kind of body a reply carries.
#[derive(PartialEq, Eq, Structural, Clone, Copy)]
pub enum Content {
    Text,
    Html,
    Empty,
}

/// The answer to one request.
pub struct Reply {
    pub status: u16,
    pub content: Content,
    pub body: String,
    /// Whether the listener should now shut down.
    pub shutdown: bool,
}

/// A plain-text reply with status 200.
pub open spec fn text_reply(r: Reply, text: Seq<char>) -> bool {
    r.status == 200 && r.content == Content::Text && r.body@ == text && !r.shutdown
}

fn text(body: &str) -> (r: Reply)
    ensures
        text_reply(r, body@),
{
    Reply { status: 200, content: Content::Text, body: String::from_str(body), shutdown: false }
}

fn same(a: &str, b: &str) -> (r: bool)
    ensures
        r == (a@ == b@),
{
    String::from_str(a) == String::from_str(b)
}

/// Answers a `GET` of `path` with raw query `query` (empty when absent).
/// `/` and `/health` answer with constant text; `callback_path` parses the
/// query, offers the outcome to the slot, and answers with the page for it;
/// any other path is not found. Only the callback route touches the slot.
pub fn handle_request(state: &mut CaptureState, path: &str, callback_path: &str, query: &str) -> (r:
    Reply)
    ensures
        path@ == "/"@ ==> text_reply(r, PENDING_TEXT@) && final(state)@ == old(state)@,
        path@ != "/"@ && path@ == "/health"@ ==> text_reply(r, HEALTH_OK_TEXT@) && final(state)@
            == old(state)@,
        path@ != "/"@ && path@ != "/health"@ && path@ == callback_path@ ==> {
            &&& r.status == 200
            &&& r.content == Content::Html
            &&& r.shutdown == (old(state)@.phase == Phase::Idle)
            &&& r.body@ == page_for(query_outcome(query@))
            &&& final(state)@ == fill(old(state)@, query_outcome(query@))
        },
        path@ != "/"@ && path@ != "/health"@ && path@ != callback_path@ ==> r.status == 404
            && r.content == Content::Empty && r.body@.len() == 0 && !r.shutdown && final(state)@
            == old(state)@,
{
    if same(path, "/") {
        text(PENDING_TEXT)
    } else if same(path, "/health") {
        text(HEALTH_OK_TEXT)
    } else if same(path, callback_path) {
        let (result, html) = handle_oauth2_response(query);
        let filled = state.try_fill(result);
        Reply { status: 200, content: Content::Html, body: html, shutdown: filled }
    } else {
        Reply { status: 404, content: Content::Empty, body: String::new(), shutdown: false }
    }
}

/// Once a terminal request has filled an idle slot, no later offer changes it,
/// and the run concludes with the first outcome.
pub proof fn lemma_first_fill_wins(v: CaptureView, first: Outcome, second: Outcome)
    requires
        v.phase == Phase::Idle,
    ensures
        fill(fill(v, first), second) == fill(v, first),
        conclusion(fill(fill(v, first), second).slot) == first,
{
}

/// A slot that is no longer idle ignores every offer.
pub proof fn lemma_filled_slot_is_final(v: CaptureView, o: Outcome)
    requires
        v.phase != Phase::Idle,
    ensures
        fill(v, o) == v,
{
}

} // verus!
