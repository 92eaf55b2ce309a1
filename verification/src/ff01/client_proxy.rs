//! The machine's side of the link: one request at a time, sent to the worker
//! and answered through a pair of channels, without ever blocking.
use vstd::prelude::*;

use smol::channel::{Receiver, Sender};

use crate::ff01::channel::{open_unbounded, try_recv, try_send, RecvFailure, SendFailure};
use crate::ff01::error::{ProxyTransactionError, ResponseError};
use crate::ff01::worker::Worker;
use crate::ff01::{
    backflush_request, internal_request_of, is_backflush_for, same_backflush, BackflushRequest, Entry, InternalRequest,
    Request, Response,
};

verus! {

/// Where the proxy stands with its one request.
#[derive(Debug, Clone)]
pub enum State {
    /// No request is queued; a new one may be.
    Idle,
    /// A request is queued and not yet handed to the worker.
    Sending(InternalRequest),
    /// The worker has the request; its response is awaited.
    Pending,
}

/// The position and count of a backflush that `finalize` has queued.
#[derive(Debug)]
struct FinalizeKey {
    doc_entry: i32,
    line_number: i32,
    item_code: String,
    whs_code: String,
    counted: u32,
}

/// The machine's handle on the worker that talks to the server.
pub struct ProxyClient {
    sender: Sender<InternalRequest>,
    receiver: Receiver<Result<Response, ResponseError>>,
    state: State,
    /// The backflush that `finalize` queued, while it is outstanding.
    finalizing: Option<FinalizeKey>,
    /// The request last queued.
    outstanding: Ghost<Option<InternalRequest>>,
    /// The requests handed to the worker's channel, in order.
    handed: Ghost<Seq<InternalRequest>>,
    /// The outcomes of the receives made on the worker's answers, in order.
    received: Ghost<Seq<Result<Result<Response, ResponseError>, RecvFailure>>>,
}

/// A borrow of a proxy's state.
pub struct RequestMaker<'a> {
    state: &'a mut State,
}

/// The result of a poll: the worker's response, or why there is none yet.
pub type PollResult = Result<Response, ProxyTransactionError>;

/// Queueing `request` in state `s`: accepted only when idle, and then the
/// request waits to be sent; otherwise nothing changes.
pub open spec fn queue_step(s: State, request: Request) -> (State, Result<(), ()>) {
    match s {
        State::Idle => (State::Sending(internal_request_of(request)), Ok(())),
        _ => (s, Err(())),
    }
}

/// The state and result of a poll in state `Sending`, once the send's outcome
/// is known: a sent request is awaited; a refused one stays queued.
pub open spec fn send_step(outcome: Result<(), SendFailure<InternalRequest>>) -> (State, PollResult) {
    match outcome {
        Ok(()) => (State::Pending, Err(ProxyTransactionError::Pending)),
        Err(SendFailure::Full(request)) => (State::Sending(request), Err(ProxyTransactionError::ChannelFull)),
        Err(SendFailure::Closed(request)) => (State::Sending(request), Err(ProxyTransactionError::ChannelClosed)),
    }
}

/// The state and result of a poll in state `Pending`, once the receive's
/// outcome is known: an answer, good or bad, frees the proxy; no answer keeps
/// it waiting.
pub open spec fn receive_step(outcome: Result<Result<Response, ResponseError>, RecvFailure>) -> (State, PollResult) {
    match outcome {
        Ok(Ok(response)) => (State::Idle, Ok(response)),
        Ok(Err(err)) => (State::Idle, Err(ProxyTransactionError::Response(err))),
        Err(RecvFailure::Empty) => (State::Pending, Err(ProxyTransactionError::Pending)),
        Err(RecvFailure::Closed) => (State::Pending, Err(ProxyTransactionError::ChannelClosed)),
    }
}

/// A poll may take the proxy from `old` to `new` with result `r`: in state
/// `Idle` it reports that nothing is queued; in state `Sending(q)` it is the
/// send step for some outcome of sending `q`; in state `Pending` it is the
/// receive step for some outcome of receiving.
pub open spec fn poll_step(old: State, new: State, r: PollResult) -> bool {
    match old {
        State::Idle => new == State::Idle && r == Err::<Response, ProxyTransactionError>(
            ProxyTransactionError::NoPendingRequest,
        ),
        State::Sending(q) => {
            ||| (new, r) == send_step(Ok(()))
            ||| (new, r) == send_step(Err(SendFailure::Full(q)))
            ||| (new, r) == send_step(Err(SendFailure::Closed(q)))
        },
        State::Pending => {
            ||| (exists|response: Response| (new, r) == receive_step(Ok(Ok(response))))
            ||| (exists|err: ResponseError| (new, r) == receive_step(Ok(Err(err))))
            ||| (new, r) == receive_step(Err(RecvFailure::Empty))
            ||| (new, r) == receive_step(Err(RecvFailure::Closed))
        },
    }
}

impl State {
    /// The outcome of handing the queued request to the worker, as the proxy
    /// records it.
    pub fn after_send(outcome: Result<(), SendFailure<InternalRequest>>) -> (r: (State, PollResult))
        ensures
            r == send_step(outcome),
    {
        match outcome {
            Ok(()) => (State::Pending, Err(ProxyTransactionError::Pending)),
            Err(SendFailure::Full(request)) => (State::Sending(request), Err(ProxyTransactionError::ChannelFull)),
            Err(SendFailure::Closed(request)) => (State::Sending(request), Err(ProxyTransactionError::ChannelClosed)),
        }
    }

    /// The outcome of looking for the worker's response, as the proxy
    /// records it.
    pub fn after_receive(outcome: Result<Result<Response, ResponseError>, RecvFailure>) -> (r: (State, PollResult))
        ensures
            r == receive_step(outcome),
    {
        match outcome {
            Ok(Ok(response)) => (State::Idle, Ok(response)),
            Ok(Err(err)) => (State::Idle, Err(ProxyTransactionError::Response(err))),
            Err(RecvFailure::Empty) => (State::Pending, Err(ProxyTransactionError::Pending)),
            Err(RecvFailure::Closed) => (State::Pending, Err(ProxyTransactionError::ChannelClosed)),
        }
    }
}

impl View for ProxyClient {
    type V = State;

    closed spec fn view(&self) -> State {
        self.state
    }
}

/// The backflush of a key's position and count.
spec fn key_backflush(b: BackflushRequest, k: FinalizeKey) -> bool {
    same_backflush(b, k.doc_entry, k.line_number, k.item_code@, k.whs_code@, k.counted)
}

/// `p`'s outstanding request is the backflush of `counted` pieces for
/// `entry`'s step.
pub open spec fn outstanding_backflush_for(p: ProxyClient, entry: Entry, counted: u32) -> bool {
    p.outstanding() matches Some(InternalRequest::Backflush(b)) && same_backflush(
        b,
        entry.doc_entry,
        entry.line_number,
        entry.item_code@,
        entry.whs_code@,
        counted,
    )
}

impl ProxyClient {
    /// A queued request is the request last queued; one in the worker's hands
    /// is known; a backflush is outstanding exactly when `finalize` queued
    /// it, and it is the one recorded.
    #[verifier::type_invariant]
    spec fn inv(self) -> bool {
        &&& self.state matches State::Sending(q) ==> self.outstanding@ == Some(q)
        &&& self.state is Pending ==> self.outstanding@ is Some
        &&& !(self.state is Idle) ==> (self.finalizing is Some <==> self.outstanding@ matches Some(
            InternalRequest::Backflush(_),
        ))
        &&& (!(self.state is Idle) && self.finalizing is Some) ==> (self.outstanding@ matches Some(
            InternalRequest::Backflush(b),
        ) && key_backflush(b, self.finalizing.unwrap()))
    }

    /// The proxy talks to the worker over these two channel ends, and only
    /// `self` and `other` are the same in that.
    pub closed spec fn same_link(self, other: ProxyClient) -> bool {
        self.sender == other.sender && self.receiver == other.receiver
    }

    /// The request last queued (none before the first).
    pub closed spec fn outstanding(self) -> Option<InternalRequest> {
        self.outstanding@
    }

    /// The requests handed to the worker's channel so far, in order, whether
    /// the channel took them or not.
    pub closed spec fn handed(self) -> Seq<InternalRequest> {
        self.handed@
    }

    /// The outcomes of the receives made on the channel of the worker's
    /// answers so far, in order, as the channel gave them.
    pub closed spec fn received(self) -> Seq<Result<Result<Response, ResponseError>, RecvFailure>> {
        self.received@
    }

    /// A proxy with nothing queued and a worker on the other end of its two
    /// channels. The worker still has to be run.
    pub fn with_worker() -> (r: (ProxyClient, Worker))
        ensures
            r.0@ == State::Idle,
            r.0.handed() == Seq::<InternalRequest>::empty(),
            r.0.outstanding() is None,
            r.0.received() == Seq::<Result<Result<Response, ResponseError>, RecvFailure>>::empty(),
            r.1.received() == Seq::<Result<InternalRequest, RecvFailure>>::empty(),
            r.1.offered() == Seq::<Result<Response, ResponseError>>::empty(),
    {
        let (client_sender, worker_receiver) = open_unbounded::<InternalRequest>();
        let (worker_sender, client_receiver) = open_unbounded::<Result<Response, ResponseError>>();
        let worker = Worker::new(worker_receiver, worker_sender);
        (
            ProxyClient {
                sender: client_sender,
                receiver: client_receiver,
                state: State::Idle,
                finalizing: None,
                outstanding: Ghost(None),
                handed: Ghost(Seq::empty()),
                received: Ghost(Seq::empty()),
            },
            worker,
        )
    }

    /// Whether a request may be queued now: only when none is outstanding.
    pub fn can_queue_request(&mut self) -> (r: bool)
        ensures
            r == (old(self)@ is Idle),
            *final(self) == *old(self),
    {
        match self.state {
            State::Idle => true,
            _ => false,
        }
    }

    /// Queue a request for the worker; refused while another is outstanding.
    pub fn queue_request(&mut self, request: Request) -> (r: Result<(), ()>)
        ensures
            (final(self)@, r) == queue_step(old(self)@, request),
            final(self).same_link(*old(self)),
            final(self).handed() == old(self).handed(),
            r is Ok ==> final(self).outstanding() == Some(internal_request_of(request)),
            r is Err ==> *final(self) == *old(self),
    {
        if !self.can_queue_request() {
            return Err(());
        }
        let queued = request.to_internal();
        let ghost copy = queued;
        self.finalizing = None;
        self.outstanding = Ghost(Some(copy));
        self.state = State::Sending(queued);
        Ok(())
    }

    /// Move the outstanding request on by one step, without waiting: hand it
    /// to the worker, or look for the worker's response.
    pub fn poll_response(&mut self) -> (r: PollResult)
        ensures
            poll_step(old(self)@, final(self)@, r),
            old(self)@ matches State::Sending(q) ==> final(self).handed() == old(self).handed().push(q),
            !(old(self)@ is Sending) ==> final(self).handed() == old(self).handed(),
            old(self)@ is Pending ==> final(self).received().len() == old(self).received().len() + 1
                && final(self).received() == old(self).received().push(final(self).received().last()) && (
            final(self)@, r) == receive_step(final(self).received().last()),
            !(old(self)@ is Pending) ==> final(self).received() == old(self).received(),
            final(self).outstanding() == old(self).outstanding(),
            final(self).same_link(*old(self)),
    {
        proof {
            use_type_invariant(&*self);
        }
        let ghost start = *self;
        let mut state = State::Idle;
        std::mem::swap(&mut state, &mut self.state);
        match state {
            State::Idle => Err(ProxyTransactionError::NoPendingRequest),
            State::Sending(request) => {
                let ghost queued = request;
                self.handed = Ghost(self.handed@.push(queued));
                let outcome = try_send(&self.sender, request);
                let ghost seen = outcome;
                let (next, result) = State::after_send(outcome);
                proof {
                    match seen {
                        Ok(()) => {},
                        Err(SendFailure::Full(q)) => assert(q == queued),
                        Err(SendFailure::Closed(q)) => assert(q == queued),
                    }
                    assert(start.outstanding@ == Some(queued));
                }
                self.state = next;
                result
            },
            State::Pending => {
                let (outcome, copy) = try_recv(&self.receiver);
                let ghost seen = copy@;
                self.received = Ghost(self.received@.push(seen));
                let (next, result) = State::after_receive(outcome);
                proof {
                    match seen {
                        Ok(Ok(response)) => assert((next, result) == receive_step(Ok(Ok(response)))),
                        Ok(Err(err)) => assert((next, result) == receive_step(Ok(Err(err)))),
                        _ => {},
                    }
                }
                self.state = next;
                result
            },
        }
    }

    /// Whether the backflush that `finalize` queued is for this position,
    /// item, warehouse and count.
    fn finalizing_matches(&self, entry: &Entry, counted: u32) -> (r: bool)
        ensures
            r == (self.finalizing matches Some(k) && k.doc_entry == entry.doc_entry && k.line_number
                == entry.line_number && k.item_code@ == entry.item_code@ && k.whs_code@ == entry.whs_code@
                && k.counted == counted),
    {
        match &self.finalizing {
            Some(k) => k.doc_entry == entry.doc_entry && k.line_number == entry.line_number && k.item_code
                == entry.item_code && k.whs_code == entry.whs_code && k.counted == counted,
            None => false,
        }
    }

    /// Close `entry`'s workorder step with a backflush of `counted_quantity`
    /// pieces, one step per call, without waiting. An idle proxy queues the
    /// backflush and hands it on with this very call; while that backflush
    /// is outstanding, a call polls it; while another request is
    /// outstanding, the call is refused with `Busy` and changes nothing. It
    /// succeeds only when the worker's answer to this backflush is that it
    /// was posted; any other answer is a `TagMismatch`, and the errors of a
    /// poll are its errors.
    pub fn finalize(&mut self, entry: &Entry, counted_quantity: u32) -> (r: Result<(), ProxyTransactionError>)
        ensures
            finalize_step(*old(self), *final(self), r, *entry, counted_quantity),
            final(self).same_link(*old(self)),
    {
        proof {
            use_type_invariant(&*self);
        }
        let ghost start = *self;
        if self.can_queue_request() {
            let backflush = backflush_request(entry, counted_quantity);
            let ghost b = backflush;
            let key = FinalizeKey {
                doc_entry: entry.doc_entry,
                line_number: entry.line_number,
                item_code: entry.item_code.clone(),
                whs_code: entry.whs_code.clone(),
                counted: counted_quantity,
            };
            self.finalizing = Some(key);
            self.outstanding = Ghost(Some(InternalRequest::Backflush(b)));
            self.state = State::Sending(InternalRequest::Backflush(backflush));
        } else if !self.finalizing_matches(entry, counted_quantity) {
            proof {
                if outstanding_backflush_for(start, *entry, counted_quantity) {
                    assert(self.finalizing is Some);
                }
            }
            return Err(ProxyTransactionError::Busy);
        }
        let ghost mid = *self;
        let polled = self.poll_response();
        let ghost seen = polled;
        let r = finalize_result_of(polled);
        proof {
            if start@ is Idle {
                let b = choose|b: BackflushRequest|
                    mid@ == State::Sending(InternalRequest::Backflush(b)) && is_backflush_for(b, *entry, counted_quantity);
                assert(is_backflush_for(b, *entry, counted_quantity) && mid.outstanding() == Some(
                    InternalRequest::Backflush(b),
                ) && poll_step(State::Sending(InternalRequest::Backflush(b)), self@, seen) && r == finalize_result(seen));
            } else {
                assert(outstanding_backflush_for(start, *entry, counted_quantity));
                assert(poll_step(start@, self@, seen) && r == finalize_result(seen));
            }
        }
        r
    }
}

/// What a poll's result means for a finalize: a posted backflush is success,
/// another response a tag mismatch, and an error is passed on.
pub open spec fn finalize_result(polled: PollResult) -> Result<(), ProxyTransactionError> {
    match polled {
        Ok(Response::Backflush) => Ok(()),
        Ok(_) => Err(ProxyTransactionError::TagMismatch),
        Err(e) => Err(e),
    }
}

/// What a poll's result means for a finalize.
pub fn finalize_result_of(polled: PollResult) -> (r: Result<(), ProxyTransactionError>)
    ensures
        r == finalize_result(polled),
{
    match polled {
        Ok(Response::Backflush) => Ok(()),
        Ok(_) => Err(ProxyTransactionError::TagMismatch),
        Err(e) => Err(e),
    }
}

/// A finalize call may take the proxy from `old` to `new` with result `r`.
/// An idle proxy queues the backflush of `counted` pieces for `entry`, hands
/// it to the worker's channel and reads the poll's result as
/// `finalize_result` reads it. A proxy whose outstanding request is that
/// backflush is polled the same way. Any other outstanding request makes the
/// call `Busy`, with nothing changed.
pub open spec fn finalize_step(
    old: ProxyClient,
    new: ProxyClient,
    r: Result<(), ProxyTransactionError>,
    entry: Entry,
    counted: u32,
) -> bool {
    if old@ is Idle {
        exists|b: BackflushRequest, polled: PollResult|
            is_backflush_for(b, entry, counted) && new.outstanding() == Some(InternalRequest::Backflush(b))
                && new.handed() == old.handed().push(InternalRequest::Backflush(b)) && poll_step(
                State::Sending(InternalRequest::Backflush(b)),
                new@,
                polled,
            ) && r == finalize_result(polled)
    } else if outstanding_backflush_for(old, entry, counted) {
        exists|polled: PollResult|
            poll_step(old@, new@, polled) && r == finalize_result(polled) && new.outstanding() == old.outstanding()
                && (old@ matches State::Sending(q) ==> new.handed() == old.handed().push(q)) && (!(
            old@ is Sending) ==> new.handed() == old.handed())
    } else {
        r == Err::<(), ProxyTransactionError>(ProxyTransactionError::Busy) && new == old
    }
}

/// A finalize succeeds only on the worker's answer to the backflush of this
/// entry's step for this count, which frees the proxy; the call that queues
/// the backflush never succeeds, and a finalize never gives
/// `NoPendingRequest`.
pub proof fn lemma_finalize_succeeds_only_on_answer(
    old: ProxyClient,
    new: ProxyClient,
    r: Result<(), ProxyTransactionError>,
    entry: Entry,
    counted: u32,
)
    requires
        finalize_step(old, new, r, entry, counted),
    ensures
        r is Ok ==> old@ is Pending && new@ is Idle && outstanding_backflush_for(old, entry, counted),
        old@ is Idle ==> r is Err && (new@ is Pending || new@ is Sending) && outstanding_backflush_for(
            new,
            entry,
            counted,
        ),
        r != Err::<(), ProxyTransactionError>(ProxyTransactionError::NoPendingRequest),
{
    if old@ is Idle {
        let (b, polled) = choose|b: BackflushRequest, polled: PollResult|
            is_backflush_for(b, entry, counted) && new.outstanding() == Some(InternalRequest::Backflush(b))
                && new.handed() == old.handed().push(InternalRequest::Backflush(b)) && poll_step(
                State::Sending(InternalRequest::Backflush(b)),
                new@,
                polled,
            ) && r == finalize_result(polled);
        lemma_queued_request_is_kept(InternalRequest::Backflush(b), new@, polled);
    } else if outstanding_backflush_for(old, entry, counted) {
        let polled = choose|polled: PollResult|
            poll_step(old@, new@, polled) && r == finalize_result(polled) && new.outstanding() == old.outstanding()
                && (old@ matches State::Sending(q) ==> new.handed() == old.handed().push(q)) && (!(
            old@ is Sending) ==> new.handed() == old.handed());
        if r is Ok {
            lemma_answer_frees_the_proxy(old@, new@, polled);
        }
        lemma_poll_step_facts(old@, new@, polled);
    }
}

/// Queueing is accepted exactly when no request is outstanding, and a
/// refused queueing leaves the proxy as it was.
pub proof fn lemma_queue_only_when_idle(s: State, request: Request)
    ensures
        queue_step(s, request).1 is Ok <==> s is Idle,
        queue_step(s, request).1 is Err ==> queue_step(s, request).0 == s,
        queue_step(s, request).1 is Ok ==> queue_step(s, request).0 == State::Sending(
            internal_request_of(request),
        ),
{
}

/// A queued request is never lost: a poll either keeps that very request
/// queued or hands it to the worker (and then reports it pending), and never
/// reports that nothing is queued.
pub proof fn lemma_queued_request_is_kept(q: InternalRequest, new: State, r: PollResult)
    requires
        poll_step(State::Sending(q), new, r),
    ensures
        new == State::Sending(q) || new == State::Pending,
        new is Pending <==> r == Err::<Response, ProxyTransactionError>(ProxyTransactionError::Pending),
        r != Err::<Response, ProxyTransactionError>(ProxyTransactionError::NoPendingRequest),
        r is Err,
{
}

/// Only a request in the worker's hands is answered, and an answer, good or
/// bad, frees the proxy for the next request.
pub proof fn lemma_answer_frees_the_proxy(old: State, new: State, r: PollResult)
    requires
        poll_step(old, new, r),
        r is Ok || r matches Err(ProxyTransactionError::Response(_)),
    ensures
        old is Pending,
        new is Idle,
{
}

/// Polling never makes up a request: an idle proxy stays idle, and one that
/// awaits a response never goes back to sending.
pub proof fn lemma_poll_never_adds_a_request(old: State, new: State, r: PollResult)
    requires
        poll_step(old, new, r),
    ensures
        old is Idle ==> new is Idle,
        old is Pending ==> !(new is Sending),
{
}

/// A full round: from idle, a queued request that the channel takes, followed
/// by the worker's response, brings the proxy back to idle with that response.
pub proof fn lemma_round_trip(request: Request, response: Result<Response, ResponseError>)
    ensures
        ({
            let (queued, accepted) = queue_step(State::Idle, request);
            let (sent, first) = send_step(Ok(()));
            let (done, answer) = receive_step(Ok(response));
            &&& accepted is Ok
            &&& poll_step(queued, sent, first)
            &&& poll_step(sent, done, answer)
            &&& done is Idle
            &&& match response {
                Ok(v) => answer == Ok::<Response, ProxyTransactionError>(v),
                Err(e) => answer == Err::<Response, ProxyTransactionError>(ProxyTransactionError::Response(e)),
            }
        }),
{
    let (done, answer) = receive_step(Ok(response));
    match response {
        Ok(v) => assert((done, answer) == receive_step(Ok(Ok(v)))),
        Err(e) => assert((done, answer) == receive_step(Ok(Err(e)))),
    }
}

/// How far the proxy's one request has come: queued (0), in the worker's
/// hands (1), answered or none (2).
pub open spec fn stage(s: State) -> int {
    match s {
        State::Sending(_) => 0,
        State::Pending => 1,
        State::Idle => 2,
    }
}

/// A poll's result is the worker's answer, good or bad.
pub open spec fn is_answer(r: PollResult) -> bool {
    r is Ok || r matches Err(ProxyTransactionError::Response(_))
}

/// `states` and `results` are a run of polls: poll `i` takes the proxy from
/// `states[i]` to `states[i + 1]` with result `results[i]`.
pub open spec fn is_poll_run(states: Seq<State>, results: Seq<PollResult>) -> bool {
    &&& states.len() == results.len() + 1
    &&& forall|i: int| 0 <= i < results.len() ==> poll_step(states[i], states[i + 1], #[trigger] results[i])
}

/// Poll `i` of a run hands the request to the worker.
pub open spec fn sends_at(states: Seq<State>, i: int) -> bool {
    states[i] is Sending && states[i + 1] is Pending
}

proof fn lemma_poll_step_facts(a: State, b: State, r: PollResult)
    requires
        poll_step(a, b, r),
    ensures
        stage(a) <= stage(b),
        b is Sending ==> a == b,
        a is Idle ==> b is Idle && r == Err::<Response, ProxyTransactionError>(
            ProxyTransactionError::NoPendingRequest,
        ),
        is_answer(r) ==> a is Pending && b is Idle,
{
}

proof fn lemma_stage_grows(states: Seq<State>, results: Seq<PollResult>, i: int, j: int)
    requires
        is_poll_run(states, results),
        0 <= i <= j < states.len(),
    ensures
        stage(states[i]) <= stage(states[j]),
        states[j] is Sending ==> states[i] == states[j],
    decreases j - i,
{
    if i < j {
        lemma_stage_grows(states, results, i, j - 1);
        assert(poll_step(states[j - 1], states[j], results[j - 1]));
        lemma_poll_step_facts(states[j - 1], states[j], results[j - 1]);
    }
}

/// Over a run of polls that starts with the request `q` queued: the first
/// poll gives no answer; the queued request is always `q`; it is handed to
/// the worker at most once; at most one poll gives the worker's answer, and
/// after it the proxy is idle and every later poll reports that nothing is
/// queued.
pub proof fn lemma_poll_run(q: InternalRequest, states: Seq<State>, results: Seq<PollResult>)
    requires
        is_poll_run(states, results),
        states[0] == State::Sending(q),
    ensures
        results.len() > 0 ==> !is_answer(results[0]),
        forall|i: int| 0 <= i < states.len() && (#[trigger] states[i]) is Sending ==> states[i] == State::Sending(q),
        forall|i: int, j: int| 0 <= i < j < results.len() && sends_at(states, i) ==> !sends_at(states, j),
        forall|i: int, j: int|
            0 <= i < j < results.len() && is_answer(#[trigger] results[i]) ==> !is_answer(#[trigger] results[j])
                && states[j + 1] is Idle && results[j] == Err::<Response, ProxyTransactionError>(
                ProxyTransactionError::NoPendingRequest,
            ),
{
    if results.len() > 0 {
        assert(poll_step(states[0], states[1], results[0]));
        lemma_poll_step_facts(states[0], states[1], results[0]);
    }
    assert forall|i: int| 0 <= i < states.len() && (#[trigger] states[i]) is Sending implies states[i] == State::Sending(
        q,
    ) by {
        lemma_stage_grows(states, results, 0, i);
    }
    assert forall|i: int, j: int| 0 <= i < j < results.len() && sends_at(states, i) implies !sends_at(states, j) by {
        lemma_stage_grows(states, results, i + 1, j);
    }
    assert forall|i: int, j: int|
        0 <= i < j < results.len() && is_answer(#[trigger] results[i]) implies !is_answer(#[trigger] results[j])
            && states[j + 1] is Idle && results[j] == Err::<Response, ProxyTransactionError>(
            ProxyTransactionError::NoPendingRequest,
        ) by {
        assert(poll_step(states[i], states[i + 1], results[i]));
        lemma_poll_step_facts(states[i], states[i + 1], results[i]);
        lemma_stage_grows(states, results, i + 1, j);
        assert(poll_step(states[j], states[j + 1], results[j]));
        lemma_poll_step_facts(states[j], states[j + 1], results[j]);
    }
}


/// A poll in state `Pending` reports what the receive gave: a response is
/// returned as it is and an error as `Response` of it, and either frees the
/// proxy; no message keeps the proxy waiting, reporting `Pending` on an empty
/// channel and `ChannelClosed` on a closed one.
pub proof fn lemma_poll_reports_the_answer(old: ProxyClient, new: ProxyClient, r: PollResult)
    requires
        old@ is Pending,
        new.received() == old.received().push(new.received().last()),
        (new@, r) == receive_step(new.received().last()),
    ensures
        new.received().last() matches Ok(Ok(response)) ==> new@ == State::Idle && r == Ok::<
            Response,
            ProxyTransactionError,
        >(response),
        new.received().last() matches Ok(Err(e)) ==> new@ == State::Idle && r == Err::<
            Response,
            ProxyTransactionError,
        >(ProxyTransactionError::Response(e)),
        new.received().last() == Err::<Result<Response, ResponseError>, RecvFailure>(RecvFailure::Empty) ==> new@
            == State::Pending && r == Err::<Response, ProxyTransactionError>(ProxyTransactionError::Pending),
        new.received().last() == Err::<Result<Response, ResponseError>, RecvFailure>(RecvFailure::Closed) ==> new@
            == State::Pending && r == Err::<Response, ProxyTransactionError>(ProxyTransactionError::ChannelClosed),
        new.received().drop_last() == old.received(),
{
    assert(new.received().drop_last() =~= old.received());
}

} // verus!
