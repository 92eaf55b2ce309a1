//! The worker's decisions: which request to serve, what to answer, and how
//! long to keep offering a response to a full channel.
//!
//! The worker thread alternates server calls and pauses with these
//! decisions: it asks [`Worker::next_step`] what to do, does the job that a
//! served request calls for, turns the result into a response with
//! [`JobOutcome::into_payload`], and offers it with [`Worker::offer`] until
//! it is taken or the worker gives up.
use vstd::prelude::*;

use smol::channel::{Receiver, Sender};

use crate::ff01::channel::{try_recv, try_send, RecvFailure, SendFailure};
use crate::ff01::error::ResponseError;
use crate::ff01::{BackflushRequest, Entry, FinalizeRequest, InternalRequest, Response};
use crate::float::Float64;

verus! {

/// Why the worker stopped.
#[derive(Debug, Clone, Copy, PartialEq, Eq)]
pub enum WorkerError {
    /// The proxy's end of a channel is gone.
    Closed,
    /// The proxy took no response within the allowed attempts.
    Timeout,
}

/// The worker's ends of the two channels to the proxy.
pub struct Worker {
    sender: Sender<Result<Response, ResponseError>>,
    receiver: Receiver<InternalRequest>,
    /// The outcomes of the receives made on `receiver`, in order.
    received: Ghost<Seq<Result<InternalRequest, RecvFailure>>>,
    /// The responses handed to `sender`, once per offer, in order.
    offered: Ghost<Seq<Result<Response, ResponseError>>>,
}

/// The most times a response is offered before the worker gives up with
/// `Timeout`. The offers are numbered from 0.
pub const MAX_SEND_ATTEMPTS: u32 = 50;

/// The pause between two offers of a response, in milliseconds.
pub const SEND_TIMEOUT_MILLIS: u64 = 50;

/// The pause before looking again for a request, in milliseconds.
pub const IDLE_MILLIS: u64 = 50;

/// The server work that a request calls for.
#[derive(Debug)]
pub enum Job {
    /// Look up the next entry (see `EntryLookup`).
    NextEntry,
    /// Read the time receipts of a workorder position for a worker's
    /// submission.
    WorkerSubmission { doc_entry: i32, line_number: i32 },
    /// Book the time receipt that closes a workorder step.
    TimeReceipt(FinalizeRequest),
    /// Post the backflush that closes a workorder step.
    Backflush(BackflushRequest),
}

/// The job for a request; `Terminate` calls for none.
pub open spec fn job_for(request: InternalRequest) -> Option<Job> {
    match request {
        InternalRequest::GetNextEntry => Some(Job::NextEntry),
        InternalRequest::GetWorkerSubmission(doc_entry, line_number) => Some(
            Job::WorkerSubmission { doc_entry, line_number },
        ),
        InternalRequest::Finalize(data) => Some(Job::TimeReceipt(data)),
        InternalRequest::Backflush(data) => Some(Job::Backflush(data)),
        InternalRequest::Terminate => None,
    }
}

/// What the worker does next.
#[derive(Debug)]
pub enum WorkerStep {
    /// No request is waiting: pause, then look again.
    Wait,
    /// Do this job and answer the request with its outcome.
    Serve(Job),
    /// Stop, with this result.
    Stop(Result<(), WorkerError>),
}

/// What became of an offered response.
#[derive(Debug)]
pub enum Delivery<T> {
    /// The proxy's channel took it.
    Delivered,
    /// The worker gives up, for this reason.
    Failed(WorkerError),
    /// The channel is full: pause, then offer this same response again.
    Retry(T),
}

/// The step that a receive's outcome calls for: a request is served with its
/// job, except `Terminate`, which stops the worker cleanly; an empty channel
/// means waiting, and a closed one stopping with `Closed`.
pub open spec fn step_for(outcome: Result<InternalRequest, RecvFailure>) -> WorkerStep {
    match outcome {
        Ok(request) => match job_for(request) {
            Some(job) => WorkerStep::Serve(job),
            None => WorkerStep::Stop(Ok(())),
        },
        Err(RecvFailure::Empty) => WorkerStep::Wait,
        Err(RecvFailure::Closed) => WorkerStep::Stop(Err(WorkerError::Closed)),
    }
}

/// What the offer numbered `attempt` comes to, given the send's outcome: a
/// closed channel ends the worker at once, and a full one is offered again
/// unless this was the last of the `MAX_SEND_ATTEMPTS` offers.
pub open spec fn delivery_for<T>(attempt: u32, outcome: Result<(), SendFailure<T>>) -> Delivery<T> {
    match outcome {
        Ok(()) => Delivery::Delivered,
        Err(SendFailure::Closed(_)) => Delivery::Failed(WorkerError::Closed),
        Err(SendFailure::Full(back)) => if attempt + 1 >= MAX_SEND_ATTEMPTS {
            Delivery::Failed(WorkerError::Timeout)
        } else {
            Delivery::Retry(back)
        },
    }
}

impl WorkerStep {
    /// The step for a receive's outcome.
    pub fn from_outcome(outcome: Result<InternalRequest, RecvFailure>) -> (r: WorkerStep)
        ensures
            r == step_for(outcome),
    {
        match outcome {
            Ok(InternalRequest::GetNextEntry) => WorkerStep::Serve(Job::NextEntry),
            Ok(InternalRequest::GetWorkerSubmission(doc_entry, line_number)) => WorkerStep::Serve(
                Job::WorkerSubmission { doc_entry, line_number },
            ),
            Ok(InternalRequest::Finalize(data)) => WorkerStep::Serve(Job::TimeReceipt(data)),
            Ok(InternalRequest::Backflush(data)) => WorkerStep::Serve(Job::Backflush(data)),
            Ok(InternalRequest::Terminate) => WorkerStep::Stop(Ok(())),
            Err(RecvFailure::Empty) => WorkerStep::Wait,
            Err(RecvFailure::Closed) => WorkerStep::Stop(Err(WorkerError::Closed)),
        }
    }
}

impl<T> Delivery<T> {
    /// What the offer numbered `attempt` comes to, given the send's outcome.
    pub fn from_outcome(attempt: u32, outcome: Result<(), SendFailure<T>>) -> (r: Delivery<T>)
        requires
            attempt < MAX_SEND_ATTEMPTS,
        ensures
            r == delivery_for(attempt, outcome),
    {
        match outcome {
            Ok(()) => Delivery::Delivered,
            Err(SendFailure::Closed(_)) => Delivery::Failed(WorkerError::Closed),
            Err(SendFailure::Full(back)) => if attempt + 1 >= MAX_SEND_ATTEMPTS {
                Delivery::Failed(WorkerError::Timeout)
            } else {
                Delivery::Retry(back)
            },
        }
    }
}

/// The result of a job.
#[derive(Debug)]
pub enum JobOutcome {
    NextEntry(Result<Option<Entry>, ResponseError>),
    WorkerSubmission(Result<Option<(String, Float64)>, ResponseError>),
    Finalized(Result<(), ResponseError>),
    Backflushed(Result<(), ResponseError>),
}

/// `outcome` is a result of `job`'s kind.
pub open spec fn outcome_of_job(job: Job, outcome: JobOutcome) -> bool {
    match job {
        Job::NextEntry => outcome is NextEntry,
        Job::WorkerSubmission { .. } => outcome is WorkerSubmission,
        Job::TimeReceipt(_) => outcome is Finalized,
        Job::Backflush(_) => outcome is Backflushed,
    }
}

/// The response that the proxy gets for a job's result: the data under the
/// tag of the request, or the error as it is.
pub open spec fn payload_of(outcome: JobOutcome) -> Result<Response, ResponseError> {
    match outcome {
        JobOutcome::NextEntry(Ok(v)) => Ok(Response::GetNextEntry(v)),
        JobOutcome::WorkerSubmission(Ok(v)) => Ok(Response::GetWorkerSubmission(v)),
        JobOutcome::Finalized(Ok(())) => Ok(Response::Finalize),
        JobOutcome::Backflushed(Ok(())) => Ok(Response::Backflush),
        JobOutcome::NextEntry(Err(e)) => Err(e),
        JobOutcome::WorkerSubmission(Err(e)) => Err(e),
        JobOutcome::Finalized(Err(e)) => Err(e),
        JobOutcome::Backflushed(Err(e)) => Err(e),
    }
}

/// `payload` answers `request`: an error, or a response under the request's
/// tag.
pub open spec fn answers_request(request: InternalRequest, payload: Result<Response, ResponseError>) -> bool {
    match payload {
        Err(_) => true,
        Ok(response) => match (request, response) {
            (InternalRequest::GetNextEntry, Response::GetNextEntry(_)) => true,
            (InternalRequest::GetWorkerSubmission(_, _), Response::GetWorkerSubmission(_)) => true,
            (InternalRequest::Finalize(_), Response::Finalize) => true,
            (InternalRequest::Backflush(_), Response::Backflush) => true,
            _ => false,
        },
    }
}

impl JobOutcome {
    /// The response that the proxy gets for this result.
    pub fn into_payload(self) -> (r: Result<Response, ResponseError>)
        ensures
            r == payload_of(self),
    {
        match self {
            JobOutcome::NextEntry(Ok(v)) => Ok(Response::GetNextEntry(v)),
            JobOutcome::WorkerSubmission(Ok(v)) => Ok(Response::GetWorkerSubmission(v)),
            JobOutcome::Finalized(Ok(())) => Ok(Response::Finalize),
            JobOutcome::Backflushed(Ok(())) => Ok(Response::Backflush),
            JobOutcome::NextEntry(Err(e)) => Err(e),
            JobOutcome::WorkerSubmission(Err(e)) => Err(e),
            JobOutcome::Finalized(Err(e)) => Err(e),
            JobOutcome::Backflushed(Err(e)) => Err(e),
        }
    }
}

impl Worker {
    /// A worker on the given channel ends, having received and offered
    /// nothing.
    pub fn new(receiver: Receiver<InternalRequest>, sender: Sender<Result<Response, ResponseError>>) -> (r: Worker)
        ensures
            r.spec_receiver() == receiver,
            r.spec_sender() == sender,
            r.received() == Seq::<Result<InternalRequest, RecvFailure>>::empty(),
            r.offered() == Seq::<Result<Response, ResponseError>>::empty(),
    {
        Worker { sender, receiver, received: Ghost(Seq::empty()), offered: Ghost(Seq::empty()) }
    }

    pub closed spec fn spec_receiver(self) -> Receiver<InternalRequest> {
        self.receiver
    }

    pub closed spec fn spec_sender(self) -> Sender<Result<Response, ResponseError>> {
        self.sender
    }

    /// The outcomes of the receives made on the worker's receiving end, in
    /// order.
    pub closed spec fn received(self) -> Seq<Result<InternalRequest, RecvFailure>> {
        self.received@
    }

    /// The responses handed to the worker's sending end, once per offer, in
    /// order.
    pub closed spec fn offered(self) -> Seq<Result<Response, ResponseError>> {
        self.offered@
    }

    /// Look for a request on the worker's receiving end, without waiting,
    /// and decide what to do: the step is what the receive's outcome calls
    /// for, and that outcome is added to the received ones.
    pub fn next_step(&mut self) -> (r: WorkerStep)
        ensures
            final(self).received().len() == old(self).received().len() + 1,
            final(self).received() == old(self).received().push(final(self).received().last()),
            r == step_for(final(self).received().last()),
            final(self).offered() == old(self).offered(),
            final(self).spec_receiver() == old(self).spec_receiver(),
            final(self).spec_sender() == old(self).spec_sender(),
    {
        let (outcome, copy) = try_recv(&self.receiver);
        let ghost seen = copy@;
        self.received = Ghost(self.received@.push(seen));
        let r = WorkerStep::from_outcome(outcome);
        assert(self.received@.last() == seen);
        r
    }

    /// Offer a response on the worker's sending end, without waiting;
    /// `attempt` counts the offers of this response made before. The
    /// response is added to the offered ones.
    pub fn offer(&mut self, payload: Result<Response, ResponseError>, attempt: u32) -> (r: Delivery<Result<Response, ResponseError>>)
        requires
            attempt < MAX_SEND_ATTEMPTS,
        ensures
            final(self).offered() == old(self).offered().push(payload),
            ({
                ||| r == delivery_for(attempt, Ok::<(), SendFailure<Result<Response, ResponseError>>>(()))
                ||| r == delivery_for(attempt, Err(SendFailure::Full(payload)))
                ||| r == delivery_for(attempt, Err(SendFailure::Closed(payload)))
            }),
            r matches Delivery::Retry(back) ==> back == payload && attempt + 1 < MAX_SEND_ATTEMPTS,
            final(self).received() == old(self).received(),
            final(self).spec_receiver() == old(self).spec_receiver(),
            final(self).spec_sender() == old(self).spec_sender(),
    {
        let ghost handed = payload;
        self.offered = Ghost(self.offered@.push(handed));
        let outcome = try_send(&self.sender, payload);
        let ghost seen = outcome;
        let r = Delivery::from_outcome(attempt, outcome);
        proof {
            match seen {
                Ok(()) => {},
                Err(SendFailure::Full(back)) => assert(back == handed),
                Err(SendFailure::Closed(back)) => assert(back == handed),
            }
        }
        r
    }
}

/// How offering a response ends, when the channel's outcomes for the offers
/// from attempt `attempt` on are `outcomes`: the result once settled (none if
/// the outcomes run out first) and the number of offers made.
pub open spec fn offer_run<T>(attempt: u32, outcomes: Seq<Result<(), SendFailure<T>>>) -> (
    Option<Result<(), WorkerError>>,
    nat,
)
    decreases outcomes.len(),
{
    if outcomes.len() == 0 {
        (None, 0)
    } else {
        match delivery_for(attempt, outcomes[0]) {
            Delivery::Delivered => (Some(Ok(())), 1),
            Delivery::Failed(e) => (Some(Err(e)), 1),
            Delivery::Retry(_) => {
                let (settled, offers) = offer_run((attempt + 1) as u32, outcomes.drop_first());
                (settled, offers + 1)
            },
        }
    }
}

/// A response is offered at most `MAX_SEND_ATTEMPTS` times, whatever the
/// channel does: by then the worker has delivered it or given up.
pub proof fn lemma_offers_are_bounded<T>(attempt: u32, outcomes: Seq<Result<(), SendFailure<T>>>)
    requires
        attempt < MAX_SEND_ATTEMPTS,
    ensures
        offer_run(attempt, outcomes).1 <= MAX_SEND_ATTEMPTS - attempt,
        outcomes.len() >= MAX_SEND_ATTEMPTS - attempt ==> offer_run(attempt, outcomes).0 is Some,
    decreases outcomes.len(),
{
    if outcomes.len() > 0 {
        match delivery_for(attempt, outcomes[0]) {
            Delivery::Retry(_) => lemma_offers_are_bounded((attempt + 1) as u32, outcomes.drop_first()),
            _ => {},
        }
    }
}

/// A channel that stays full makes the worker give up with `Timeout` after
/// exactly `MAX_SEND_ATTEMPTS` offers of a response, the response never
/// delivered.
pub proof fn lemma_full_channel_times_out<T>(attempt: u32, outcomes: Seq<Result<(), SendFailure<T>>>)
    requires
        attempt < MAX_SEND_ATTEMPTS,
        outcomes.len() == MAX_SEND_ATTEMPTS - attempt,
        forall|i: int| 0 <= i < outcomes.len() ==> #[trigger] outcomes[i] is Err && outcomes[i]->Err_0 is Full,
    ensures
        offer_run(attempt, outcomes) == (
            Some(Err::<(), WorkerError>(WorkerError::Timeout)),
            (MAX_SEND_ATTEMPTS - attempt) as nat,
        ),
    decreases outcomes.len(),
{
    assert(outcomes[0] is Err && outcomes[0]->Err_0 is Full);
    if attempt + 1 < MAX_SEND_ATTEMPTS {
        let rest = outcomes.drop_first();
        assert forall|i: int| 0 <= i < rest.len() implies #[trigger] rest[i] is Err && rest[i]->Err_0 is Full by {
            assert(rest[i] == outcomes[i + 1]);
        }
        lemma_full_channel_times_out((attempt + 1) as u32, rest);
    }
}

/// A closed channel ends the offers at once with `Closed`.
pub proof fn lemma_closed_channel_stops<T>(attempt: u32, back: T, outcomes: Seq<Result<(), SendFailure<T>>>)
    requires
        outcomes.len() > 0,
        outcomes[0] == Err::<(), SendFailure<T>>(SendFailure::Closed(back)),
    ensures
        offer_run(attempt, outcomes) == (Some(Err::<(), WorkerError>(WorkerError::Closed)), 1nat),
{
}

/// The worker's run, when its receives give `received` and its jobs, in the
/// order they are done, give `outcomes`, and every response is taken at its
/// first offer: the result once the worker stops (none if the receives run
/// out first) and the responses it sent, in order.
pub open spec fn serve_run(received: Seq<Result<InternalRequest, RecvFailure>>, outcomes: Seq<JobOutcome>) -> (
    Option<Result<(), WorkerError>>,
    Seq<Result<Response, ResponseError>>,
)
    decreases received.len(),
{
    if received.len() == 0 {
        (None, Seq::empty())
    } else {
        match step_for(received[0]) {
            WorkerStep::Wait => serve_run(received.drop_first(), outcomes),
            WorkerStep::Stop(r) => (Some(r), Seq::empty()),
            WorkerStep::Serve(_) => if outcomes.len() == 0 {
                (None, Seq::empty())
            } else {
                let (settled, sent) = serve_run(received.drop_first(), outcomes.drop_first());
                (settled, seq![payload_of(outcomes[0])] + sent)
            },
        }
    }
}

/// The worker answers each request once and in order: when it receives the
/// requests `requests` (none of them `Terminate`) and then `Terminate`, and
/// each job gives a result of its kind, it stops cleanly having sent exactly
/// one response per request, in the order of the requests, each answering
/// its request.
pub proof fn lemma_one_response_per_request(requests: Seq<InternalRequest>, outcomes: Seq<JobOutcome>)
    requires
        outcomes.len() == requests.len(),
        forall|i: int| 0 <= i < requests.len() ==> !(#[trigger] requests[i] is Terminate),
        forall|i: int|
            0 <= i < requests.len() ==> outcome_of_job(#[trigger] job_for(requests[i]).unwrap(), outcomes[i]),
    ensures
        ({
            let received = requests.map_values(|q: InternalRequest| Ok::<InternalRequest, RecvFailure>(q)).push(
                Ok(InternalRequest::Terminate),
            );
            let (settled, sent) = serve_run(received, outcomes);
            &&& settled == Some(Ok::<(), WorkerError>(()))
            &&& sent == outcomes.map_values(|o: JobOutcome| payload_of(o))
            &&& forall|i: int| 0 <= i < requests.len() ==> answers_request(requests[i], #[trigger] sent[i])
        }),
    decreases requests.len(),
{
    let received = requests.map_values(|q: InternalRequest| Ok::<InternalRequest, RecvFailure>(q)).push(
        Ok(InternalRequest::Terminate),
    );
    if requests.len() == 0 {
        assert(received[0] == Ok::<InternalRequest, RecvFailure>(InternalRequest::Terminate));
        assert(outcomes.map_values(|o: JobOutcome| payload_of(o)) =~= Seq::<Result<Response, ResponseError>>::empty());
    } else {
        let rq = requests.drop_first();
        let ro = outcomes.drop_first();
        assert forall|i: int| 0 <= i < rq.len() implies !(#[trigger] rq[i] is Terminate) by {
            assert(rq[i] == requests[i + 1]);
        }
        assert forall|i: int| 0 <= i < rq.len() implies outcome_of_job(#[trigger] job_for(rq[i]).unwrap(), ro[i]) by {
            assert(rq[i] == requests[i + 1]);
            assert(ro[i] == outcomes[i + 1]);
        }
        lemma_one_response_per_request(rq, ro);
        let rest = rq.map_values(|q: InternalRequest| Ok::<InternalRequest, RecvFailure>(q)).push(
            Ok(InternalRequest::Terminate),
        );
        assert(received.drop_first() =~= rest);
        assert(received[0] == Ok::<InternalRequest, RecvFailure>(requests[0]));
        assert(!(requests[0] is Terminate));
        assert(outcome_of_job(job_for(requests[0]).unwrap(), outcomes[0]));
        let (settled, sent) = serve_run(received, outcomes);
        let (s2, sent2) = serve_run(rest, ro);
        assert(sent == seq![payload_of(outcomes[0])] + sent2);
        assert(sent =~= outcomes.map_values(|o: JobOutcome| payload_of(o)));
        assert forall|i: int| 0 <= i < requests.len() implies answers_request(requests[i], #[trigger] sent[i]) by {
            if i > 0 {
                assert(requests[i] == rq[i - 1]);
                assert(sent[i] == sent2[i - 1]);
            } else {
                assert(sent[0] == payload_of(outcomes[0]));
            }
        }
    }
}


/// A received request is served with the job it asks for, its data
/// unchanged: the time receipts of exactly the named position, the time
/// receipt and the backflush exactly as sent; `Terminate` stops the worker
/// cleanly. The step that `next_step` returns is this for the outcome it
/// records.
pub proof fn lemma_request_served_as_asked(
    received: Seq<Result<InternalRequest, RecvFailure>>,
    r: WorkerStep,
)
    requires
        received.len() > 0,
        r == step_for(received.last()),
    ensures
        received.last() matches Ok(InternalRequest::GetWorkerSubmission(d, l)) ==> r matches WorkerStep::Serve(
            Job::WorkerSubmission { doc_entry, line_number },
        ) && doc_entry == d && line_number == l,
        received.last() == Ok::<InternalRequest, RecvFailure>(InternalRequest::GetNextEntry) ==> r matches WorkerStep::Serve(
            Job::NextEntry,
        ),
        received.last() matches Ok(InternalRequest::Finalize(data)) ==> r matches WorkerStep::Serve(
            Job::TimeReceipt(d),
        ) && d == data,
        received.last() matches Ok(InternalRequest::Backflush(data)) ==> r matches WorkerStep::Serve(
            Job::Backflush(b),
        ) && b == data,
        received.last() == Ok::<InternalRequest, RecvFailure>(InternalRequest::Terminate) ==> r matches WorkerStep::Stop(
            Ok(()),
        ),
        received.last() == Err::<InternalRequest, RecvFailure>(RecvFailure::Empty) ==> r is Wait,
        received.last() == Err::<InternalRequest, RecvFailure>(RecvFailure::Closed) ==> r matches WorkerStep::Stop(
            Err(WorkerError::Closed),
        ),
{
}

/// A job's error reaches the proxy unchanged, and only a job that succeeded
/// gives a response, carrying the job's data under the tag of its request.
pub proof fn lemma_payload_passes_errors(o: JobOutcome)
    ensures
        o matches JobOutcome::NextEntry(res) ==> (res matches Err(e) ==> payload_of(o) == Err::<
            Response,
            ResponseError,
        >(e)) && (res matches Ok(v) ==> payload_of(o) == Ok::<Response, ResponseError>(
            Response::GetNextEntry(v),
        )),
        o matches JobOutcome::WorkerSubmission(res) ==> (res matches Err(e) ==> payload_of(o) == Err::<
            Response,
            ResponseError,
        >(e)) && (res matches Ok(v) ==> payload_of(o) == Ok::<Response, ResponseError>(
            Response::GetWorkerSubmission(v),
        )),
        o matches JobOutcome::Finalized(res) ==> (res matches Err(e) ==> payload_of(o) == Err::<
            Response,
            ResponseError,
        >(e)) && (res is Ok ==> payload_of(o) == Ok::<Response, ResponseError>(Response::Finalize)),
        o matches JobOutcome::Backflushed(res) ==> (res matches Err(e) ==> payload_of(o) == Err::<
            Response,
            ResponseError,
        >(e)) && (res is Ok ==> payload_of(o) == Ok::<Response, ResponseError>(Response::Backflush)),
{
}

} // verus!
