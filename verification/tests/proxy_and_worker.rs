use stahlwerk_extension::ff01::channel::{RecvFailure, SendFailure};
use stahlwerk_extension::ff01::client_proxy::{ProxyClient, State};
use stahlwerk_extension::ff01::worker::{Delivery, Job, JobOutcome, WorkerError, WorkerStep, MAX_SEND_ATTEMPTS};
use stahlwerk_extension::ff01::{
    backflush_request, Date, Entry, FinalizeRequest, IssueLine, InternalRequest, ProxyTransactionError, Request, Response, ResponseError, Time,
};
use stahlwerk_extension::float::{Float32, Float64};
use stahlwerk_extension::TargetRange;

fn f(x: f64) -> Float64 {
    Float64::from_bits(x.to_bits())
}

fn entry() -> Entry {
    Entry {
        doc_entry: 50492,
        line_number: 10,
        item_code: "ZURO-20161".to_string(),
        whs_code: "02".to_string(),
        weight_bounds: TargetRange { min: f(10.8), max: f(11.2), desired: f(11.0) },
    }
}

fn finalize_request() -> FinalizeRequest {
    FinalizeRequest {
        doc_entry: 54366,
        personnel_id: "04711".to_string(),
        start_date: Date { year: 2026, month: 3, day: 12 },
        end_date: Date { year: 2026, month: 3, day: 12 },
        from_time: Time { hour: 12, minute: 0 },
        to_time: Time { hour: 14, minute: 30 },
        quantity_scrap: f(2.0),
        quantity_counted: 14,
    }
}

#[test]
fn idle_proxy_has_nothing_to_poll() {
    let (mut proxy, _worker) = ProxyClient::with_worker();
    assert!(proxy.can_queue_request());
    assert!(matches!(proxy.poll_response(), Err(ProxyTransactionError::NoPendingRequest)));
    assert!(proxy.can_queue_request());
}

#[test]
fn request_round_trip() {
    let (mut proxy, mut worker) = ProxyClient::with_worker();
    assert!(matches!(worker.next_step(), WorkerStep::Wait));
    assert_eq!(proxy.queue_request(Request::GetNextEntry), Ok(()));
    assert!(!proxy.can_queue_request());
    assert_eq!(proxy.queue_request(Request::GetNextEntry), Err(()));
    assert!(matches!(proxy.poll_response(), Err(ProxyTransactionError::Pending)));
    assert!(matches!(proxy.poll_response(), Err(ProxyTransactionError::Pending)));
    assert!(!proxy.can_queue_request());
    match worker.next_step() {
        WorkerStep::Serve(Job::NextEntry) => {},
        other => panic!("unexpected step {:?}", other),
    }
    let payload = JobOutcome::NextEntry(Ok(Some(entry()))).into_payload();
    assert!(matches!(worker.offer(payload, 0), Delivery::Delivered));
    match proxy.poll_response() {
        Ok(Response::GetNextEntry(Some(e))) => assert_eq!(e.doc_entry, 50492),
        other => panic!("unexpected poll {:?}", other),
    }
    assert!(proxy.can_queue_request());
}

#[test]
fn worker_submission_request_names_the_entry() {
    let (mut proxy, mut worker) = ProxyClient::with_worker();
    let e = entry();
    assert_eq!(proxy.queue_request(Request::GetWorkerSubmission(&e)), Ok(()));
    assert!(matches!(proxy.poll_response(), Err(ProxyTransactionError::Pending)));
    match worker.next_step() {
        WorkerStep::Serve(Job::WorkerSubmission { doc_entry: 50492, line_number: 10 }) => {},
        other => panic!("unexpected step {:?}", other),
    }
    let err = ResponseError::InvalidData("x".to_string());
    assert!(matches!(worker.offer(Err(err.clone()), 3), Delivery::Delivered));
    match proxy.poll_response() {
        Err(ProxyTransactionError::Response(got)) => assert_eq!(got, err),
        other => panic!("unexpected poll {:?}", other),
    }
    assert!(proxy.can_queue_request());
}

#[test]
fn closed_worker_is_reported() {
    let (mut proxy, mut worker) = ProxyClient::with_worker();
    drop(worker);
    assert_eq!(proxy.queue_request(Request::GetNextEntry), Ok(()));
    assert!(matches!(proxy.poll_response(), Err(ProxyTransactionError::ChannelClosed)));
    assert!(!proxy.can_queue_request());
    assert!(matches!(proxy.poll_response(), Err(ProxyTransactionError::ChannelClosed)));
}

#[test]
fn closed_proxy_stops_the_worker() {
    let (proxy, mut worker) = ProxyClient::with_worker();
    drop(proxy);
    assert!(matches!(worker.next_step(), WorkerStep::Stop(Err(WorkerError::Closed))));
    assert!(matches!(worker.offer(Ok(Response::Finalize), 0), Delivery::Failed(WorkerError::Closed)));
}

#[test]
fn worker_steps() {
    assert!(matches!(WorkerStep::from_outcome(Ok(InternalRequest::Terminate)), WorkerStep::Stop(Ok(()))));
    assert!(matches!(WorkerStep::from_outcome(Err(RecvFailure::Empty)), WorkerStep::Wait));
    assert!(matches!(
        WorkerStep::from_outcome(Err(RecvFailure::Closed)),
        WorkerStep::Stop(Err(WorkerError::Closed))
    ));
    assert!(matches!(
        WorkerStep::from_outcome(Ok(InternalRequest::GetWorkerSubmission(1, 2))),
        WorkerStep::Serve(Job::WorkerSubmission { doc_entry: 1, line_number: 2 })
    ));
}

#[test]
fn full_channel_is_retried_until_the_last_attempt() {
    assert!(matches!(Delivery::from_outcome(0, Err(SendFailure::Full(7))), Delivery::Retry(7)));
    assert!(matches!(
        Delivery::from_outcome(MAX_SEND_ATTEMPTS - 2, Err(SendFailure::Full(7))),
        Delivery::Retry(7)
    ));
    assert!(matches!(
        Delivery::from_outcome(MAX_SEND_ATTEMPTS - 1, Err(SendFailure::Full(7))),
        Delivery::Failed(WorkerError::Timeout)
    ));
    assert!(matches!(Delivery::from_outcome(0, Err(SendFailure::Closed(7))), Delivery::Failed(WorkerError::Closed)));
    assert!(matches!(Delivery::<u8>::from_outcome(MAX_SEND_ATTEMPTS - 1, Ok(())), Delivery::Delivered));
    assert_eq!(MAX_SEND_ATTEMPTS, 50);
}

#[test]
fn poll_steps() {
    let (s, r) = State::after_send(Ok(()));
    assert!(matches!(s, State::Pending));
    assert!(matches!(r, Err(ProxyTransactionError::Pending)));
    let (s, r) = State::after_send(Err(SendFailure::Full(InternalRequest::Terminate)));
    assert!(matches!(s, State::Sending(InternalRequest::Terminate)));
    assert!(matches!(r, Err(ProxyTransactionError::ChannelFull)));
    let (s, r) = State::after_send(Err(SendFailure::Closed(InternalRequest::GetNextEntry)));
    assert!(matches!(s, State::Sending(InternalRequest::GetNextEntry)));
    assert!(matches!(r, Err(ProxyTransactionError::ChannelClosed)));
    let (s, r) = State::after_receive(Ok(Ok(Response::Finalize)));
    assert!(matches!(s, State::Idle));
    assert!(matches!(r, Ok(Response::Finalize)));
    let (s, r) = State::after_receive(Err(RecvFailure::Empty));
    assert!(matches!(s, State::Pending));
    assert!(matches!(r, Err(ProxyTransactionError::Pending)));
    let (s, r) = State::after_receive(Err(RecvFailure::Closed));
    assert!(matches!(s, State::Pending));
    assert!(matches!(r, Err(ProxyTransactionError::ChannelClosed)));
}

#[test]
fn job_outcomes_become_responses() {
    assert!(matches!(JobOutcome::Finalized(Ok(())).into_payload(), Ok(Response::Finalize)));
    match JobOutcome::WorkerSubmission(Ok(Some(("04711".to_string(), f(1.5))))).into_payload() {
        Ok(Response::GetWorkerSubmission(Some((p, q)))) => {
            assert_eq!(p, "04711");
            assert_eq!(q, f(1.5));
        },
        other => panic!("unexpected {:?}", other),
    }
    let err = ResponseError::InvalidData("bad".to_string());
    assert_eq!(JobOutcome::NextEntry(Err(err.clone())).into_payload().unwrap_err(), err);
}

#[test]
fn finalize_request_reaches_the_worker_and_books_a_receipt() {
    let (mut proxy, mut worker) = ProxyClient::with_worker();
    assert_eq!(proxy.queue_request(Request::Finalize(finalize_request())), Ok(()));
    assert!(matches!(proxy.poll_response(), Err(ProxyTransactionError::Pending)));
    let data = match worker.next_step() {
        WorkerStep::Serve(Job::TimeReceipt(data)) => data,
        other => panic!("unexpected step {:?}", other),
    };
    let post = data.into_time_receipt(f(12.0), Float32::from_bits(9000.0f32.to_bits()));
    assert_eq!(post.doc_entry, 54366);
    assert_eq!(post.line_number, 10);
    assert_eq!(post.line_number2, 10);
    assert_eq!(post.line_number3, Some(0));
    assert_eq!(post.time_type.as_deref(), Some("A"));
    assert_eq!(post.resource_id.as_deref(), Some("FF01"));
    assert_eq!(post.quantity_good, Some(f(12.0)));
    assert_eq!(post.personnel_id, "04711");
    assert_eq!(post.quantity_scrap, Some(f(0.0)));
    assert_eq!(post.start_date, Some(Date { year: 2026, month: 3, day: 12 }));
    assert_eq!(post.end_date, Some(Date { year: 2026, month: 3, day: 12 }));
    assert_eq!(post.from_time, Some(Time { hour: 12, minute: 0 }));
    assert_eq!(post.to_time, Some(Time { hour: 14, minute: 30 }));
    assert_eq!(post.close_entry, Some(true));
    assert_eq!(post.manual_booking, Some(false));
    assert_eq!(post.duration.map(|d| d.to_bits()), Some(9000.0f32.to_bits()));
    assert_eq!(post.calculate_duration, Some(false));
    assert_eq!(post.remarks.as_deref(), Some("QiTech-Control"));
}

#[test]
fn full_channel_gets_fifty_offers() {
    let mut offers = 0;
    let mut attempt = 0;
    loop {
        offers += 1;
        match Delivery::from_outcome(attempt, Err(SendFailure::Full(()))) {
            Delivery::Retry(()) => attempt += 1,
            Delivery::Failed(e) => {
                assert_eq!(e, WorkerError::Timeout);
                break;
            },
            Delivery::Delivered => panic!("a full channel took the response"),
        }
    }
    assert_eq!(offers, 50);
}

#[test]
fn finalize_posts_a_backflush_and_succeeds_on_the_answer() {
    let (mut proxy, mut worker) = ProxyClient::with_worker();
    let e = entry();
    assert!(matches!(proxy.finalize(&e, 12), Err(ProxyTransactionError::Pending)));
    assert!(!proxy.can_queue_request());
    assert!(matches!(proxy.finalize(&e, 12), Err(ProxyTransactionError::Pending)));
    let backflush = match worker.next_step() {
        WorkerStep::Serve(Job::Backflush(b)) => b,
        other => panic!("unexpected step {:?}", other),
    };
    assert_eq!(backflush, backflush_request(&e, 12));
    assert_eq!(backflush.doc_entry, 50492);
    assert_eq!(backflush.line_number, 10);
    assert_eq!(backflush.doc_date, None);
    assert!(backflush.close_entry);
    assert_eq!(backflush.quantity_good, 12);
    assert_eq!(
        backflush.issue_lines,
        vec![IssueLine {
            line_number2: 10,
            quantity: 12,
            item_code: "ZURO-20161".to_string(),
            whs_code: "02".to_string(),
        }]
    );
    assert!(backflush.receipt_lines.is_empty());
    assert!(matches!(worker.offer(JobOutcome::Backflushed(Ok(())).into_payload(), 0), Delivery::Delivered));
    assert!(proxy.finalize(&e, 12).is_ok());
    assert!(proxy.can_queue_request());
}

#[test]
fn finalize_reports_a_failed_post_and_leaves_other_requests_alone() {
    let (mut proxy, mut worker) = ProxyClient::with_worker();
    let e = entry();
    assert!(matches!(proxy.finalize(&e, 3), Err(ProxyTransactionError::Pending)));
    assert!(matches!(worker.next_step(), WorkerStep::Serve(Job::Backflush(_))));
    let err = ResponseError::InvalidData("refused".to_string());
    assert!(matches!(worker.offer(JobOutcome::Backflushed(Err(err.clone())).into_payload(), 0), Delivery::Delivered));
    match proxy.finalize(&e, 3) {
        Err(ProxyTransactionError::Response(got)) => assert_eq!(got, err),
        other => panic!("unexpected {:?}", other),
    }
    assert!(proxy.can_queue_request());

    assert_eq!(proxy.queue_request(Request::GetNextEntry), Ok(()));
    assert!(matches!(proxy.finalize(&e, 3), Err(ProxyTransactionError::Busy)));
    assert!(matches!(proxy.poll_response(), Err(ProxyTransactionError::Pending)));
    assert!(matches!(worker.next_step(), WorkerStep::Serve(Job::NextEntry)));
    assert!(matches!(worker.offer(Ok(Response::GetNextEntry(None)), 0), Delivery::Delivered));
    assert!(matches!(proxy.finalize(&e, 3), Err(ProxyTransactionError::Busy)));
    assert!(matches!(proxy.poll_response(), Ok(Response::GetNextEntry(None))));
    assert!(proxy.can_queue_request());
}

#[test]
fn finalize_on_a_closed_worker() {
    let (mut proxy, mut worker) = ProxyClient::with_worker();
    drop(worker);
    assert!(matches!(proxy.finalize(&entry(), 1), Err(ProxyTransactionError::ChannelClosed)));
    assert!(!proxy.can_queue_request());
}

#[test]
fn finalize_for_another_entry_is_busy() {
    let (mut proxy, mut worker) = ProxyClient::with_worker();
    let e = entry();
    let mut other = entry();
    other.doc_entry = 1;
    assert!(matches!(proxy.finalize(&e, 3), Err(ProxyTransactionError::Pending)));
    assert!(matches!(proxy.finalize(&other, 3), Err(ProxyTransactionError::Busy)));
    assert!(matches!(proxy.finalize(&e, 4), Err(ProxyTransactionError::Busy)));
    assert!(matches!(worker.next_step(), WorkerStep::Serve(Job::Backflush(_))));
    assert!(matches!(worker.offer(JobOutcome::Backflushed(Ok(())).into_payload(), 0), Delivery::Delivered));
    assert!(matches!(proxy.finalize(&other, 3), Err(ProxyTransactionError::Busy)));
    assert!(proxy.finalize(&e, 3).is_ok());
    assert!(matches!(proxy.finalize(&other, 3), Err(ProxyTransactionError::Pending)));
}
