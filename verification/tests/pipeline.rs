use stahlwerk_extension::ff01::channel::SendFailure;
use stahlwerk_extension::ff01::client_proxy::ProxyClient;
use stahlwerk_extension::ff01::requests::{
    get_worker_submission, EntryLookup, LookupAnswer, LookupStep, QCOrderMeasurement, TimeReceipt, WorkorderBom,
    WorkorderRouting,
};
use stahlwerk_extension::ff01::worker::{Delivery, Job, JobOutcome, Worker, WorkerError, WorkerStep};
use stahlwerk_extension::ff01::{
    ClientTransactionError, Date, Entry, FinalizeRequest, InternalRequest, ProxyTransactionError, Request, Response,
    ResponseError, Time,
};
use stahlwerk_extension::float::{Float32, Float64};

fn f(x: f64) -> Float64 {
    Float64::from_bits(x.to_bits())
}

/// One turn of a worker loop as a program runs it, answering from fixed
/// server records; `Some` once the worker stops.
fn serve(worker: &mut Worker) -> Option<Result<(), WorkerError>> {
    {
        match worker.next_step() {
            WorkerStep::Wait => None,
            WorkerStep::Stop(r) => Some(r),
            WorkerStep::Serve(job) => {
                let outcome = match job {
                    Job::NextEntry => {
                        let mut lookup = EntryLookup::start();
                        let result = loop {
                            let answer = match &lookup {
                                EntryLookup::Routing => LookupAnswer::Routing(Some(WorkorderRouting {
                                    doc_entry: 54366,
                                    line_number: 10,
                                })),
                                EntryLookup::Bom { .. } => LookupAnswer::Bom(Some(WorkorderBom {
                                    item_code: Some("ZURO-20162".to_string()),
                                    whs_code: Some("01".to_string()),
                                })),
                                EntryLookup::Measurement { .. } => LookupAnswer::Measurement(Some(QCOrderMeasurement {
                                    minimal: Some(f(12.0)),
                                    maximum: Some(f(12.5)),
                                    desired_value: Some(f(12.25)),
                                })),
                            };
                            match lookup.advance(Ok(answer)) {
                                LookupStep::Ask(next) => lookup = next,
                                LookupStep::Done(r) => break r,
                            }
                        };
                        JobOutcome::NextEntry(result)
                    },
                    Job::WorkerSubmission { doc_entry: 54366, line_number: 10 } => JobOutcome::WorkerSubmission(
                        get_worker_submission(Ok(vec![TimeReceipt {
                            quantity_scrap: Some(f(3.0)),
                            personnel_id: Some("04711".to_string()),
                        }])),
                    ),
                    Job::WorkerSubmission { .. } => JobOutcome::WorkerSubmission(Err(
                        ResponseError::ClientTransaction(ClientTransactionError { message: "unknown".to_string() }),
                    )),
                    Job::TimeReceipt(data) => {
                        let _post = data.into_time_receipt(f(142.0), Float32::from_bits(0));
                        JobOutcome::Finalized(Ok(()))
                    },
                    Job::Backflush(_) => JobOutcome::Backflushed(Ok(())),
                };
                let mut payload = outcome.into_payload();
                let mut attempt = 0;
                loop {
                    match worker.offer(payload, attempt) {
                        Delivery::Delivered => break,
                        Delivery::Failed(e) => return Some(Err(e)),
                        Delivery::Retry(back) => {
                            payload = back;
                            attempt += 1;
                        },
                    }
                }
                None
            },
        }
    }
}

fn transact(proxy: &mut ProxyClient, worker: &mut Worker, request: Request) -> Response {
    assert!(proxy.can_queue_request());
    proxy.queue_request(request).unwrap();
    loop {
        match proxy.poll_response() {
            Ok(r) => return r,
            Err(ProxyTransactionError::Pending) => assert!(serve(worker).is_none()),
            Err(e) => panic!("{:?}", e),
        }
    }
}

#[test]
fn machine_pipeline() {
    let (mut proxy, mut worker) = ProxyClient::with_worker();

    let entry: Entry = match transact(&mut proxy, &mut worker, Request::GetNextEntry) {
        Response::GetNextEntry(Some(e)) => e,
        other => panic!("{:?}", other),
    };
    assert_eq!(entry.doc_entry, 54366);
    assert_eq!(entry.item_code, "ZURO-20162");
    assert!(entry.weight_bounds.in_bounds(f(12.3)));
    assert!(!entry.weight_bounds.in_bounds(f(12.6)));

    let (personnel_id, scrap) = match transact(&mut proxy, &mut worker, Request::GetWorkerSubmission(&entry)) {
        Response::GetWorkerSubmission(Some(s)) => s,
        other => panic!("{:?}", other),
    };
    assert_eq!(personnel_id, "04711");
    assert_eq!(scrap, f(3.0));

    let request = FinalizeRequest {
        doc_entry: entry.doc_entry,
        personnel_id,
        start_date: Date { year: 2026, month: 3, day: 12 },
        end_date: Date { year: 2026, month: 3, day: 12 },
        from_time: Time { hour: 12, minute: 0 },
        to_time: Time { hour: 14, minute: 30 },
        quantity_scrap: scrap,
        quantity_counted: 145,
    };
    assert!(matches!(transact(&mut proxy, &mut worker, Request::Finalize(request)), Response::Finalize));

    loop {
        match proxy.finalize(&entry, 145) {
            Ok(()) => break,
            Err(ProxyTransactionError::Pending) => assert!(serve(&mut worker).is_none()),
            Err(e) => panic!("{:?}", e),
        }
    }

    assert!(serve(&mut worker).is_none());
    drop(proxy);
    assert_eq!(serve(&mut worker), Some(Err(WorkerError::Closed)));
}

#[test]
fn error_conversions() {
    assert_eq!(
        ProxyTransactionError::from(SendFailure::Full(InternalRequest::GetNextEntry)),
        ProxyTransactionError::ChannelFull
    );
    assert_eq!(
        ProxyTransactionError::from(SendFailure::Closed(InternalRequest::Terminate)),
        ProxyTransactionError::ChannelClosed
    );
    let e = ResponseError::InvalidData("m".to_string());
    assert_eq!(ProxyTransactionError::from(e.clone()), ProxyTransactionError::Response(e));
    let c = ClientTransactionError { message: "x".to_string() };
    assert_eq!(ResponseError::from(c.clone()), ResponseError::ClientTransaction(c));
}

#[test]
fn to_internal_names_entries_by_position() {
    let entry = Entry {
        doc_entry: 3,
        line_number: 4,
        item_code: String::new(),
        whs_code: String::new(),
        weight_bounds: stahlwerk_extension::TargetRange { min: f(0.0), max: f(1.0), desired: f(0.5) },
    };
    assert!(matches!(Request::GetNextEntry.to_internal(), InternalRequest::GetNextEntry));
    assert!(matches!(
        Request::GetWorkerSubmission(&entry).to_internal(),
        InternalRequest::GetWorkerSubmission(3, 4)
    ));
}
