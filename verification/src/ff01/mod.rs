//! The FF01 machine's link to the server.
//!
//! The machine asks the server, through a [`ProxyClient`], for the next entry
//! it should process, watches for the scrap quantity that a worker submits,
//! and finally books a time receipt. A worker thread makes the server calls.
use vstd::prelude::*;

use crate::float::{Float32, Float64};
use crate::TargetRange;

pub mod channel;
pub mod client_proxy;
pub mod error;
pub mod requests;
pub mod worker;

pub use client_proxy::ProxyClient;
pub use error::{ClientTransactionError, ProxyTransactionError, ResponseError};

verus! {

/// A calendar date as the server records it.
#[derive(Debug, Clone, Copy, PartialEq, Eq)]
pub struct Date {
    pub year: i32,
    pub month: u32,
    pub day: u32,
}

/// A time of day as the server records it.
#[derive(Debug, Clone, Copy, PartialEq, Eq)]
pub struct Time {
    pub hour: u32,
    pub minute: u32,
}

/// What the machine needs to process its next task.
#[derive(Debug, Clone, PartialEq, Eq)]
pub struct Entry {
    pub doc_entry: i32,
    pub line_number: i32,
    pub item_code: String,
    pub whs_code: String,
    pub weight_bounds: TargetRange,
}

/// The data that closes a workorder step.
#[derive(Debug, Clone)]
pub struct FinalizeRequest {
    pub doc_entry: i32,
    pub personnel_id: String,
    pub start_date: Date,
    pub end_date: Date,
    pub from_time: Time,
    pub to_time: Time,
    pub quantity_scrap: Float64,
    pub quantity_counted: u32,
}

/// A request that the machine makes of the proxy.
#[derive(Debug, Clone)]
pub enum Request<'a> {
    /// The next entry the machine should process.
    GetNextEntry,
    /// The scrap quantity that a worker submitted for an entry.
    GetWorkerSubmission(&'a Entry),
    /// Close the workorder step.
    Finalize(FinalizeRequest),
}

/// A request as the worker receives it.
#[derive(Debug, Clone)]
pub enum InternalRequest {
    GetNextEntry,
    /// The workorder's document entry and line number.
    GetWorkerSubmission(i32, i32),
    Finalize(FinalizeRequest),
    /// Post a backflush that closes the workorder step.
    Backflush(BackflushRequest),
    /// Stop the worker.
    Terminate,
}

/// A response of the worker.
#[derive(Debug, Clone)]
pub enum Response {
    GetNextEntry(Option<Entry>),
    /// The personnel id and the scrap quantity of the submission.
    GetWorkerSubmission(Option<(String, Float64)>),
    Finalize,
    /// The backflush was posted.
    Backflush,
}

/// The request that the worker receives for `request`.
pub open spec fn internal_request_of(request: Request) -> InternalRequest {
    match request {
        Request::GetNextEntry => InternalRequest::GetNextEntry,
        Request::GetWorkerSubmission(entry) => InternalRequest::GetWorkerSubmission(
            entry.doc_entry,
            entry.line_number,
        ),
        Request::Finalize(data) => InternalRequest::Finalize(data),
    }
}

impl<'a> Request<'a> {
    /// The request as the worker receives it: an entry is named by its
    /// document entry and line number.
    pub fn to_internal(self) -> (r: InternalRequest)
        ensures
            r == internal_request_of(self),
    {
        match self {
            Request::GetNextEntry => InternalRequest::GetNextEntry,
            Request::GetWorkerSubmission(entry) => InternalRequest::GetWorkerSubmission(
                entry.doc_entry,
                entry.line_number,
            ),
            Request::Finalize(data) => InternalRequest::Finalize(data),
        }
    }
}

/// A material line of a backflush: the item taken from a warehouse.
#[derive(Debug, Clone, PartialEq, Eq)]
pub struct IssueLine {
    pub line_number2: i32,
    /// The quantity, in pieces.
    pub quantity: u32,
    pub item_code: String,
    pub whs_code: String,
}

/// The backflush that closes a workorder step: the good quantity reported,
/// the material issued for it.
#[derive(Debug, Clone, PartialEq, Eq)]
pub struct BackflushRequest {
    pub doc_entry: i32,
    pub line_number: i32,
    pub doc_date: Option<Date>,
    pub close_entry: bool,
    /// The good quantity, in pieces.
    pub quantity_good: u32,
    pub issue_lines: Vec<IssueLine>,
    pub receipt_lines: Vec<IssueLine>,
}

/// `b` is the backflush that closes `entry`'s step for `counted` pieces: it
/// names the entry's position, closes it, reports the counted pieces as good
/// (the entry carries no scrap; the scrap is booked by the worker's time
/// receipt), and issues that many pieces of the entry's item from its
/// warehouse on the machine's routing step; it receives nothing.
pub open spec fn is_backflush_for(b: BackflushRequest, entry: Entry, counted: u32) -> bool {
    &&& b.doc_entry == entry.doc_entry
    &&& b.line_number == entry.line_number
    &&& b.doc_date is None
    &&& b.close_entry
    &&& b.quantity_good == counted
    &&& b.issue_lines@ == seq![
        IssueLine {
            line_number2: BOOKING_LINE,
            quantity: counted,
            item_code: entry.item_code,
            whs_code: entry.whs_code,
        },
    ]
    &&& b.receipt_lines@.len() == 0
}

/// `b` closes the step of the position `doc_entry`/`line_number` for
/// `counted` pieces of the item `item_code` from the warehouse `whs_code`, as
/// `is_backflush_for` describes, the codes taken by their text.
pub open spec fn same_backflush(
    b: BackflushRequest,
    doc_entry: i32,
    line_number: i32,
    item_code: Seq<char>,
    whs_code: Seq<char>,
    counted: u32,
) -> bool {
    &&& b.doc_entry == doc_entry
    &&& b.line_number == line_number
    &&& b.doc_date is None
    &&& b.close_entry
    &&& b.quantity_good == counted
    &&& b.issue_lines@.len() == 1
    &&& b.issue_lines@[0].line_number2 == BOOKING_LINE
    &&& b.issue_lines@[0].quantity == counted
    &&& b.issue_lines@[0].item_code@ == item_code
    &&& b.issue_lines@[0].whs_code@ == whs_code
    &&& b.receipt_lines@.len() == 0
}

/// The backflush that closes `entry`'s step for `counted` pieces.
pub fn backflush_request(entry: &Entry, counted: u32) -> (r: BackflushRequest)
    ensures
        is_backflush_for(r, *entry, counted),
{
    let mut issue_lines: Vec<IssueLine> = Vec::new();
    issue_lines.push(
        IssueLine {
            line_number2: BOOKING_LINE,
            quantity: counted,
            item_code: entry.item_code.clone(),
            whs_code: entry.whs_code.clone(),
        },
    );
    let r = BackflushRequest {
        doc_entry: entry.doc_entry,
        line_number: entry.line_number,
        doc_date: None,
        close_entry: true,
        quantity_good: counted,
        issue_lines,
        receipt_lines: Vec::new(),
    };
    assert(r.issue_lines@ =~= seq![
        IssueLine {
            line_number2: BOOKING_LINE,
            quantity: counted,
            item_code: entry.item_code,
            whs_code: entry.whs_code,
        },
    ]);
    r
}

/// The time receipt that the server books for a finished workorder step, as
/// far as the machine fills it in.
#[derive(Debug, Clone)]
pub struct TimeReceiptPost {
    pub doc_entry: i32,
    pub line_number: i32,
    pub line_number2: i32,
    pub line_number3: Option<i32>,
    pub time_type: Option<String>,
    pub resource_id: Option<String>,
    pub quantity_good: Option<Float64>,
    pub personnel_id: String,
    pub quantity_scrap: Option<Float64>,
    pub start_date: Option<Date>,
    pub end_date: Option<Date>,
    pub from_time: Option<Time>,
    pub to_time: Option<Time>,
    pub close_entry: Option<bool>,
    pub manual_booking: Option<bool>,
    /// The duration in seconds.
    pub duration: Option<Float32>,
    pub calculate_duration: Option<bool>,
    pub remarks: Option<String>,
}

/// The routing step that the machine books on.
pub const BOOKING_LINE: i32 = 10;

/// An optional text holds exactly `text`.
pub open spec fn holds_text(field: Option<String>, text: Seq<char>) -> bool {
    field matches Some(s) && s@ == text
}

/// `post` books `data` on the machine's routing step: the good quantity and
/// the duration as given, no scrap (the scrap is booked by the worker), the
/// entry closed, and the machine named as resource and source.
pub open spec fn books_finalize(
    post: TimeReceiptPost,
    data: FinalizeRequest,
    quantity_good: Float64,
    duration: Float32,
) -> bool {
    &&& post.doc_entry == data.doc_entry
    &&& post.line_number == BOOKING_LINE
    &&& post.line_number2 == BOOKING_LINE
    &&& post.line_number3 == Some(0i32)
    &&& holds_text(post.time_type, "A"@)
    &&& holds_text(post.resource_id, "FF01"@)
    &&& post.quantity_good == Some(quantity_good)
    &&& post.personnel_id == data.personnel_id
    &&& post.quantity_scrap == Some(Float64 { bits: 0 })
    &&& post.start_date == Some(data.start_date)
    &&& post.end_date == Some(data.end_date)
    &&& post.from_time == Some(data.from_time)
    &&& post.to_time == Some(data.to_time)
    &&& post.close_entry == Some(true)
    &&& post.manual_booking == Some(false)
    &&& post.duration == Some(duration)
    &&& post.calculate_duration == Some(false)
    &&& holds_text(post.remarks, "QiTech-Control"@)
}

impl FinalizeRequest {
    /// The time receipt that closes the step. `quantity_good` is the counted
    /// quantity less the scrap, never below zero; `duration` is the seconds
    /// from `from_time` to `to_time`. Both are worked out by the caller.
    pub fn into_time_receipt(self, quantity_good: Float64, duration: Float32) -> (r: TimeReceiptPost)
        ensures
            books_finalize(r, self, quantity_good, duration),
    {
        TimeReceiptPost {
            doc_entry: self.doc_entry,
            line_number: BOOKING_LINE,
            line_number2: BOOKING_LINE,
            line_number3: Some(0),
            time_type: Some("A".to_owned()),
            resource_id: Some("FF01".to_owned()),
            quantity_good: Some(quantity_good),
            personnel_id: self.personnel_id,
            quantity_scrap: Some(Float64::zero()),
            start_date: Some(self.start_date),
            end_date: Some(self.end_date),
            from_time: Some(self.from_time),
            to_time: Some(self.to_time),
            close_entry: Some(true),
            manual_booking: Some(false),
            duration: Some(duration),
            calculate_duration: Some(false),
            remarks: Some("QiTech-Control".to_owned()),
        }
    }
}


/// The worker receives the machine's request with its data unchanged: a
/// time receipt's data as given (scrap and counted quantity included), and an
/// entry by its own document entry and line number.
pub proof fn lemma_worker_gets_request_unchanged(request: Request)
    ensures
        request matches Request::Finalize(d) ==> internal_request_of(request) matches InternalRequest::Finalize(
            sent,
        ) && sent == d && sent.quantity_scrap == d.quantity_scrap && sent.quantity_counted == d.quantity_counted,
        request matches Request::GetWorkerSubmission(entry) ==> internal_request_of(request)
            matches InternalRequest::GetWorkerSubmission(doc_entry, line_number) && doc_entry == entry.doc_entry
            && line_number == entry.line_number,
        request is GetNextEntry ==> internal_request_of(request) is GetNextEntry,
{
}

} // verus!
