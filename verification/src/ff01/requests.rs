//! What the worker asks of the server, and what it makes of the answers.
//!
//! The server is queried with filters of field conditions; of each answer
//! the worker uses the first record only. The records here hold what the
//! worker reads of the server's records.
use vstd::prelude::*;
use vstd::string::*;

use crate::ff01::error::{ClientTransactionError, ResponseError};
use crate::ff01::Entry;
use crate::float::Float64;
use crate::text::{decimal, decimal_text};
use crate::TargetRange;

verus! {

/// The routing step on which the machine works.
pub const ROUTING_STEP: i32 = 10;

/// A value that a filter compares a field with.
#[derive(Debug, Clone, PartialEq, Eq)]
pub enum FilterValue {
    Bool(bool),
    Int(i32),
    Text(String),
}

/// A filter value as a mathematical value.
pub enum FilterValueView {
    Bool(bool),
    Int(int),
    Text(Seq<char>),
}

impl View for FilterValue {
    type V = FilterValueView;

    open spec fn view(&self) -> FilterValueView {
        match self {
            FilterValue::Bool(b) => FilterValueView::Bool(*b),
            FilterValue::Int(i) => FilterValueView::Int(*i as int),
            FilterValue::Text(s) => FilterValueView::Text(s@),
        }
    }
}

/// "The field named `field` equals `value`". A filter is a list of them,
/// all of which must hold.
#[derive(Debug, Clone, PartialEq, Eq)]
pub struct FilterCondition {
    pub field: String,
    pub value: FilterValue,
}

impl View for FilterCondition {
    type V = (Seq<char>, FilterValueView);

    open spec fn view(&self) -> (Seq<char>, FilterValueView) {
        (self.field@, self.value@)
    }
}

/// The conditions of a filter, as mathematical values.
pub open spec fn conditions_view(filter: Seq<FilterCondition>) -> Seq<(Seq<char>, FilterValueView)> {
    filter.map_values(|c: FilterCondition| c@)
}

/// A condition that a field equals an integer.
pub open spec fn int_is(field: Seq<char>, value: int) -> (Seq<char>, FilterValueView) {
    (field, FilterValueView::Int(value))
}

fn equals(field: &str, value: FilterValue) -> (c: FilterCondition)
    ensures
        c@ == (field@, value@),
{
    FilterCondition { field: field.to_owned(), value }
}

/// The running, open routing of the machine's resource.
pub open spec fn routing_conditions() -> Seq<(Seq<char>, FilterValueView)> {
    seq![
        ("CurrentRunning"@, FilterValueView::Bool(true)),
        ("ResourceId"@, FilterValueView::Text("FF01"@)),
        ("Closed"@, FilterValueView::Bool(false)),
        int_is("LineNumber2"@, ROUTING_STEP as int),
    ]
}

/// The bill of materials of a workorder position, on the machine's step.
pub open spec fn bom_conditions(doc_entry: i32, line_number: i32) -> Seq<(Seq<char>, FilterValueView)> {
    seq![
        int_is("DocEntry"@, doc_entry as int),
        int_is("LineNumber"@, line_number as int),
        int_is("LineNumber2"@, ROUTING_STEP as int),
    ]
}

/// A workorder position.
pub open spec fn position_conditions(doc_entry: i32, line_number: i32) -> Seq<(Seq<char>, FilterValueView)> {
    seq![int_is("DocEntry"@, doc_entry as int), int_is("LineNumber"@, line_number as int)]
}

/// The time receipts of a workorder position, on the machine's step.
pub open spec fn time_receipt_conditions(doc_entry: i32, line_number: i32) -> Seq<(Seq<char>, FilterValueView)> {
    seq![
        int_is("DocEntry"@, doc_entry as int),
        int_is("LineNumber"@, line_number as int),
        int_is("LineNumber2"@, ROUTING_STEP as int),
    ]
}

/// The weight measurement of a workorder position, on the machine's step.
pub open spec fn measurement_conditions(doc_entry: i32, line_number: i32) -> Seq<(Seq<char>, FilterValueView)> {
    seq![
        int_is("WoDocEntry"@, doc_entry as int),
        int_is("WoLineNumber"@, line_number as int),
        int_is("LineNumber2"@, ROUTING_STEP as int),
        ("QCDescription"@, FilterValueView::Text("QiTech_Gewicht"@)),
    ]
}

/// The filter for the machine's current workorder routing.
pub fn workorder_routing_filter() -> (r: Vec<FilterCondition>)
    ensures
        conditions_view(r@) == routing_conditions(),
{
    let mut r: Vec<FilterCondition> = Vec::new();
    r.push(equals("CurrentRunning", FilterValue::Bool(true)));
    r.push(equals("ResourceId", FilterValue::Text("FF01".to_owned())));
    r.push(equals("Closed", FilterValue::Bool(false)));
    r.push(equals("LineNumber2", FilterValue::Int(ROUTING_STEP)));
    assert(conditions_view(r@) =~= routing_conditions());
    r
}

/// The filter for the bill of materials of a workorder position.
pub fn workorder_bom_filter(doc_entry: i32, line_number: i32) -> (r: Vec<FilterCondition>)
    ensures
        conditions_view(r@) == bom_conditions(doc_entry, line_number),
{
    let mut r: Vec<FilterCondition> = Vec::new();
    r.push(equals("DocEntry", FilterValue::Int(doc_entry)));
    r.push(equals("LineNumber", FilterValue::Int(line_number)));
    r.push(equals("LineNumber2", FilterValue::Int(ROUTING_STEP)));
    assert(conditions_view(r@) =~= bom_conditions(doc_entry, line_number));
    r
}

/// The filter for a workorder position.
pub fn workorder_pos_filter(doc_entry: i32, line_number: i32) -> (r: Vec<FilterCondition>)
    ensures
        conditions_view(r@) == position_conditions(doc_entry, line_number),
{
    let mut r: Vec<FilterCondition> = Vec::new();
    r.push(equals("DocEntry", FilterValue::Int(doc_entry)));
    r.push(equals("LineNumber", FilterValue::Int(line_number)));
    assert(conditions_view(r@) =~= position_conditions(doc_entry, line_number));
    r
}

/// The filter for the time receipts of a workorder position.
pub fn time_receipt_filter(doc_entry: i32, line_number: i32) -> (r: Vec<FilterCondition>)
    ensures
        conditions_view(r@) == time_receipt_conditions(doc_entry, line_number),
{
    let mut r: Vec<FilterCondition> = Vec::new();
    r.push(equals("DocEntry", FilterValue::Int(doc_entry)));
    r.push(equals("LineNumber", FilterValue::Int(line_number)));
    r.push(equals("LineNumber2", FilterValue::Int(ROUTING_STEP)));
    assert(conditions_view(r@) =~= time_receipt_conditions(doc_entry, line_number));
    r
}

/// The filter for the weight measurement of a workorder position.
pub fn qcorder_measurement_filter(doc_entry: i32, line_number: i32) -> (r: Vec<FilterCondition>)
    ensures
        conditions_view(r@) == measurement_conditions(doc_entry, line_number),
{
    let mut r: Vec<FilterCondition> = Vec::new();
    r.push(equals("WoDocEntry", FilterValue::Int(doc_entry)));
    r.push(equals("WoLineNumber", FilterValue::Int(line_number)));
    r.push(equals("LineNumber2", FilterValue::Int(ROUTING_STEP)));
    r.push(equals("QCDescription", FilterValue::Text("QiTech_Gewicht".to_owned())));
    assert(conditions_view(r@) =~= measurement_conditions(doc_entry, line_number));
    r
}

/// The workorder routing that the machine is running, as far as the worker
/// reads it.
#[derive(Debug, Clone, PartialEq, Eq)]
pub struct WorkorderRouting {
    pub doc_entry: i32,
    pub line_number: i32,
}

/// A bill-of-materials line, as far as the worker reads it.
#[derive(Debug, Clone, PartialEq, Eq)]
pub struct WorkorderBom {
    pub item_code: Option<String>,
    pub whs_code: Option<String>,
}

/// A quality-control measurement, as far as the worker reads it.
#[derive(Debug, Clone, PartialEq, Eq)]
pub struct QCOrderMeasurement {
    pub minimal: Option<Float64>,
    pub maximum: Option<Float64>,
    pub desired_value: Option<Float64>,
}

/// A time receipt, as far as the worker reads it.
#[derive(Debug, Clone, PartialEq, Eq)]
pub struct TimeReceipt {
    pub quantity_scrap: Option<Float64>,
    pub personnel_id: Option<String>,
}

/// The message for a field that the server left empty.
pub open spec fn null_message(name: Seq<char>) -> Seq<char> {
    "Received null for "@ + name
}

/// The message for a workorder routing with no bill of materials.
pub open spec fn no_bom_message(doc_entry: i32) -> Seq<char> {
    "No matching WorkorderRoutings for "@ + decimal(doc_entry as int)
}

/// `r` is an invalid-data error with exactly the message `msg`.
pub open spec fn is_data_error<T>(r: Result<T, ResponseError>, msg: Seq<char>) -> bool {
    r matches Err(ResponseError::InvalidData(m)) && m@ == msg
}

/// The error for data that the machine cannot use.
pub fn data_error<T>(msg: String) -> (r: Result<T, ResponseError>)
    ensures
        r == Err::<T, ResponseError>(ResponseError::InvalidData(msg)),
{
    Err(ResponseError::InvalidData(msg))
}

/// The value of a field that must not be empty; `name` names the field in the
/// error.
pub fn unpack_nullable<T>(value: Option<T>, name: &str) -> (r: Result<T, ResponseError>)
    ensures
        value matches Some(v) ==> r == Ok::<T, ResponseError>(v),
        value is None ==> is_data_error(r, null_message(name@)),
{
    match value {
        Some(item) => Ok(item),
        None => {
            let mut msg = "Received null for ".to_owned();
            msg.append(name);
            data_error(msg)
        },
    }
}

/// Where the lookup of the next entry stands: each state names the query
/// whose first record it waits for.
#[derive(Debug, Clone, PartialEq, Eq)]
pub enum EntryLookup {
    /// Waiting for the machine's current routing.
    Routing,
    /// Waiting for the bill of materials of the routing's position.
    Bom { doc_entry: i32, line_number: i32 },
    /// Waiting for the weight measurement of the position.
    Measurement { doc_entry: i32, line_number: i32, item_code: String, whs_code: String },
}

/// The first record that a query gave, if any.
#[derive(Debug, Clone, PartialEq, Eq)]
pub enum LookupAnswer {
    Routing(Option<WorkorderRouting>),
    Bom(Option<WorkorderBom>),
    Measurement(Option<QCOrderMeasurement>),
}

/// What the lookup does next.
#[derive(Debug)]
pub enum LookupStep {
    /// Make the query of this state.
    Ask(EntryLookup),
    /// The lookup is over, with this result.
    Done(Result<Option<Entry>, ResponseError>),
}

/// `answer` answers the query that `state` waits for (a failed transaction
/// answers any).
pub open spec fn answers(state: EntryLookup, answer: Result<LookupAnswer, ClientTransactionError>) -> bool {
    match answer {
        Err(_) => true,
        Ok(LookupAnswer::Routing(_)) => state is Routing,
        Ok(LookupAnswer::Bom(_)) => state is Bom,
        Ok(LookupAnswer::Measurement(_)) => state is Measurement,
    }
}

/// The result once the measurement is known: none without a measurement; an
/// error naming the first of minimum, maximum and desired value that is
/// empty; otherwise the entry with those weight bounds.
pub open spec fn measurement_result(
    doc_entry: i32,
    line_number: i32,
    item_code: String,
    whs_code: String,
    measurement: Option<QCOrderMeasurement>,
    r: Result<Option<Entry>, ResponseError>,
) -> bool {
    match measurement {
        None => r == Ok::<Option<Entry>, ResponseError>(None),
        Some(qc) => if qc.minimal is None {
            is_data_error(r, null_message("min"@))
        } else if qc.maximum is None {
            is_data_error(r, null_message("max"@))
        } else if qc.desired_value is None {
            is_data_error(r, null_message("desired"@))
        } else {
            r == Ok::<Option<Entry>, ResponseError>(Some(Entry {
                doc_entry,
                line_number,
                item_code,
                whs_code,
                weight_bounds: TargetRange {
                    min: qc.minimal.unwrap(),
                    max: qc.maximum.unwrap(),
                    desired: qc.desired_value.unwrap(),
                },
            }))
        },
    }
}

/// One step of the lookup: a failed transaction ends it with that error; no
/// routing ends it with no entry; a routing leads to its bill of materials;
/// a missing bill, item code or warehouse code ends it with an error; codes
/// lead to the measurement, which ends it as `measurement_result` says.
pub open spec fn lookup_step(
    state: EntryLookup,
    answer: Result<LookupAnswer, ClientTransactionError>,
    next: LookupStep,
) -> bool {
    match answer {
        Err(e) => next == LookupStep::Done(
            Err::<Option<Entry>, ResponseError>(ResponseError::ClientTransaction(e)),
        ),
        Ok(LookupAnswer::Routing(None)) => next == LookupStep::Done(Ok::<Option<Entry>, ResponseError>(None)),
        Ok(LookupAnswer::Routing(Some(routing))) => next == LookupStep::Ask(
            EntryLookup::Bom { doc_entry: routing.doc_entry, line_number: routing.line_number },
        ),
        Ok(LookupAnswer::Bom(bom)) => match state {
            EntryLookup::Bom { doc_entry, line_number } => match bom {
                None => next matches LookupStep::Done(r) && is_data_error(r, no_bom_message(doc_entry)),
                Some(b) => if b.item_code is None {
                    next matches LookupStep::Done(r) && is_data_error(r, "ItemCode is null"@)
                } else if b.whs_code is None {
                    next matches LookupStep::Done(r) && is_data_error(r, "WhsCode is null"@)
                } else {
                    next == LookupStep::Ask(EntryLookup::Measurement {
                        doc_entry,
                        line_number,
                        item_code: b.item_code.unwrap(),
                        whs_code: b.whs_code.unwrap(),
                    })
                },
            },
            _ => false,
        },
        Ok(LookupAnswer::Measurement(measurement)) => match state {
            EntryLookup::Measurement { doc_entry, line_number, item_code, whs_code } =>
                next matches LookupStep::Done(r) && measurement_result(
                    doc_entry,
                    line_number,
                    item_code,
                    whs_code,
                    measurement,
                    r,
                ),
            _ => false,
        },
    }
}

impl EntryLookup {
    /// The state a lookup starts in.
    pub open spec fn start_state() -> EntryLookup {
        EntryLookup::Routing
    }

    /// A lookup starts with the machine's current routing.
    pub fn start() -> (r: EntryLookup)
        ensures
            r == EntryLookup::Routing,
            r == EntryLookup::start_state(),
    {
        EntryLookup::Routing
    }

    /// The conditions of the query that this state waits for.
    pub open spec fn spec_conditions(self) -> Seq<(Seq<char>, FilterValueView)> {
        match self {
            EntryLookup::Routing => routing_conditions(),
            EntryLookup::Bom { doc_entry, line_number } => bom_conditions(doc_entry, line_number),
            EntryLookup::Measurement { doc_entry, line_number, .. } => measurement_conditions(
                doc_entry,
                line_number,
            ),
        }
    }

    /// The filter of the query that this state waits for.
    pub fn filter(&self) -> (r: Vec<FilterCondition>)
        ensures
            conditions_view(r@) == self.spec_conditions(),
    {
        match self {
            EntryLookup::Routing => workorder_routing_filter(),
            EntryLookup::Bom { doc_entry, line_number } => workorder_bom_filter(*doc_entry, *line_number),
            EntryLookup::Measurement { doc_entry, line_number, .. } => qcorder_measurement_filter(
                *doc_entry,
                *line_number,
            ),
        }
    }

    /// Take the answer to this state's query and move on.
    pub fn advance(self, answer: Result<LookupAnswer, ClientTransactionError>) -> (r: LookupStep)
        requires
            answers(self, answer),
        ensures
            lookup_step(self, answer, r),
    {
        let answer = match answer {
            Err(e) => return LookupStep::Done(Err(ResponseError::ClientTransaction(e))),
            Ok(a) => a,
        };
        match (self, answer) {
            (_, LookupAnswer::Routing(None)) => LookupStep::Done(Ok(None)),
            (_, LookupAnswer::Routing(Some(routing))) => LookupStep::Ask(
                EntryLookup::Bom { doc_entry: routing.doc_entry, line_number: routing.line_number },
            ),
            (EntryLookup::Bom { doc_entry, line_number }, LookupAnswer::Bom(bom)) => {
                let Some(bom) = bom else {
                    let mut msg = "No matching WorkorderRoutings for ".to_owned();
                    let number = decimal_text(doc_entry);
                    msg.append(number.as_str());
                    return LookupStep::Done(data_error(msg));
                };
                let Some(item_code) = bom.item_code else {
                    return LookupStep::Done(data_error("ItemCode is null".to_owned()));
                };
                let Some(whs_code) = bom.whs_code else {
                    return LookupStep::Done(data_error("WhsCode is null".to_owned()));
                };
                LookupStep::Ask(EntryLookup::Measurement { doc_entry, line_number, item_code, whs_code })
            },
            (
                EntryLookup::Measurement { doc_entry, line_number, item_code, whs_code },
                LookupAnswer::Measurement(measurement),
            ) => {
                let Some(qc) = measurement else {
                    return LookupStep::Done(Ok(None));
                };
                let min = match unpack_nullable(qc.minimal, "min") {
                    Ok(v) => v,
                    Err(e) => return LookupStep::Done(Err(e)),
                };
                let max = match unpack_nullable(qc.maximum, "max") {
                    Ok(v) => v,
                    Err(e) => return LookupStep::Done(Err(e)),
                };
                let desired = match unpack_nullable(qc.desired_value, "desired") {
                    Ok(v) => v,
                    Err(e) => return LookupStep::Done(Err(e)),
                };
                let weight_bounds = TargetRange { min, max, desired };
                LookupStep::Done(Ok(Some(Entry { doc_entry, line_number, item_code, whs_code, weight_bounds })))
            },
            (_, _) => {
                assert(false);
                LookupStep::Done(Ok(None))
            },
        }
    }
}

/// A time receipt records a worker's submission: a scrap quantity that is
/// not zero, and the worker's personnel id.
pub open spec fn is_submission(receipt: TimeReceipt) -> bool {
    &&& receipt.quantity_scrap matches Some(q) && !q.spec_is_zero()
    &&& receipt.personnel_id is Some
}

/// The submission of the first receipt that records one, as personnel id and
/// scrap quantity.
pub open spec fn first_submission(receipts: Seq<TimeReceipt>) -> Option<(String, Float64)>
    decreases receipts.len(),
{
    if receipts.len() == 0 {
        None
    } else if is_submission(receipts[0]) {
        Some((receipts[0].personnel_id.unwrap(), receipts[0].quantity_scrap.unwrap()))
    } else {
        first_submission(receipts.drop_first())
    }
}

/// The scrap quantity that a worker submitted, from the time receipts of the
/// position: the first receipt with a nonzero scrap quantity and a personnel
/// id; none if no receipt has both. A failed query is the error.
pub fn get_worker_submission(receipts: Result<Vec<TimeReceipt>, ClientTransactionError>) -> (r: Result<
    Option<(String, Float64)>,
    ResponseError,
>)
    ensures
        match receipts {
            Ok(v) => r == Ok::<Option<(String, Float64)>, ResponseError>(first_submission(v@)),
            Err(e) => r == Err::<Option<(String, Float64)>, ResponseError>(
                ResponseError::ClientTransaction(e),
            ),
        },
{
    let list = match receipts {
        Ok(v) => v,
        Err(e) => return Err(ResponseError::ClientTransaction(e)),
    };
    let mut i: usize = 0;
    assert(list@.skip(0) =~= list@);
    while i < list.len()
        invariant
            receipts == Ok::<Vec<TimeReceipt>, ClientTransactionError>(list),
            i <= list@.len(),
            first_submission(list@) == first_submission(list@.skip(i as int)),
        decreases list@.len() - i,
    {
        let receipt = &list[i];
        assert(list@.skip(i as int)[0] == list@[i as int]);
        assert(list@.skip(i as int).drop_first() =~= list@.skip(i + 1));
        if let Some(quantity_scrap) = receipt.quantity_scrap {
            if !quantity_scrap.is_zero() {
                if let Some(personnel_id) = &receipt.personnel_id {
                    assert(is_submission(list@[i as int]));
                    assert(first_submission(list@.skip(i as int)) == Some(
                        (list@[i as int].personnel_id.unwrap(), list@[i as int].quantity_scrap.unwrap()),
                    ));
                    return Ok(Some((personnel_id.clone(), quantity_scrap)));
                }
            }
        }
        i = i + 1;
    }
    assert(list@.skip(i as int) =~= Seq::<TimeReceipt>::empty());
    Ok(None)
}

/// The lookup's whole run, when the server's first records are `routing`,
/// `bom` and `measurement`: no entry without a routing; an error for a
/// missing bill of materials, item code or warehouse code, in that order;
/// otherwise what the measurement gives.
pub open spec fn lookup_run(
    routing: Option<WorkorderRouting>,
    bom: Option<WorkorderBom>,
    measurement: Option<QCOrderMeasurement>,
    r: Result<Option<Entry>, ResponseError>,
) -> bool {
    match routing {
        None => r == Ok::<Option<Entry>, ResponseError>(None),
        Some(ro) => match bom {
            None => is_data_error(r, no_bom_message(ro.doc_entry)),
            Some(b) => if b.item_code is None {
                is_data_error(r, "ItemCode is null"@)
            } else if b.whs_code is None {
                is_data_error(r, "WhsCode is null"@)
            } else {
                measurement_result(
                    ro.doc_entry,
                    ro.line_number,
                    b.item_code.unwrap(),
                    b.whs_code.unwrap(),
                    measurement,
                    r,
                )
            },
        },
    }
}

/// The lookup asks at most three queries, in order: the routing, then the
/// bill of materials and the measurement of the position that the routing
/// names; after the third answer it is over, and its result is `lookup_run`.
pub proof fn lemma_lookup_run(
    routing: Option<WorkorderRouting>,
    bom: Option<WorkorderBom>,
    measurement: Option<QCOrderMeasurement>,
    first: LookupStep,
    second: LookupStep,
    third: LookupStep,
)
    requires
        lookup_step(EntryLookup::Routing, Ok(LookupAnswer::Routing(routing)), first),
        first matches LookupStep::Ask(s) ==> lookup_step(s, Ok(LookupAnswer::Bom(bom)), second),
        second matches LookupStep::Ask(s) ==> lookup_step(s, Ok(LookupAnswer::Measurement(measurement)), third),
    ensures
        EntryLookup::start_state().spec_conditions().contains(("ResourceId"@, FilterValueView::Text("FF01"@))),
        first matches LookupStep::Ask(s) ==> routing matches Some(ro) && s.spec_conditions() == bom_conditions(
            ro.doc_entry,
            ro.line_number,
        ),
        first matches LookupStep::Ask(s1) ==> (second matches LookupStep::Ask(s2)
            ==> s2.spec_conditions() == measurement_conditions(
            routing.unwrap().doc_entry,
            routing.unwrap().line_number,
        )),
        first matches LookupStep::Done(r) ==> lookup_run(routing, bom, measurement, r),
        first is Ask ==> (second matches LookupStep::Done(r) ==> lookup_run(routing, bom, measurement, r)),
        first is Ask ==> (second is Ask ==> (third matches LookupStep::Done(r) && lookup_run(
            routing,
            bom,
            measurement,
            r,
        ))),
{
    assert(EntryLookup::start_state().spec_conditions()[1] == ("ResourceId"@, FilterValueView::Text("FF01"@)));
}

/// An entry that the lookup finds describes the running routing's position:
/// its document entry and line number are the routing's, its codes the bill's,
/// and its weight bounds the measurement's.
pub proof fn lemma_entry_from_records(
    routing: Option<WorkorderRouting>,
    bom: Option<WorkorderBom>,
    measurement: Option<QCOrderMeasurement>,
    entry: Entry,
)
    requires
        lookup_run(routing, bom, measurement, Ok(Some(entry))),
    ensures
        routing matches Some(ro) && entry.doc_entry == ro.doc_entry && entry.line_number == ro.line_number,
        bom matches Some(b) && b.item_code == Some(entry.item_code) && b.whs_code == Some(entry.whs_code),
        measurement matches Some(qc) && qc.minimal == Some(entry.weight_bounds.min) && qc.maximum == Some(
            entry.weight_bounds.max,
        ) && qc.desired_value == Some(entry.weight_bounds.desired),
{
}

/// The submission found is that of the first receipt that records one, and
/// none is found exactly when no receipt records one.
pub proof fn lemma_first_submission(receipts: Seq<TimeReceipt>)
    ensures
        first_submission(receipts) is None <==> forall|i: int|
            0 <= i < receipts.len() ==> !is_submission(#[trigger] receipts[i]),
        first_submission(receipts) matches Some(found) ==> exists|i: int|
            0 <= i < receipts.len() && is_submission(#[trigger] receipts[i]) && found == (
                receipts[i].personnel_id.unwrap(),
                receipts[i].quantity_scrap.unwrap(),
            ) && forall|j: int| 0 <= j < i ==> !is_submission(#[trigger] receipts[j]),
    decreases receipts.len(),
{
    if receipts.len() > 0 {
        let rest = receipts.drop_first();
        lemma_first_submission(rest);
        if !is_submission(receipts[0]) {
            assert forall|i: int| 0 < i < receipts.len() implies #[trigger] receipts[i] == rest[i - 1] by {}
            if first_submission(rest) is None {
                assert forall|i: int| 0 <= i < receipts.len() implies !is_submission(#[trigger] receipts[i]) by {
                    if i > 0 {
                        assert(receipts[i] == rest[i - 1]);
                    }
                }
            } else {
                let found = first_submission(rest).unwrap();
                let k = choose|k: int|
                    0 <= k < rest.len() && is_submission(#[trigger] rest[k]) && found == (
                        rest[k].personnel_id.unwrap(),
                        rest[k].quantity_scrap.unwrap(),
                    ) && forall|j: int| 0 <= j < k ==> !is_submission(#[trigger] rest[j]);
                assert(receipts[k + 1] == rest[k]);
                assert forall|j: int| 0 <= j < k + 1 implies !is_submission(#[trigger] receipts[j]) by {
                    if j > 0 {
                        assert(receipts[j] == rest[j - 1]);
                    }
                }
                assert(is_submission(receipts[k + 1]));
                let w = k + 1;
                assert(0 <= w < receipts.len() && is_submission(receipts[w]) && found == (
                    receipts[w].personnel_id.unwrap(),
                    receipts[w].quantity_scrap.unwrap(),
                ) && forall|j: int| 0 <= j < w ==> !is_submission(#[trigger] receipts[j]));
            }
        }
    }
}


/// The lookup's queries: it starts with the running, open routing of the
/// FF01 resource on step 10, and no other; it goes on with the bill of
/// materials on step 10 and then the weight measurement on step 10 of the
/// position that the routing named.
pub proof fn lemma_lookup_queries(doc_entry: i32, line_number: i32, item_code: String, whs_code: String)
    ensures
        EntryLookup::start_state().spec_conditions() == seq![
            ("CurrentRunning"@, FilterValueView::Bool(true)),
            ("ResourceId"@, FilterValueView::Text("FF01"@)),
            ("Closed"@, FilterValueView::Bool(false)),
            ("LineNumber2"@, FilterValueView::Int(10)),
        ],
        EntryLookup::start_state().spec_conditions().contains(("ResourceId"@, FilterValueView::Text("FF01"@))),
        (EntryLookup::Bom { doc_entry, line_number }).spec_conditions() == seq![
            ("DocEntry"@, FilterValueView::Int(doc_entry as int)),
            ("LineNumber"@, FilterValueView::Int(line_number as int)),
            ("LineNumber2"@, FilterValueView::Int(10)),
        ],
        (EntryLookup::Measurement { doc_entry, line_number, item_code, whs_code }).spec_conditions() == seq![
            ("WoDocEntry"@, FilterValueView::Int(doc_entry as int)),
            ("WoLineNumber"@, FilterValueView::Int(line_number as int)),
            ("LineNumber2"@, FilterValueView::Int(10)),
            ("QCDescription"@, FilterValueView::Text("QiTech_Gewicht"@)),
        ],
{
    let first = EntryLookup::start_state().spec_conditions();
    assert(first[1] == ("ResourceId"@, FilterValueView::Text("FF01"@)));
}

} // verus!
