//! Fetching a quote: what is decided between the steps of the request.
//!
//! The transport sends the request, waits and reads; after each step it reports
//! what happened, and [`fetch_step`] says how the fetch goes on or ends.

use vstd::prelude::*;
use vstd::utf8::*;
use crate::error::FetchError;
use crate::json::utf8_text;
use crate::record::{parse_dia_res, parsed_view, record_of_text, DiaPriceRecord, DiaPriceRecordView};

verus! {

/// The time that one fetch may take from its start, in milliseconds.
pub const FETCH_DEADLINE_MS: u64 = 2_000;

/// The status with which a source answers a request that it can serve.
pub const STATUS_OK: u16 = 200;

/// The time by which a fetch that starts at `started_at` must be over.
pub fn fetch_deadline(started_at: u64) -> (deadline: u64)
    ensures
        started_at + FETCH_DEADLINE_MS <= u64::MAX ==> deadline == started_at + FETCH_DEADLINE_MS,
        started_at + FETCH_DEADLINE_MS > u64::MAX ==> deadline == u64::MAX,
{
    started_at.saturating_add(FETCH_DEADLINE_MS)
}

/// How far a fetch has come.
#[derive(Clone, Copy, Debug, PartialEq, Eq, Structural)]
pub enum FetchState {
    /// The request is sent; the head of the answer is awaited.
    AwaitingStatus,
    /// The head came with status 200; the body is awaited.
    AwaitingBody,
}

/// What the transport reports.
#[derive(Debug, PartialEq, Eq)]
pub enum FetchEvent {
    /// The connection could not be made, or broke.
    ConnectFailed,
    /// The deadline passed before the awaited part had come.
    DeadlineReached,
    /// The head of the answer came, with this status.
    Status(u16),
    /// The body came in full.
    Body(Vec<u8>),
}

/// A [`FetchEvent`] in specifications.
pub enum FetchEventView {
    ConnectFailed,
    DeadlineReached,
    Status(u16),
    Body(Seq<u8>),
}

impl View for FetchEvent {
    type V = FetchEventView;

    open spec fn view(&self) -> FetchEventView {
        match self {
            FetchEvent::ConnectFailed => FetchEventView::ConnectFailed,
            FetchEvent::DeadlineReached => FetchEventView::DeadlineReached,
            FetchEvent::Status(code) => FetchEventView::Status(*code),
            FetchEvent::Body(bytes) => FetchEventView::Body(bytes@),
        }
    }
}

/// How a fetch goes on after an event.
#[derive(Debug, PartialEq, Eq)]
pub enum FetchStep {
    /// Read the body, within what is left of the deadline.
    ReadBody,
    /// The fetch is over, with a quote or with the reason why there is none.
    Finished(Result<DiaPriceRecord, FetchError>),
}

/// A [`FetchStep`] in specifications.
pub enum FetchStepView {
    ReadBody,
    Finished(Result<DiaPriceRecordView, FetchError>),
}

impl View for FetchStep {
    type V = FetchStepView;

    open spec fn view(&self) -> FetchStepView {
        match self {
            FetchStep::ReadBody => FetchStepView::ReadBody,
            FetchStep::Finished(r) => FetchStepView::Finished(parsed_view(*r)),
        }
    }
}

/// What a status means: 200 lets the fetch go on, any other ends it.
pub open spec fn status_result(code: u16) -> Result<(), FetchError> {
    if code == STATUS_OK {
        Ok(())
    } else {
        Err(FetchError::BadStatus(code))
    }
}

/// The quote that a body holds: the body must be UTF-8 text, and the text a
/// record with a price, a time and a symbol.
pub open spec fn quote_of_body(body: Seq<u8>) -> Result<DiaPriceRecordView, FetchError> {
    if !valid_utf8(body) {
        Err(FetchError::Encoding)
    } else {
        record_of_text(decode_utf8(body))
    }
}

/// How a fetch in `state` goes on after `event`.
///
/// A failed connection ends it with `Network`, a passed deadline with
/// `Timeout`, whatever was awaited. A status other than 200 ends it with
/// `BadStatus`. The body ends it with the quote that it holds. An event that
/// does not belong to the state counts as a failure of the connection.
pub open spec fn step_of(state: FetchState, event: FetchEventView) -> FetchStepView {
    match event {
        FetchEventView::ConnectFailed => FetchStepView::Finished(Err(FetchError::Network)),
        FetchEventView::DeadlineReached => FetchStepView::Finished(Err(FetchError::Timeout)),
        FetchEventView::Status(code) => match state {
            FetchState::AwaitingStatus => if code == STATUS_OK {
                FetchStepView::ReadBody
            } else {
                FetchStepView::Finished(Err(FetchError::BadStatus(code)))
            },
            FetchState::AwaitingBody => FetchStepView::Finished(Err(FetchError::Network)),
        },
        FetchEventView::Body(bytes) => match state {
            FetchState::AwaitingStatus => FetchStepView::Finished(Err(FetchError::Network)),
            FetchState::AwaitingBody => FetchStepView::Finished(quote_of_body(bytes)),
        },
    }
}

/// A fetch whose deadline passes ends with `Timeout`, whatever it was waiting
/// for; it never goes on waiting.
pub proof fn law_deadline_ends_the_fetch(state: FetchState)
    ensures
        step_of(state, FetchEventView::DeadlineReached) == FetchStepView::Finished(
            Err(FetchError::Timeout),
        ),
{
}

/// A fetch goes on to the body after the status 200 and after nothing else:
/// every other event ends it.
pub proof fn law_only_status_200_goes_on(state: FetchState, event: FetchEventView)
    ensures
        step_of(state, event) is ReadBody <==> state == FetchState::AwaitingStatus && event
            == FetchEventView::Status(STATUS_OK),
{
}

/// Checks the status of an answer.
pub fn check_status(code: u16) -> (r: Result<(), FetchError>)
    ensures
        r == status_result(code),
{
    if code == STATUS_OK {
        Ok(())
    } else {
        Err(FetchError::BadStatus(code))
    }
}

/// Reads the quote from the body of an answer.
pub fn read_body(body: &[u8]) -> (r: Result<DiaPriceRecord, FetchError>)
    ensures
        parsed_view(r) == quote_of_body(body@),
{
    match utf8_text(body) {
        Some(text) => {
            proof {
                encode_utf8_decode_utf8(text@);
            }
            parse_dia_res(text)
        },
        None => Err(FetchError::Encoding),
    }
}

/// Says how a fetch in `state` goes on after `event`. After `ReadBody` the
/// fetch awaits the body; after `Finished` it is over.
pub fn fetch_step(state: FetchState, event: &FetchEvent) -> (step: FetchStep)
    ensures
        step@ == step_of(state, event@),
{
    match event {
        FetchEvent::ConnectFailed => FetchStep::Finished(Err(FetchError::Network)),
        FetchEvent::DeadlineReached => FetchStep::Finished(Err(FetchError::Timeout)),
        FetchEvent::Status(code) => match state {
            FetchState::AwaitingStatus => match check_status(*code) {
                Ok(()) => FetchStep::ReadBody,
                Err(e) => FetchStep::Finished(Err(e)),
            },
            FetchState::AwaitingBody => FetchStep::Finished(Err(FetchError::Network)),
        },
        FetchEvent::Body(bytes) => match state {
            FetchState::AwaitingStatus => FetchStep::Finished(Err(FetchError::Network)),
            FetchState::AwaitingBody => FetchStep::Finished(read_body(bytes.as_slice())),
        },
    }
}

/// The state in which a fetch awaits its next event, if it goes on.
pub fn next_state(step: &FetchStep) -> (next: Option<FetchState>)
    ensures
        next == match step@ {
            FetchStepView::ReadBody => Some(FetchState::AwaitingBody),
            FetchStepView::Finished(_) => None::<FetchState>,
        },
{
    match step {
        FetchStep::ReadBody => Some(FetchState::AwaitingBody),
        FetchStep::Finished(_) => None,
    }
}

} // verus!
