//! Backends written in Rust: how the headers a backend hands back are completed, and what the
//! fetch of its body is set up to read.
use vstd::prelude::*;
use crate::text::cat;
use crate::processor::PullResult;

verus! {

/// Why a connection closes.
#[derive(Debug, Clone, Copy, PartialEq, Eq, Structural)]
pub enum StreamClose {
    RemClose,
    ReqClose,
    ReqHttp10,
    RxBad,
    RxBody,
    RxJunk,
    RxOverflow,
    RxTimeout,
    RxCloseIdle,
    TxPipe,
    TxError,
    TxEof,
    RespClose,
    Overload,
    PipeOverflow,
    RangeShort,
    ReqHttp20,
    VclFailure,
}

/// How the body of a backend response is read.
#[derive(Debug, Clone, Copy, PartialEq, Eq, Structural)]
pub enum BodyStatus {
    /// No body
    NoBody,
    /// A body of unknown length, read until it ends
    Chunked,
    /// A body of known length
    Length,
}

/// How the body is read, and its length, given the body the backend hands over: none, one of
/// unknown length, or one of a known length (an empty one being no body).
pub open spec fn spec_body_status(body: Option<Option<usize>>) -> (BodyStatus, usize) {
    match body {
        None => (BodyStatus::NoBody, 0),
        Some(None) => (BodyStatus::Chunked, 0),
        Some(Some(0)) => (BodyStatus::NoBody, 0),
        Some(Some(l)) => (BodyStatus::Length, l),
    }
}

/// How the body is read, and its length.
pub fn body_status(body: Option<Option<usize>>) -> (r: (BodyStatus, usize))
    ensures
        r == spec_body_status(body),
{
    match body {
        None => (BodyStatus::NoBody, 0),
        Some(None) => (BodyStatus::Chunked, 0),
        Some(Some(l)) => if l == 0 { (BodyStatus::NoBody, 0) } else { (BodyStatus::Length, l) },
    }
}

/// The fetch needs a processor to pull the body from the backend.
pub fn needs_body_processor(status: BodyStatus) -> (r: bool)
    ensures
        r == !(status is NoBody),
{
    !matches!(status, BodyStatus::NoBody)
}

/// What a response the backend left incomplete gets: status 200 when it has none, `HTTP/1.1`
/// when it has no protocol.
pub fn header_defaults(has_status: bool, has_proto: bool) -> (r: (Option<u16>, Option<&'static str>))
    ensures
        r.0 == (if has_status { None } else { Some(200u16) }),
        r.1 is Some <==> !has_proto,
        r.1 matches Some(p) ==> p@ == "HTTP/1.1"@,
{
    (if has_status { None } else { Some(200u16) }, if has_proto { None } else { Some("HTTP/1.1") })
}

/// The message a backend of type `backend_type` fails the task with.
pub fn failure_message(backend_type: &str, what: &str) -> (r: String)
    ensures
        r@ == backend_type@ + ": "@ + what@,
{
    cat(cat(backend_type, ": ").as_str(), what)
}

/// What the fetch reports for one read of the body a backend handed over: `None` when the buffer
/// to fill is empty and the body is not read, else what reading gave. An error stops the fetch,
/// reading nothing ends it, reading some bytes goes on.
pub open spec fn spec_transfer_pull(read: Option<Result<usize, String>>) -> PullResult {
    match read {
        None => PullResult::Continue(0),
        Some(Err(_)) => PullResult::Error,
        Some(Ok(0)) => PullResult::End(0),
        Some(Ok(l)) => PullResult::Continue(l),
    }
}

/// The result of pulling the body of a backend response.
pub fn transfer_pull(read: Option<Result<usize, String>>) -> (r: PullResult)
    ensures
        r == spec_transfer_pull(read),
{
    match read {
        None => PullResult::Continue(0),
        Some(Err(_)) => PullResult::Error,
        Some(Ok(l)) => if l == 0 { PullResult::End(0) } else { PullResult::Continue(l) },
    }
}

} // verus!
