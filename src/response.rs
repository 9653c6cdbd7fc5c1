use vstd::prelude::*;
use vstd::string::*;
use crate::error::ClientError;
use hyper::Error as HyperError;

verus! {

/// serde_json's generic document, carried through opaque.
#[verifier::external_type_specification]
#[verifier::external_body]
pub struct ExValue(serde_json::Value);

/// serde_json's decoding failure, carried through opaque.
#[verifier::external_type_specification]
#[verifier::external_body]
pub struct ExJsonError(serde_json::Error);

/// The member that a JSON pointer designates in a document, if any.
pub uninterp spec fn json_member(doc: serde_json::Value, pointer: Seq<char>) -> Option<serde_json::Value>;

/// The text of a JSON string value; nothing for any other value.
pub uninterp spec fn json_text(v: serde_json::Value) -> Option<Seq<char>>;

/// Relies on serde_json's `Value::pointer`: looks a member up by a
/// `/`-separated path; the result depends on the document and the pointer
/// alone.
pub assume_specification<'a>[ serde_json::Value::pointer ](
    v: &'a serde_json::Value,
    pointer: &str,
) -> (r: Option<&'a serde_json::Value>)
    ensures
        match r {
            Some(m) => json_member(*v, pointer@) == Some(*m),
            None => json_member(*v, pointer@) is None,
        },
;

/// Relies on serde_json's `Value::as_str`: the text of a string value,
/// nothing for any other value.
pub assume_specification[ serde_json::Value::as_str ](v: &serde_json::Value) -> (r: Option<&str>)
    ensures
        match r {
            Some(t) => json_text(*v) == Some(t@),
            None => json_text(*v) is None,
        },
;

/// The state that an inspected container document reports: the text at
/// `State.Status`, when there is one.
pub open spec fn reported_status(doc: serde_json::Value) -> Option<Seq<char>> {
    match json_member(doc, "/State/Status"@) {
        Some(m) => json_text(m),
        None => None,
    }
}

/// The view of an optional string.
pub open spec fn opt_str_view(s: Option<&str>) -> Option<Seq<char>> {
    match s {
        Some(x) => Some(x@),
        None => None,
    }
}

/// hyper's call failure, carried through opaque.
#[verifier::external_type_specification]
#[verifier::external_body]
pub struct ExHyperError(hyper::Error);

/// The kinds of failure of an HTTP call, one for each of hyper's.
#[derive(Clone, Copy, Debug, PartialEq, Eq, Structural)]
pub enum HttpFailure {
    /// An invalid method.
    Method,
    /// An invalid URI.
    Uri,
    /// An invalid HTTP version.
    Version,
    /// An invalid header.
    Header,
    /// A message head too large to be reasonable.
    TooLarge,
    /// A message that reached the end of input incomplete.
    Incomplete,
    /// An invalid status.
    Status,
    /// No I/O event came in time.
    Timeout,
    /// A protocol upgrade, which is not supported.
    Upgrade,
    /// The call was dropped before it was processed.
    Canceled,
    /// The connection was closed.
    Closed,
    /// Reading or writing the connection failed.
    Io,
    /// A field that is not valid UTF-8.
    Utf8,
    /// hyper's reserved variant, which holds no value.
    Reserved,
}

/// The kind of a hyper error.
pub uninterp spec fn hyper_kind(e: hyper::Error) -> HttpFailure;

/// Relies on hyper's `Error` variants: tells them apart, one kind each.
#[verifier::external_body]
fn failure_kind(e: &hyper::Error) -> (r: HttpFailure)
    ensures
        r == hyper_kind(*e),
{
    match *e {
        HyperError::Method => HttpFailure::Method,
        HyperError::Uri(_) => HttpFailure::Uri,
        HyperError::Version => HttpFailure::Version,
        HyperError::Header => HttpFailure::Header,
        HyperError::TooLarge => HttpFailure::TooLarge,
        HyperError::Incomplete => HttpFailure::Incomplete,
        HyperError::Status => HttpFailure::Status,
        HyperError::Timeout => HttpFailure::Timeout,
        HyperError::Upgrade => HttpFailure::Upgrade,
        HyperError::Cancel(_) => HttpFailure::Canceled,
        HyperError::Closed => HttpFailure::Closed,
        HyperError::Io(_) => HttpFailure::Io, HyperError::Utf8(_) => HttpFailure::Utf8,
        HyperError::__Nonexhaustive(_) => HttpFailure::Reserved,
    }
}

/// The failure class of each kind of HTTP failure.
pub open spec fn failure_class(k: HttpFailure) -> ClientError {
    match k {
        HttpFailure::Uri => ClientError::Uri,
        HttpFailure::Timeout | HttpFailure::Canceled | HttpFailure::Closed | HttpFailure::Io => {
            ClientError::Connection
        },
        _ => ClientError::Protocol,
    }
}

/// Transport-level failures are connection errors, an invalid URI is a URI
/// error, anything wrong with the message is a protocol error.
pub fn classify_failure(k: HttpFailure) -> (r: ClientError)
    ensures
        r == failure_class(k),
{
    match k {
        HttpFailure::Uri => ClientError::Uri,
        HttpFailure::Timeout | HttpFailure::Canceled | HttpFailure::Closed | HttpFailure::Io => {
            ClientError::Connection
        },
        HttpFailure::Method | HttpFailure::Version | HttpFailure::Header | HttpFailure::TooLarge
        | HttpFailure::Incomplete | HttpFailure::Status | HttpFailure::Upgrade | HttpFailure::Utf8
        | HttpFailure::Reserved => ClientError::Protocol,
    }
}

/// The failure class of a failed hyper call.
pub fn classify(e: &hyper::Error) -> (r: ClientError)
    ensures
        r == failure_class(hyper_kind(*e)),
{
    classify_failure(failure_kind(e))
}

/// Whether serde_json accepts a byte string as one JSON document.
pub uninterp spec fn json_parses(b: Seq<u8>) -> bool;

/// Relies on serde_json's `from_slice` into a generic `Value`: whether the
/// bytes decode depends on the bytes alone.
#[verifier::external_body]
fn parse_json(b: &[u8]) -> (r: Result<serde_json::Value, serde_json::Error>)
    ensures
        r is Ok <==> json_parses(b@),
{
    serde_json::from_slice(b)
}

/// A 2xx status.
pub open spec fn is_success(code: u16) -> bool {
    200 <= code < 300
}

/// Accepts a success status; any other is a protocol error.
pub fn check_status(code: u16) -> (r: Result<(), ClientError>)
    ensures
        r is Ok <==> is_success(code),
        r is Err ==> r->Err_0 == ClientError::Protocol,
{
    if 200 <= code && code < 300 {
        Ok(())
    } else {
        Err(ClientError::Protocol)
    }
}

/// Classifies a complete response of a read-only call: a non-success status
/// or a body that is not one JSON document is a protocol error; otherwise
/// the decoded document.
pub fn decode_response(status: u16, body: &[u8]) -> (r: Result<serde_json::Value, ClientError>)
    ensures
        r is Ok <==> is_success(status) && json_parses(body@),
        r is Err ==> r->Err_0 == ClientError::Protocol,
{
    check_status(status)?;
    match parse_json(body) {
        Ok(v) => Ok(v),
        Err(_) => Err(ClientError::Protocol),
    }
}

/// Container state that allows attaching.
pub open spec fn running() -> Seq<char> {
    "running"@
}

/// Decides from a container's reported state whether an attach may go
/// ahead: only `running` does; an absent state or any other is refused.
pub fn check_running(status: Option<&str>) -> (r: Result<(), ClientError>)
    ensures
        r is Ok <==> (status is Some && status->0@ == running()),
        r is Err ==> r->Err_0 == ClientError::ContainerState,
{
    match status {
        Some(s) => {
            let given = String::from_str(s);
            let wanted = String::from_str("running");
            if given == wanted {
                Ok(())
            } else {
                Err(ClientError::ContainerState)
            }
        },
        None => Err(ClientError::ContainerState),
    }
}

/// Reads `State.Status` of an inspected container document, when it is a
/// string.
pub fn container_status(doc: &serde_json::Value) -> (r: Option<&str>)
    ensures
        opt_str_view(r) == reported_status(*doc),
{
    match doc.pointer("/State/Status") {
        Some(v) => v.as_str(),
        None => None,
    }
}

/// Fails with `ClientError::ContainerState` unless the inspected document reports
/// the container as running.
pub fn ensure_running(doc: &serde_json::Value) -> (r: Result<(), ClientError>)
    ensures
        r is Ok <==> reported_status(*doc) == Some(running()),
        r is Err ==> r->Err_0 == ClientError::ContainerState,
{
    check_running(container_status(doc))
}

} // verus!
