use vstd::prelude::*;
use crate::body::Body;
use crate::client::Header;
use crate::error::Error;

verus! {

/// A status in the 2xx range.
pub open spec fn is_success_status(status: u16) -> bool {
    200 <= status && status < 300
}

pub fn is_success(status: u16) -> (r: bool)
    ensures
        r == is_success_status(status),
{
    200 <= status && status < 300
}

/// The string member `key` of the JSON object that `body` encodes, if the
/// body is such an object and that member is a string.
pub uninterp spec fn json_str_member(body: Seq<u8>, key: Seq<char>) -> Option<Seq<char>>;

pub open spec fn error_key() -> Seq<char> {
    seq!['e', 'r', 'r', 'o', 'r']
}

pub open spec fn message_key() -> Seq<char> {
    seq!['m', 'e', 's', 's', 'a', 'g', 'e']
}

/// Relies on serde_json::from_slice into a `serde_json::Value`, then
/// `Value::get` and `Value::as_str`: the result depends on the bytes and the
/// key alone.
#[verifier::external_body]
fn str_member(body: &[u8], key: &str) -> (r: Option<String>)
    ensures
        match r {
            Some(s) => json_str_member(body@, key@) == Some(s@),
            None => json_str_member(body@, key@).is_none(),
        },
{
    let v: serde_json::Value = serde_json::from_slice(body).ok()?;
    let s = v.get(key)?.as_str()?;
    Some(s.to_string())
}

/// The error for a non-success status, from the `"error"` and `"message"`
/// members of its body: the first present gives an `Api` error, and with
/// neither the error carries the bare status.
pub fn error_from_members(status: u16, error: Option<String>, message: Option<String>) -> (r:
    Error)
    ensures
        match (error, message) {
            (Some(m), _) => r == (Error::Api { status, message: m }),
            (None, Some(m)) => r == (Error::Api { status, message: m }),
            (None, None) => r == (Error::Status { status }),
        },
{
    match error {
        Some(m) => Error::Api { status, message: m },
        None => match message {
            Some(m) => Error::Api { status, message: m },
            None => Error::Status { status },
        },
    }
}

/// What a non-success response with status `status` and buffered body
/// `body` (absent where buffering failed) is classified as.
pub open spec fn failure_for(r: Error, status: u16, body: Option<Seq<u8>>) -> bool {
    match body {
        Some(b) => match json_str_member(b, error_key()) {
            Some(m) => r.is_api(status, m),
            None => match json_str_member(b, message_key()) {
                Some(m) => r.is_api(status, m),
                None => r.is_status(status),
            },
        },
        None => r.is_status(status),
    }
}

/// Classifies a non-success response by its buffered body: a JSON error
/// envelope gives its message, anything else the bare status.
pub fn failure_error(status: u16, body: Option<&[u8]>) -> (r: Error)
    ensures
        failure_for(r, status, match body {
            Some(b) => Some(b@),
            None => None,
        }),
{
    match body {
        Some(b) => {
            let ek = "error";
            let mk = "message";
            proof {
                reveal_strlit("error");
                reveal_strlit("message");
                assert(ek@ =~= error_key());
                assert(mk@ =~= message_key());
            }
            let error = str_member(b, ek);
            let message = match error {
                Some(_) => None,
                None => str_member(b, mk),
            };
            error_from_members(status, error, message)
        },
        None => Error::Status { status },
    }
}

/// Whether a response with status `status` succeeded; where it did not,
/// the error read from its buffered body (absent where buffering failed).
pub fn status_outcome(status: u16, body: Option<&[u8]>) -> (r: Result<(), Error>)
    ensures
        is_success_status(status) <==> r is Ok,
        r matches Err(e) ==> failure_for(e, status, match body {
            Some(b) => Some(b@),
            None => None,
        }),
{
    if is_success(status) {
        Ok(())
    } else {
        Err(failure_error(status, body))
    }
}

/// A response whose body is held in memory.
#[derive(Debug)]
pub struct Response {
    pub status: u16,
    pub headers: Vec<Header>,
    pub body: Body,
}

/// Passes a success response through and turns any other into its error,
/// read from the body.
pub fn classify_response(response: Response) -> (r: Result<Response, Error>)
    ensures
        is_success_status(response.status) ==> r == Ok::<Response, Error>(response),
        !is_success_status(response.status) ==> match r {
            Ok(_) => false,
            Err(e) => failure_for(e, response.status, Some(response.body@)),
        },
{
    if is_success(response.status) {
        Ok(response)
    } else {
        let status = response.status;
        let bytes = crate::body::recv_bytes(response.body);
        Err(failure_error(status, Some(bytes.as_slice())))
    }
}

/// The outcome of a request whose body the caller decodes into `T`: a
/// success status gives the decoded value or a `Json` error; any other
/// status is classified by its body.
pub fn json_outcome<T>(status: u16, body: Option<&[u8]>, decoded: Result<T, String>) -> (r:
    Result<T, Error>)
    ensures
        is_success_status(status) ==> match decoded {
            Ok(v) => r == Ok::<T, Error>(v),
            Err(d) => r == Err::<T, Error>(Error::Json { detail: d }),
        },
        !is_success_status(status) ==> match r {
            Ok(_) => false,
            Err(e) => failure_for(e, status, match body {
                Some(b) => Some(b@),
                None => None,
            }),
        },
{
    if is_success(status) {
        match decoded {
            Ok(v) => Ok(v),
            Err(d) => Err(Error::Json { detail: d }),
        }
    } else {
        Err(failure_error(status, body))
    }
}

} // verus!
