//! The decision half of the remote client stub: how a response status is
//! read. `NotFound` on a get is the absent sentinel, not an error; every
//! other non-OK status becomes a typed message. The stub's I/O half —
//! channels, encoding, awaiting — lives with the transport outside this
//! library and feeds every status through these functions.
use vstd::prelude::*;
use vstd::string::StringExecFns;
use crate::error::client_error::StatusCode;

verus! {

/// How the client reads a failed get: `NotFound` means the key is
/// absent (no error); anything else is an error naming the failure.
pub fn get_failure_disposition(code: StatusCode, message: &str) -> (r: Option<String>)
    ensures
        code == StatusCode::NotFound <==> r is None,
        code != StatusCode::NotFound ==> r is Some && r->0@ == "Get failed: "@ + message@,
{
    match code {
        StatusCode::NotFound => None,
        _ => Some(String::from_str("Get failed: ").concat(message)),
    }
}

/// The message the client reports for a failed put, by status code.
pub fn put_failure_message(code: StatusCode, key: &str, message: &str) -> (r: String)
    ensures
        code == StatusCode::AlreadyExists ==> r@ == "Key '"@ + key@ + "' already exists"@,
        code == StatusCode::ResourceExhausted ==> r@ == "Cache is full"@,
        code == StatusCode::InvalidArgument ==> r@ == "Invalid tensor: "@ + message@,
        (code != StatusCode::AlreadyExists && code != StatusCode::ResourceExhausted && code
            != StatusCode::InvalidArgument) ==> r@ == "Put failed: "@ + message@,
{
    match code {
        StatusCode::AlreadyExists => String::from_str("Key '").concat(key).concat(
            "' already exists",
        ),
        StatusCode::ResourceExhausted => String::from_str("Cache is full"),
        StatusCode::InvalidArgument => String::from_str("Invalid tensor: ").concat(message),
        _ => String::from_str("Put failed: ").concat(message),
    }
}

/// The message the client reports for a failed delete.
pub fn delete_failure_message(message: &str) -> (r: String)
    ensures
        r@ == "Delete failed: "@ + message@,
{
    String::from_str("Delete failed: ").concat(message)
}

/// The message the client reports for a failed statistics request.
pub fn stats_failure_message(message: &str) -> (r: String)
    ensures
        r@ == "Get statistics failed: "@ + message@,
{
    String::from_str("Get statistics failed: ").concat(message)
}

} // verus!
