//! JSON-RPC errors returned by the filesystem request handlers.

use vstd::prelude::*;

verus! {

/// JSON-RPC code of a request that the server refuses as invalid.
pub const INVALID_REQUEST_ERROR_CODE: i64 = -32600i64;

/// JSON-RPC code of a failure on the server's side.
pub const INTERNAL_ERROR_CODE: i64 = -32603i64;

/// The error member of a JSON-RPC response.
#[derive(Debug)]
pub struct JSONRPCErrorError {
    pub code: i64,
    pub message: String,
}

impl View for JSONRPCErrorError {
    type V = (i64, Seq<char>);

    open spec fn view(&self) -> (i64, Seq<char>) {
        (self.code, self.message@)
    }
}

pub open spec fn invalid_request_view(message: Seq<char>) -> (i64, Seq<char>) {
    (INVALID_REQUEST_ERROR_CODE, message)
}

pub open spec fn internal_error_view(message: Seq<char>) -> (i64, Seq<char>) {
    (INTERNAL_ERROR_CODE, message)
}

/// The message of a refused filesystem operation: `fs/<operation><tail>`.
pub open spec fn fs_message(operation: Seq<char>, tail: Seq<char>) -> Seq<char> {
    "fs/"@ + operation + tail
}

/// An "invalid request" error with the given message.
pub fn invalid_request(message: String) -> (res: JSONRPCErrorError)
    ensures
        res@ == invalid_request_view(message@),
{
    JSONRPCErrorError { code: INVALID_REQUEST_ERROR_CODE, message }
}

/// An "internal error" with the given message.
pub fn internal_error(message: String) -> (res: JSONRPCErrorError)
    ensures
        res@ == internal_error_view(message@),
{
    JSONRPCErrorError { code: INTERNAL_ERROR_CODE, message }
}

/// The text `fs/<operation><tail>`.
pub fn fs_text(operation: &str, tail: &str) -> (res: String)
    ensures
        res@ == fs_message(operation@, tail@),
{
    let mut s = String::from_str("fs/");
    s.append(operation);
    s.append(tail);
    s
}

/// An "invalid request" error with message `fs/<operation><tail>`.
pub fn fs_invalid_request(operation: &str, tail: &str) -> (res: JSONRPCErrorError)
    ensures
        res@ == invalid_request_view(fs_message(operation@, tail@)),
{
    invalid_request(fs_text(operation, tail))
}

/// An "invalid request" error with message `fs/<operation><tail><detail>`.
pub fn fs_invalid_request_with(operation: &str, tail: &str, detail: &str) -> (res:
    JSONRPCErrorError)
    ensures
        res@ == invalid_request_view(fs_message(operation@, tail@) + detail@),
{
    let mut s = fs_text(operation, tail);
    s.append(detail);
    invalid_request(s)
}

/// What the handlers read of a failed filesystem call: whether its kind is
/// "invalid input", and its message.
pub struct FsCallError {
    pub invalid_input: bool,
    pub message: String,
}

/// The JSON-RPC error for a failed filesystem call: "invalid request" when
/// the call rejected its input, "internal error" otherwise, with the
/// call's message either way.
pub fn map_fs_error(err: FsCallError) -> (res: JSONRPCErrorError)
    ensures
        err.invalid_input ==> res@ == invalid_request_view(err.message@),
        !err.invalid_input ==> res@ == internal_error_view(err.message@),
{
    if err.invalid_input {
        invalid_request(err.message)
    } else {
        internal_error(err.message)
    }
}

} // verus!
