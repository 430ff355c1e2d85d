//! Declarations of the outside types that the library holds, and the
//! trusted wrappers through which it calls outside code.

use vstd::prelude::*;
use vstd::utf8::{decode_utf8, valid_utf8};

verus! {

/// A JSON value of `serde_json`, held opaquely.
#[verifier::external_type_specification]
#[verifier::external_body]
pub struct ExJsonValue(serde_json::Value);

/// A JSON number of `serde_json`, held opaquely; the library keeps the
/// floating-point parameters of the API in this form.
#[verifier::external_type_specification]
#[verifier::external_body]
pub struct ExJsonNumber(serde_json::Number);

/// The error of `serde_json`, held opaquely.
#[verifier::external_type_specification]
#[verifier::external_body]
pub struct ExJsonError(serde_json::Error);

/// The error of `reqwest`, held opaquely.
#[verifier::external_type_specification]
#[verifier::external_body]
pub struct ExHttpError(reqwest::Error);

/// The I/O error of std, held opaquely.
#[verifier::external_type_specification]
#[verifier::external_body]
pub struct ExIoError(std::io::Error);

/// The error of `std::str::from_utf8`, held opaquely.
#[verifier::external_type_specification]
#[verifier::external_body]
pub struct ExUtf8Error(core::str::Utf8Error);

/// Wraps `std::str::from_utf8`: it succeeds exactly where `bytes` is
/// well-formed UTF-8, and then gives the text that those bytes encode.
#[verifier::external_body]
pub fn str_from_utf8(bytes: &[u8]) -> (r: Result<&str, core::str::Utf8Error>)
    ensures
        r is Ok <==> valid_utf8(bytes@),
        r matches Ok(s) ==> s@ == decode_utf8(bytes@),
{
    std::str::from_utf8(bytes)
}

/// Wraps `ToString::to_string` on a UTF-8 error: the message that its
/// `Display` writes. Nothing is stated of that text.
#[verifier::external_body]
pub fn utf8_error_message(e: &core::str::Utf8Error) -> String {
    e.to_string()
}

/// The duration of `secs` seconds, as `Duration::from_secs` makes it.
pub uninterp spec fn duration_of_secs(secs: u64) -> std::time::Duration;

/// Wraps `std::time::Duration::from_secs`: its result is the duration named
/// `duration_of_secs(secs)`.
#[verifier::external_body]
pub fn duration_from_secs(secs: u64) -> (d: std::time::Duration)
    ensures
        d == duration_of_secs(secs),
{
    std::time::Duration::from_secs(secs)
}

/// `Duration` is `Copy`, and its `clone` gives back the same duration.
pub assume_specification[ <std::time::Duration as Clone>::clone ](d: &std::time::Duration) -> (r:
    std::time::Duration)
    ensures
        r == *d,
;

/// `serde_json::Value` derives `Clone`: a clone is the same JSON value.
pub assume_specification[ <serde_json::Value as Clone>::clone ](v: &serde_json::Value) -> (r:
    serde_json::Value)
    ensures
        r == *v,
;

/// `serde_json::Number` derives `Clone`: a clone is the same number.
pub assume_specification[ <serde_json::Number as Clone>::clone ](n: &serde_json::Number) -> (r:
    serde_json::Number)
    ensures
        r == *n,
;

/// Wraps `String::push`: the string gains `c` at its end.
#[verifier::external_body]
pub fn push_char(s: &mut String, c: char)
    ensures
        final(s)@ == old(s)@.push(c),
{
    s.push(c);
}

} // verus!
