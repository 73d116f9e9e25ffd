//! The status catalog: a short English phrase for each HTTP status code.

use vstd::prelude::*;
use vstd::string::StringExecFns;
use crate::text::{decimal, push_decimal};

verus! {

/// Whether an HTTP status code belongs to the success family (2xx).
pub open spec fn spec_is_success(code: u16) -> bool {
    200 <= code < 300
}

/// The catalog's phrase for `code`, where it lists one.
pub open spec fn catalog_phrase(code: u16) -> Option<Seq<char>> {
    match code {
        100 => Some("continue"@),
        101 => Some("switching protocols"@),
        102 => Some("processing"@),
        103 => Some("early hints"@),
        200 => Some("ok"@),
        201 => Some("created"@),
        202 => Some("accepted"@),
        203 => Some("non-authoritative"@),
        204 => Some("no content"@),
        205 => Some("reset"@),
        206 => Some("partial"@),
        207 => Some("multi-status"@),
        208 => Some("reported"@),
        226 => Some("im used"@),
        300 => Some("multiple choices"@),
        301 => Some("moved"@),
        302 => Some("found"@),
        303 => Some("see other"@),
        304 => Some("not modified"@),
        305 => Some("use proxy"@),
        306 => Some("switch proxy"@),
        307 => Some("temp redirect"@),
        308 => Some("perm redirect"@),
        400 => Some("bad request"@),
        401 => Some("unauthorized"@),
        402 => Some("payment required"@),
        403 => Some("forbidden"@),
        404 => Some("not found"@),
        405 => Some("method not allowed"@),
        406 => Some("not acceptable"@),
        407 => Some("proxy auth required"@),
        408 => Some("timeout"@),
        409 => Some("conflict"@),
        410 => Some("gone"@),
        411 => Some("length required"@),
        412 => Some("precondition failed"@),
        413 => Some("payload too large"@),
        414 => Some("uri too long"@),
        415 => Some("unsupported media"@),
        416 => Some("range error"@),
        417 => Some("expectation failed"@),
        418 => Some("teapot"@),
        421 => Some("misdirected"@),
        422 => Some("unprocessable"@),
        423 => Some("locked"@),
        424 => Some("failed dependency"@),
        425 => Some("too early"@),
        426 => Some("upgrade required"@),
        428 => Some("precondition required"@),
        429 => Some("too many requests"@),
        431 => Some("headers too large"@),
        451 => Some("legal reasons"@),
        500 => Some("server error"@),
        501 => Some("not implemented"@),
        502 => Some("bad gateway"@),
        503 => Some("unavailable"@),
        504 => Some("gateway timeout"@),
        505 => Some("http version"@),
        506 => Some("variant negotiates"@),
        507 => Some("insufficient storage"@),
        508 => Some("loop detected"@),
        510 => Some("not extended"@),
        511 => Some("network auth"@),
        _ => None,
    }
}

/// The description of `code`: its catalog phrase, or a generic text that
/// carries the number where the catalog lists none.
pub open spec fn status_description(code: u16) -> Seq<char> {
    match catalog_phrase(code) {
        Some(phrase) => phrase,
        None => "Unknown Status Code "@ + decimal(code as nat),
    }
}

/// Tells whether `code` is a 2xx status code.
pub fn is_success(code: u16) -> (ok: bool)
    ensures
        ok == spec_is_success(code),
{
    200 <= code && code < 300
}

/// Looks `code` up in the catalog.
pub fn lookup_phrase(code: u16) -> (phrase: Option<&'static str>)
    ensures
        phrase is Some <==> catalog_phrase(code) is Some,
        phrase is Some ==> catalog_phrase(code) == Some(phrase->0@),
{
    match code {
        100 => Some("continue"),
        101 => Some("switching protocols"),
        102 => Some("processing"),
        103 => Some("early hints"),
        200 => Some("ok"),
        201 => Some("created"),
        202 => Some("accepted"),
        203 => Some("non-authoritative"),
        204 => Some("no content"),
        205 => Some("reset"),
        206 => Some("partial"),
        207 => Some("multi-status"),
        208 => Some("reported"),
        226 => Some("im used"),
        300 => Some("multiple choices"),
        301 => Some("moved"),
        302 => Some("found"),
        303 => Some("see other"),
        304 => Some("not modified"),
        305 => Some("use proxy"),
        306 => Some("switch proxy"),
        307 => Some("temp redirect"),
        308 => Some("perm redirect"),
        400 => Some("bad request"),
        401 => Some("unauthorized"),
        402 => Some("payment required"),
        403 => Some("forbidden"),
        404 => Some("not found"),
        405 => Some("method not allowed"),
        406 => Some("not acceptable"),
        407 => Some("proxy auth required"),
        408 => Some("timeout"),
        409 => Some("conflict"),
        410 => Some("gone"),
        411 => Some("length required"),
        412 => Some("precondition failed"),
        413 => Some("payload too large"),
        414 => Some("uri too long"),
        415 => Some("unsupported media"),
        416 => Some("range error"),
        417 => Some("expectation failed"),
        418 => Some("teapot"),
        421 => Some("misdirected"),
        422 => Some("unprocessable"),
        423 => Some("locked"),
        424 => Some("failed dependency"),
        425 => Some("too early"),
        426 => Some("upgrade required"),
        428 => Some("precondition required"),
        429 => Some("too many requests"),
        431 => Some("headers too large"),
        451 => Some("legal reasons"),
        500 => Some("server error"),
        501 => Some("not implemented"),
        502 => Some("bad gateway"),
        503 => Some("unavailable"),
        504 => Some("gateway timeout"),
        505 => Some("http version"),
        506 => Some("variant negotiates"),
        507 => Some("insufficient storage"),
        508 => Some("loop detected"),
        510 => Some("not extended"),
        511 => Some("network auth"),
        _ => None,
    }
}

/// Describes an HTTP status code in words.
pub fn get_status_description(code: u16) -> (description: String)
    ensures
        description@ == status_description(code),
{
    match lookup_phrase(code) {
        Some(phrase) => String::from_str(phrase),
        None => {
            let mut text = String::from_str("Unknown Status Code ");
            push_decimal(&mut text, code as u64);
            text
        },
    }
}

} // verus!
