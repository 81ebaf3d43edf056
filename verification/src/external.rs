//! Declarations of the outside types that the library carries, and the calls into `http`
//! and `axum-core` that it makes.

use vstd::prelude::*;
use axum_core::response::IntoResponse;

verus! {

/// The response body type of `axum-core`.
#[verifier::external_type_specification]
#[verifier::external_body]
pub struct ExBody(axum_core::body::Body);

/// The response type of `http`; `axum-core` uses it with `Body`.
#[verifier::external_type_specification]
#[verifier::external_body]
#[verifier::reject_recursive_types(T)]
pub struct ExHttpResponse<T>(http::Response<T>);

/// The status code type of `http`.
#[verifier::external_type_specification]
#[verifier::external_body]
pub struct ExHttpStatusCode(http::StatusCode);

/// The error of `http::StatusCode::from_u16`.
#[verifier::external_type_specification]
#[verifier::external_body]
pub struct ExInvalidStatusCode(http::status::InvalidStatusCode);

/// The error type of `std::fmt`.
#[verifier::external_type_specification]
#[verifier::external_body]
pub struct ExFmtError(std::fmt::Error);

/// `std`'s conversion of a value into its own type, `impl<T> From<T> for T`, which the
/// standard library documents as returning the argument unchanged.
pub assume_specification<Same>[ <Same as core::convert::From<Same>>::from ](same: Same) -> (r: Same)
    ensures
        r == same,
;

/// std's `impl From<&str> for String`, which std documents as converting a `&str` into a
/// `String`: the string holds the same text.
pub assume_specification<'a>[ <std::string::String as core::convert::From<&'a str>>::from ](text: &str) -> (r: std::string::String)
    ensures
        r@ == text@,
;

/// An HTTP response as `axum` builds it.
pub type HttpResponse = http::Response<axum_core::body::Body>;

/// The number an `http::StatusCode` holds, as its `as_u16` gives it.
pub uninterp spec fn status_code_number(code: http::StatusCode) -> u16;

/// The number of the status an `http` response carries.
pub uninterp spec fn response_status(response: HttpResponse) -> u16;

/// All of an `http` response but its status: version, headers, extensions and body.
pub uninterp spec fn response_rest(response: HttpResponse) -> HttpResponse;

/// The text an `http` response's body holds.
pub uninterp spec fn response_text(response: HttpResponse) -> Seq<char>;

/// Calls `http::StatusCode::from_u16`. Its source accepts exactly the numbers from 100 to
/// 999, and then builds the status code that holds the number it was given.
#[verifier::external_body]
pub(crate) fn http_status(code: u16) -> (r: Result<http::StatusCode, http::status::InvalidStatusCode>)
    ensures
        r is Ok <==> 100 <= code <= 999,
        r matches Ok(s) ==> status_code_number(s) == code,
{
    http::StatusCode::from_u16(code)
}

/// Calls `axum-core`'s `IntoResponse` impl for `(StatusCode, Response)`. Its source takes the
/// response as it is, replaces its status with `code` and keeps everything else.
#[verifier::external_body]
pub(crate) fn response_with_status(code: http::StatusCode, response: HttpResponse) -> (r: HttpResponse)
    ensures
        response_status(r) == status_code_number(code),
        response_rest(r) == response_rest(response),
        response_text(r) == response_text(response),
{
    (code, response).into_response()
}

/// Calls `axum-core`'s `IntoResponse` impl for `(StatusCode, String)`. Its source makes a
/// `text/plain` response whose body is the text, and then sets its status to `code`.
#[verifier::external_body]
pub(crate) fn text_response_with_status(code: http::StatusCode, body: String) -> (r: HttpResponse)
    ensures
        response_status(r) == status_code_number(code),
        response_text(r) == body@,
{
    (code, body).into_response()
}

} // verus!
