//! Handlers that use error sets end to end: an error value of their own, functions with
//! narrow sets, and a handler that calls them and answers with one of its own codes.

use vstd::prelude::*;
use crate::{ErrorSet, ErrorSetValue, HttpResponse, Status};
use crate::codes::{Conflict, Internal, NotAcceptable, NotFound};
use crate::external::{http_status, response_status, response_text, text_response_with_status};
use crate::result_ext::{ApiResultExt, StatusResultExt};

verus! {

/// An error value that carries an optional message.
pub struct MyApiError {
    msg: Option<String>,
}

impl MyApiError {
    /// The message of the error.
    pub closed spec fn message(&self) -> Option<String> {
        self.msg
    }

    /// An error with the message `msg`.
    pub fn new<M: Into<String>>(msg: M) -> (r: Self)
        ensures
            r.message() matches Some(m) && call_ensures(M::into, (msg,), m),
    {
        MyApiError { msg: Some(msg.into()) }
    }
}

impl From<std::fmt::Error> for MyApiError {
    /// An error that stands for a formatting failure; it has no message.
    fn from(_err: std::fmt::Error) -> (r: Self)
        ensures
            r.message() is None,
    {
        MyApiError { msg: None }
    }
}

impl vstd::std_specs::convert::FromSpecImpl<std::fmt::Error> for MyApiError {
    open spec fn obeys_from_spec() -> bool {
        true
    }

    closed spec fn from_spec(v: std::fmt::Error) -> Self {
        MyApiError { msg: None }
    }
}

impl ErrorSetValue for MyApiError {
    /// A text response holding the message (empty without one), sent with `status`.
    fn into_response_with(self, status: Status) -> (r: HttpResponse)
        ensures
            response_status(r) == status@,
            response_text(r) == match self.message() {
                Some(m) => m@,
                None => Seq::<char>::empty(),
            },
    {
        let msg = match self.msg {
            Some(m) => m,
            None => String::new(),
        };
        let code = http_status(status.as_u16()).unwrap();
        text_response_with_status(code, msg)
    }
}

/// A fallible step that succeeds.
pub fn another_fn() -> (r: Result<(), std::fmt::Error>)
    ensures
        r is Ok,
{
    Ok(())
}

/// A step whose only possible error is a 404.
pub fn subset() -> (r: Result<(), ErrorSet<MyApiError, (NotFound,)>>)
    ensures
        r is Ok,
{
    Ok(())
}

/// A step whose errors are a 409 or a 406, which [`test`] does not handle.
pub fn unhandled() -> (r: Result<(), ErrorSet<MyApiError, (Conflict, NotAcceptable)>>)
    ensures
        r is Ok,
{
    Ok(())
}

/// A handler that can answer with a 404 or a 500. Its steps succeed, and it then answers
/// with a 404 whose message is "Not found".
pub fn test() -> (r: Result<(), ErrorSet<MyApiError, (NotFound, Internal)>>)
    ensures
        r matches Err(e) && e.code() == 404 && e.code_in_set() && (e.spec_value().message() matches Some(m)
            && m@ == "Not found"@),
{
    if let Err(e) = another_fn().into_not_found() {
        return Err(ErrorSet::new(e));
    }
    if let Err(e) = another_fn().into_internal() {
        return Err(ErrorSet::new(e));
    }
    if let Err(e) = subset().into_superset() {
        return Err(e);
    }
    Err(ErrorSet::new(NotFound(MyApiError::new("Not found"))))
}

} // verus!
