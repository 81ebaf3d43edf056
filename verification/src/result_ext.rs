//! Extension traits for giving the error of a `Result` a status code, and for growing the
//! set of an [`ErrorSet`] error.

use vstd::prelude::*;
use crate::{ErrorSet, StatusSet, is_superset};
use crate::codes::{
    BadGateway, BadRequest, Conflict, Forbidden, GatewayTimeout, Internal, NotFound,
    ServiceUnavailable, TooManyRequests, Unauthorized, UnprocessableEntity,
};

verus! {

/// Converts the error of a [`Result`] into a status code wrapper. Each method changes only
/// the `Err` value: an `Ok` value passes through unchanged, and an error becomes the body of
/// the wrapper.
pub trait StatusResultExt: Sized {
    /// The `Ok` type of the [`Result`].
    type Ok;

    /// The `Err` type of the [`Result`].
    type Err;

    /// The result these methods act on.
    spec fn spec_result(&self) -> Result<Self::Ok, Self::Err>;

    /// Converts the error into a `400 Bad Request` error.
    fn into_bad_request(self) -> (r: Result<Self::Ok, BadRequest<Self::Err>>)
        ensures
            match self.spec_result() {
                Ok(v) => r == Ok::<Self::Ok, BadRequest<Self::Err>>(v),
                Err(e) => r == Err::<Self::Ok, BadRequest<Self::Err>>(BadRequest(e)),
            },
    ;

    /// Converts the error into a `401 Unauthorized` error.
    fn into_unauthorized(self) -> (r: Result<Self::Ok, Unauthorized<Self::Err>>)
        ensures
            match self.spec_result() {
                Ok(v) => r == Ok::<Self::Ok, Unauthorized<Self::Err>>(v),
                Err(e) => r == Err::<Self::Ok, Unauthorized<Self::Err>>(Unauthorized(e)),
            },
    ;

    /// Converts the error into a `403 Forbidden` error.
    fn into_forbidden(self) -> (r: Result<Self::Ok, Forbidden<Self::Err>>)
        ensures
            match self.spec_result() {
                Ok(v) => r == Ok::<Self::Ok, Forbidden<Self::Err>>(v),
                Err(e) => r == Err::<Self::Ok, Forbidden<Self::Err>>(Forbidden(e)),
            },
    ;

    /// Converts the error into a `404 Not Found` error.
    fn into_not_found(self) -> (r: Result<Self::Ok, NotFound<Self::Err>>)
        ensures
            match self.spec_result() {
                Ok(v) => r == Ok::<Self::Ok, NotFound<Self::Err>>(v),
                Err(e) => r == Err::<Self::Ok, NotFound<Self::Err>>(NotFound(e)),
            },
    ;

    /// Converts the error into a `409 Conflict` error.
    fn into_conflict(self) -> (r: Result<Self::Ok, Conflict<Self::Err>>)
        ensures
            match self.spec_result() {
                Ok(v) => r == Ok::<Self::Ok, Conflict<Self::Err>>(v),
                Err(e) => r == Err::<Self::Ok, Conflict<Self::Err>>(Conflict(e)),
            },
    ;

    /// Converts the error into a `422 Unprocessable Entity` error.
    fn into_unprocessable_entity(self) -> (r: Result<Self::Ok, UnprocessableEntity<Self::Err>>)
        ensures
            match self.spec_result() {
                Ok(v) => r == Ok::<Self::Ok, UnprocessableEntity<Self::Err>>(v),
                Err(e) => r == Err::<Self::Ok, UnprocessableEntity<Self::Err>>(UnprocessableEntity(e)),
            },
    ;

    /// Converts the error into a `429 Too Many Requests` error.
    fn into_too_many_requests(self) -> (r: Result<Self::Ok, TooManyRequests<Self::Err>>)
        ensures
            match self.spec_result() {
                Ok(v) => r == Ok::<Self::Ok, TooManyRequests<Self::Err>>(v),
                Err(e) => r == Err::<Self::Ok, TooManyRequests<Self::Err>>(TooManyRequests(e)),
            },
    ;

    /// Converts the error into a `500 Internal Server Error` error.
    fn into_internal(self) -> (r: Result<Self::Ok, Internal<Self::Err>>)
        ensures
            match self.spec_result() {
                Ok(v) => r == Ok::<Self::Ok, Internal<Self::Err>>(v),
                Err(e) => r == Err::<Self::Ok, Internal<Self::Err>>(Internal(e)),
            },
    ;

    /// Converts the error into a `502 Bad Gateway` error.
    fn into_bad_gateway(self) -> (r: Result<Self::Ok, BadGateway<Self::Err>>)
        ensures
            match self.spec_result() {
                Ok(v) => r == Ok::<Self::Ok, BadGateway<Self::Err>>(v),
                Err(e) => r == Err::<Self::Ok, BadGateway<Self::Err>>(BadGateway(e)),
            },
    ;

    /// Converts the error into a `503 Service Unavailable` error.
    fn into_service_unavailable(self) -> (r: Result<Self::Ok, ServiceUnavailable<Self::Err>>)
        ensures
            match self.spec_result() {
                Ok(v) => r == Ok::<Self::Ok, ServiceUnavailable<Self::Err>>(v),
                Err(e) => r == Err::<Self::Ok, ServiceUnavailable<Self::Err>>(ServiceUnavailable(e)),
            },
    ;

    /// Converts the error into a `504 Gateway Timeout` error.
    fn into_gateway_timeout(self) -> (r: Result<Self::Ok, GatewayTimeout<Self::Err>>)
        ensures
            match self.spec_result() {
                Ok(v) => r == Ok::<Self::Ok, GatewayTimeout<Self::Err>>(v),
                Err(e) => r == Err::<Self::Ok, GatewayTimeout<Self::Err>>(GatewayTimeout(e)),
            },
    ;
}

impl<T, E> StatusResultExt for Result<T, E> {
    type Ok = T;
    type Err = E;

    open spec fn spec_result(&self) -> Result<T, E> {
        *self
    }

    fn into_bad_request(self) -> (r: Result<T, BadRequest<E>>) {
        match self {
            Ok(v) => Ok(v),
            Err(e) => Err(BadRequest(e)),
        }
    }

    fn into_unauthorized(self) -> (r: Result<T, Unauthorized<E>>) {
        match self {
            Ok(v) => Ok(v),
            Err(e) => Err(Unauthorized(e)),
        }
    }

    fn into_forbidden(self) -> (r: Result<T, Forbidden<E>>) {
        match self {
            Ok(v) => Ok(v),
            Err(e) => Err(Forbidden(e)),
        }
    }

    fn into_not_found(self) -> (r: Result<T, NotFound<E>>) {
        match self {
            Ok(v) => Ok(v),
            Err(e) => Err(NotFound(e)),
        }
    }

    fn into_conflict(self) -> (r: Result<T, Conflict<E>>) {
        match self {
            Ok(v) => Ok(v),
            Err(e) => Err(Conflict(e)),
        }
    }

    fn into_unprocessable_entity(self) -> (r: Result<T, UnprocessableEntity<E>>) {
        match self {
            Ok(v) => Ok(v),
            Err(e) => Err(UnprocessableEntity(e)),
        }
    }

    fn into_too_many_requests(self) -> (r: Result<T, TooManyRequests<E>>) {
        match self {
            Ok(v) => Ok(v),
            Err(e) => Err(TooManyRequests(e)),
        }
    }

    fn into_internal(self) -> (r: Result<T, Internal<E>>) {
        match self {
            Ok(v) => Ok(v),
            Err(e) => Err(Internal(e)),
        }
    }

    fn into_bad_gateway(self) -> (r: Result<T, BadGateway<E>>) {
        match self {
            Ok(v) => Ok(v),
            Err(e) => Err(BadGateway(e)),
        }
    }

    fn into_service_unavailable(self) -> (r: Result<T, ServiceUnavailable<E>>) {
        match self {
            Ok(v) => Ok(v),
            Err(e) => Err(ServiceUnavailable(e)),
        }
    }

    fn into_gateway_timeout(self) -> (r: Result<T, GatewayTimeout<E>>) {
        match self {
            Ok(v) => Ok(v),
            Err(e) => Err(GatewayTimeout(e)),
        }
    }
}

/// Moves the error of a `Result<T, ErrorSet<V, E>>` into a larger set.
pub trait ApiResultExt: Sized {
    /// The `Ok` type of the [`Result`].
    type Ok;

    /// The set of status codes of the error.
    type Err: StatusSet;

    /// The value of the error.
    type Value;

    /// The result this method acts on.
    spec fn spec_result(&self) -> Result<Self::Ok, ErrorSet<Self::Value, Self::Err>>;

    /// Moves the error into the set `U`, which contains every code of the error's set; the
    /// error's value and code stay.
    fn into_superset<U: StatusSet>(self) -> (r: Result<Self::Ok, ErrorSet<Self::Value, U>>)
        requires
            is_superset::<U, Self::Err>(),
        ensures
            match self.spec_result() {
                Ok(v) => r == Ok::<Self::Ok, ErrorSet<Self::Value, U>>(v),
                Err(e) => r matches Err(w) && w.spec_value() == e.spec_value()
                    && w.code() == e.code() && (e.code_in_set() ==> w.code_in_set()),
            },
    ;
}

impl<T, E: StatusSet, V> ApiResultExt for Result<T, ErrorSet<V, E>> {
    type Ok = T;
    type Err = E;
    type Value = V;

    open spec fn spec_result(&self) -> Result<T, ErrorSet<V, E>> {
        *self
    }

    fn into_superset<U: StatusSet>(self) -> (r: Result<T, ErrorSet<V, U>>) {
        match self {
            Ok(v) => Ok(v),
            Err(e) => Err(e.into_superset()),
        }
    }
}

} // verus!
