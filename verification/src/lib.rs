//! Typed, composable HTTP error sets.
//!
//! Each function lists the HTTP status codes it can return as a tuple of status code
//! wrappers, such as `ApiResult<T, (Unauthorized<HttpResponse>, NotFound<HttpResponse>)>`.
//! Every wrapper in [`codes`] pairs a body with a fixed status code ([`StatusProvider`]).
//! A tuple of wrappers is a set of codes ([`StatusSet`]); the order of the tuple does not
//! matter. An [`ApiResponse<S>`] is an error response whose code is one of the codes in `S`:
//! building one from a wrapper demands, as a precondition, that its code is in `S`, and a
//! response only moves into a set that contains every code of `S`.

pub mod external;
pub mod status;
pub mod set;
pub mod codes;
pub mod api_error;
pub mod result_ext;
pub mod handlers;

pub use external::{HttpResponse, response_rest, response_status, response_text};
pub use set::{StatusSet, set_contains, is_superset};
pub use status::Status;
pub use api_error::{ErrorSet, ErrorSetValue};
pub use result_ext::StatusResultExt;

use vstd::prelude::*;
use std::marker::PhantomData;
use crate::status::lemma_status_view_injective;
use crate::external::{http_status, response_with_status};

verus! {

/// Short for `Result<T, ApiResponse<S>>`.
pub type ApiResult<T, S> = Result<T, ApiResponse<S>>;

/// An error response whose status code is one of the codes in the set `S`.
#[derive(Debug)]
pub struct ApiResponse<S> {
    response: HttpResponse,
    code: Status,
    _marker: PhantomData<S>,
}

impl<S> ApiResponse<S> {
    /// The status code this response is sent with.
    pub closed spec fn code(&self) -> u16 {
        self.code@
    }

    /// The body's response.
    pub closed spec fn response(&self) -> HttpResponse {
        self.response
    }

    /// Creates an `ApiResponse` from any response and status code, without asking that the
    /// code be in the set `S`.
    pub fn new_unchecked(response: HttpResponse, code: Status) -> (r: Self)
        ensures
            r.code() == code@,
            r.response() == response,
    {
        ApiResponse { response, code, _marker: PhantomData }
    }

    /// Splits the `ApiResponse` into the body's response and the status code.
    pub fn into_parts(self) -> (r: (HttpResponse, Status))
        ensures
            r.0 == self.response(),
            r.1@ == self.code(),
    {
        (self.response, self.code)
    }

    /// The response to send: the body's response with its status replaced by this
    /// response's code, whatever status the body's response had. The code is in range, so
    /// it always converts into an `http` status code.
    pub fn into_response(self) -> (r: HttpResponse)
        ensures
            response_status(r) == self.code(),
            response_rest(r) == response_rest(self.response()),
            response_text(r) == response_text(self.response()),
    {
        let code = http_status(self.code.as_u16()).unwrap();
        response_with_status(code, self.response)
    }
}

/// An `ApiResponse` is its parts: two with the same response and code are the same, so
/// building one from the parts that [`ApiResponse::into_parts`] gives back yields the
/// response that was split.
pub proof fn lemma_api_response_parts<S>(a: ApiResponse<S>, b: ApiResponse<S>)
    requires
        a.code() == b.code(),
        a.response() == b.response(),
    ensures
        a == b,
{
    lemma_status_view_injective(a.code, b.code);
}

impl<S: StatusSet> ApiResponse<S> {
    /// The code is one of the codes of the set `S`.
    pub open spec fn code_in_set(&self) -> bool {
        set_contains::<S>(self.code())
    }

    /// Creates an `ApiResponse` from a status code wrapper whose code is in the set `S`.
    ///
    /// Membership is by status code: a wrapper with the set's code but another body type
    /// (a `NotFound<A>` for a set that lists `NotFound<B>`) is accepted too.
    pub fn new<T: StatusProvider<Inner = HttpResponse>>(wrapper: T) -> (r: Self)
        requires
            set_contains::<S>(T::spec_status()),
        ensures
            r.code() == T::spec_status(),
            r.response() == wrapper.spec_inner(),
            r.code_in_set(),
    {
        let code = T::status_code();
        Self::new_unchecked(wrapper.into_inner(), code)
    }

    /// Moves into a larger set `U`, which contains every code of `S`.
    pub fn into_superset<U: StatusSet>(self) -> (r: ApiResponse<U>)
        requires
            is_superset::<U, S>(),
        ensures
            r.code() == self.code(),
            r.response() == self.response(),
            self.code_in_set() ==> r.code_in_set(),
    {
        ApiResponse { response: self.response, code: self.code, _marker: PhantomData }
    }
}

/// A wrapper type that pairs a body with a fixed HTTP status code.
pub trait StatusProvider: Sized {
    /// The type of the wrapped body.
    type Inner;

    /// The status code of this wrapper.
    spec fn spec_status() -> u16;

    /// The wrapped body.
    spec fn spec_inner(&self) -> Self::Inner;

    /// The status code of this wrapper.
    fn status_code() -> (r: Status)
        ensures
            r@ == Self::spec_status(),
    ;

    /// Wraps a body.
    fn from_inner(inner: Self::Inner) -> (r: Self)
        ensures
            r.spec_inner() == inner,
    ;

    /// Returns the wrapped body.
    fn into_inner(self) -> (r: Self::Inner)
        ensures
            r == self.spec_inner(),
    ;

    /// A wrapper is its body: two wrappers with the same body are the same.
    proof fn lemma_inner_determines(a: Self, b: Self)
        requires
            a.spec_inner() == b.spec_inner(),
        ensures
            a == b,
    ;
}

/// What every status code wrapper can do with its body and code.
pub trait StatusProviderExt: StatusProvider {
    /// Converts into an [`ApiResponse`] whose set contains this status code.
    ///
    /// Membership is by status code: a wrapper with the set's code but another body type
    /// (a `NotFound<A>` for a set that lists `NotFound<B>`) is accepted too.
    fn into_set<E: StatusSet>(self) -> (r: ApiResponse<E>)
        where
            Self: StatusProvider<Inner = HttpResponse>,
        requires
            set_contains::<E>(Self::spec_status()),
        ensures
            r.code() == Self::spec_status(),
            r.response() == self.spec_inner(),
            r.code_in_set(),
    {
        ApiResponse::new(self)
    }

    /// Applies `f` to the body, keeping the status code: `W` is this wrapper's code with
    /// the new body type `O`.
    fn map<O, W, F>(self, f: F) -> (r: W)
        where
            W: StatusProvider<Inner = O>,
            F: FnOnce(Self::Inner) -> O,
        requires
            W::spec_status() == Self::spec_status(),
            f.requires((self.spec_inner(),)),
        ensures
            f.ensures((self.spec_inner(),), r.spec_inner()),
    {
        let inner = self.into_inner();
        W::from_inner(f(inner))
    }
}

impl<C: StatusProvider> StatusProviderExt for C {}

/// The laws of [`StatusProviderExt::map`] for functions that give one result per body, where
/// `map`'s `ensures` pins each result's body: mapping with the identity gives back the same
/// wrapper, and mapping with `f` and then with `g` gives the wrapper that mapping once with
/// `g` after `f` gives.
pub proof fn lemma_map_laws<C: StatusProvider, A: StatusProvider, B: StatusProvider>(
    c: C,
    mapped_by_identity: C,
    mapped_by_f: A,
    mapped_by_f_then_g: B,
    mapped_by_composition: B,
    f: spec_fn(C::Inner) -> A::Inner,
    g: spec_fn(A::Inner) -> B::Inner,
)
    requires
        mapped_by_identity.spec_inner() == c.spec_inner(),
        mapped_by_f.spec_inner() == f(c.spec_inner()),
        mapped_by_f_then_g.spec_inner() == g(mapped_by_f.spec_inner()),
        mapped_by_composition.spec_inner() == g(f(c.spec_inner())),
    ensures
        mapped_by_identity == c,
        mapped_by_f_then_g == mapped_by_composition,
{
    C::lemma_inner_determines(mapped_by_identity, c);
    B::lemma_inner_determines(mapped_by_f_then_g, mapped_by_composition);
}

/// Methods on any `Result` for giving its error an HTTP status code, and for changing the
/// status code or body of an error that already has one. Each method changes only the `Err`
/// value: an `Ok` value passes through unchanged.
pub trait ResultStatusExt<T, E>: Sized {
    /// The result these methods act on.
    spec fn spec_result(&self) -> Result<T, E>;

    /// Wraps the error in the status code `S`; the error becomes the body.
    fn with_status<S>(self) -> (r: Result<T, S>)
        where
            S: StatusProvider<Inner = E>,
        ensures
            match self.spec_result() {
                Ok(v) => r == Ok::<T, S>(v),
                Err(e) => r matches Err(w) && w.spec_inner() == e,
            },
    ;

    /// Like [`with_status`](ResultStatusExt::with_status), but first converts the error into
    /// `E2` with [`Into::into`].
    fn into_status<S, E2>(self) -> (r: Result<T, S>)
        where
            S: StatusProvider<Inner = E2>,
            E: Into<E2>,
        ensures
            match self.spec_result() {
                Ok(v) => r == Ok::<T, S>(v),
                Err(e) => r matches Err(w) && call_ensures(E::into, (e,), w.spec_inner()),
            },
    ;

    /// Replaces the error's status code with that of `S`, keeping the body.
    fn change_status<S>(self) -> (r: Result<T, S>)
        where
            E: StatusProvider,
            S: StatusProvider<Inner = E::Inner>,
        ensures
            match self.spec_result() {
                Ok(v) => r == Ok::<T, S>(v),
                Err(e) => r matches Err(w) && w.spec_inner() == e.spec_inner(),
            },
    ;

    /// Applies `f` to the error's body, keeping the status code: `W` is the error's code
    /// with the body type `O`.
    fn map_status<F, O, W>(self, f: F) -> (r: Result<T, W>)
        where
            E: StatusProvider,
            W: StatusProvider<Inner = O>,
            F: FnOnce(E::Inner) -> O,
        requires
            W::spec_status() == E::spec_status(),
            self.spec_result() matches Err(e) ==> f.requires((e.spec_inner(),)),
        ensures
            match self.spec_result() {
                Ok(v) => r == Ok::<T, W>(v),
                Err(e) => r matches Err(w) && f.ensures((e.spec_inner(),), w.spec_inner()),
            },
    ;

    /// Converts the error's body with [`Into::into`], keeping the status code: `W` is the
    /// error's code with the body type `O`.
    fn map_status_into<O, W>(self) -> (r: Result<T, W>)
        where
            E: StatusProvider,
            E::Inner: Into<O>,
            W: StatusProvider<Inner = O>,
        requires
            W::spec_status() == E::spec_status(),
        ensures
            match self.spec_result() {
                Ok(v) => r == Ok::<T, W>(v),
                Err(e) => r matches Err(w) && call_ensures(E::Inner::into, (e.spec_inner(),), w.spec_inner()),
            },
    ;
}

impl<T, E> ResultStatusExt<T, E> for Result<T, E> {
    open spec fn spec_result(&self) -> Result<T, E> {
        *self
    }

    fn with_status<S>(self) -> (r: Result<T, S>)
        where
            S: StatusProvider<Inner = E>,
    {
        match self {
            Ok(val) => Ok(val),
            Err(e) => Err(S::from_inner(e)),
        }
    }

    fn into_status<S, E2>(self) -> (r: Result<T, S>)
        where
            S: StatusProvider<Inner = E2>,
            E: Into<E2>,
    {
        match self {
            Ok(val) => Ok(val),
            Err(e) => Err(S::from_inner(e.into())),
        }
    }

    fn change_status<S>(self) -> (r: Result<T, S>)
        where
            E: StatusProvider,
            S: StatusProvider<Inner = E::Inner>,
    {
        match self {
            Ok(val) => Ok(val),
            Err(e) => Err(S::from_inner(e.into_inner())),
        }
    }

    fn map_status<F, O, W>(self, f: F) -> (r: Result<T, W>)
        where
            E: StatusProvider,
            W: StatusProvider<Inner = O>,
            F: FnOnce(E::Inner) -> O,
    {
        match self {
            Ok(val) => Ok(val),
            Err(e) => Err(e.map(f)),
        }
    }

    fn map_status_into<O, W>(self) -> (r: Result<T, W>)
        where
            E: StatusProvider,
            E::Inner: Into<O>,
            W: StatusProvider<Inner = O>,
    {
        match self {
            Ok(val) => Ok(val),
            Err(e) => Err(W::from_inner(e.into_inner().into())),
        }
    }
}

/// `into_status` is `with_status` after converting the error. For a conversion `conv` that
/// gives one result per error, the result that `into_status`'s `ensures` allows on `r` is the
/// result that `with_status`'s `ensures` allows on `r` with its error converted by `conv`:
/// the same `Ok` value, or the same wrapper around the converted error.
pub proof fn lemma_into_status_is_with_status_after_into<T, E, E2, S: StatusProvider<Inner = E2>>(
    r: Result<T, E>,
    conv: spec_fn(E) -> E2,
    by_into_status: Result<T, S>,
    by_with_status: Result<T, S>,
)
    requires
        match r {
            Ok(v) => by_into_status == Ok::<T, S>(v),
            Err(e) => by_into_status matches Err(w) && w.spec_inner() == conv(e),
        },
        match r {
            Ok(v) => by_with_status == Ok::<T, S>(v),
            Err(e) => by_with_status matches Err(w) && w.spec_inner() == conv(e),
        },
    ensures
        by_into_status == by_with_status,
{
    if r is Err {
        S::lemma_inner_determines(by_into_status->Err_0, by_with_status->Err_0);
    }
}

/// Methods on `Result<T, ApiResponse<S>>`.
pub trait ApiResultExt<T, S: StatusSet>: Sized {
    /// The result these methods act on.
    spec fn spec_result(&self) -> Result<T, ApiResponse<S>>;

    /// Moves the error into an [`ApiResponse`] with a larger set `U`, which contains every
    /// code of `S`.
    fn into_superset<U: StatusSet>(self) -> (r: Result<T, ApiResponse<U>>)
        requires
            is_superset::<U, S>(),
        ensures
            match self.spec_result() {
                Ok(v) => r == Ok::<T, ApiResponse<U>>(v),
                Err(e) => r matches Err(w) && w.code() == e.code() && w.response() == e.response()
                    && (e.code_in_set() ==> w.code_in_set()),
            },
    ;
}

impl<T, S: StatusSet> ApiResultExt<T, S> for Result<T, ApiResponse<S>> {
    open spec fn spec_result(&self) -> Result<T, ApiResponse<S>> {
        *self
    }

    fn into_superset<U: StatusSet>(self) -> (r: Result<T, ApiResponse<U>>) {
        match self {
            Ok(val) => Ok(val),
            Err(e) => Err(e.into_superset()),
        }
    }
}

} // verus!
