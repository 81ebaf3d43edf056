//! An error value together with a status code from a set of possible codes.

use vstd::prelude::*;
use std::marker::PhantomData;
use vstd::std_specs::cmp::PartialEqSpec;
use crate::status::lemma_status_view_injective;
use crate::{HttpResponse, Status, StatusProvider, StatusSet, set_contains, is_superset};

verus! {

/// An error defined by a set of possible status codes.
///
/// `T` is the value of the error. `E` is the set of status codes the error can have, such as
/// `(NotFound, Internal)`: a 404 or a 500.
#[derive(Debug, Hash)]
pub struct ErrorSet<T, E> {
    value: T,
    code: Status,
    _e: PhantomData<E>,
}

/// A value that knows how to become a response with a given status code.
pub trait ErrorSetValue: Sized {
    /// The response for this value, sent with `status`.
    fn into_response_with(self, status: Status) -> HttpResponse;
}

impl<T, E> ErrorSet<T, E> {
    /// The value of the error.
    pub closed spec fn spec_value(&self) -> T {
        self.value
    }

    /// The status code of the error.
    pub closed spec fn code(&self) -> u16 {
        self.code@
    }
}

/// An `ErrorSet` is its parts: two with the same value and code are the same, so building one
/// from the parts that [`ErrorSet::into_parts`] gives back yields the error that was split.
pub proof fn lemma_error_set_parts<T, E>(a: ErrorSet<T, E>, b: ErrorSet<T, E>)
    requires
        a.spec_value() == b.spec_value(),
        a.code() == b.code(),
    ensures
        a == b,
{
    lemma_status_view_injective(a.code, b.code);
}

impl<T, E: StatusSet> ErrorSet<T, E> {
    /// The code is one of the codes of the set `E`.
    pub open spec fn code_in_set(&self) -> bool {
        set_contains::<E>(self.code())
    }

    /// Creates an error with the value `value` and the status code of the wrapper type `R`,
    /// which is in the set `E`.
    ///
    /// Membership is by status code: a wrapper with the set's code but another body type
    /// (a `NotFound<A>` for a set that lists `NotFound<B>`) is accepted too.
    pub fn new_with<R: StatusProvider>(value: T) -> (r: Self)
        requires
            set_contains::<E>(R::spec_status()),
        ensures
            r.spec_value() == value,
            r.code() == R::spec_status(),
            r.code_in_set(),
    {
        Self::new_unchecked(value, R::status_code())
    }

    /// Creates an error from a status code wrapper whose code is in the set `E`; the
    /// wrapper's body becomes the value through [`Into::into`].
    ///
    /// Membership is by status code: a wrapper with the set's code but another body type
    /// (a `NotFound<A>` for a set that lists `NotFound<B>`) is accepted too.
    pub fn new<R: StatusProvider>(value: R) -> (r: Self)
        where
            R::Inner: Into<T>,
        requires
            set_contains::<E>(R::spec_status()),
        ensures
            call_ensures(R::Inner::into, (value.spec_inner(),), r.spec_value()),
            r.code() == R::spec_status(),
            r.code_in_set(),
    {
        Self::new_with::<R>(value.into_inner().into())
    }

    /// Creates an error with the given value and status code, without asking that the code
    /// be in the set `E`.
    pub fn new_unchecked(value: T, code: Status) -> (r: Self)
        ensures
            r.spec_value() == value,
            r.code() == code@,
    {
        ErrorSet { value, code, _e: PhantomData }
    }

    /// Splits the error into its value and its status code.
    pub fn into_parts(self) -> (r: (T, Status))
        ensures
            r.0 == self.spec_value(),
            r.1@ == self.code(),
    {
        (self.value, self.code)
    }

    /// Moves the error into a larger set `E2`, which contains every code of `E`.
    pub fn into_superset<E2: StatusSet>(self) -> (r: ErrorSet<T, E2>)
        requires
            is_superset::<E2, E>(),
        ensures
            r.spec_value() == self.spec_value(),
            r.code() == self.code(),
            self.code_in_set() ==> r.code_in_set(),
    {
        ErrorSet::new_unchecked(self.value, self.code)
    }

    /// Applies `f` to the value, keeping the status code.
    pub fn map_value<F, U>(self, f: F) -> (r: ErrorSet<U, E>)
        where
            F: FnOnce(T) -> U,
        requires
            f.requires((self.spec_value(),)),
        ensures
            f.ensures((self.spec_value(),), r.spec_value()),
            r.code() == self.code(),
    {
        ErrorSet::new_unchecked(f(self.value), self.code)
    }

    /// The value of the error.
    pub fn value(&self) -> (r: &T)
        ensures
            *r == self.spec_value(),
    {
        &self.value
    }

    /// The value of the error, to change in place; the status code stays.
    pub fn value_mut(&mut self) -> (r: &mut T)
        ensures
            *r == old(self).spec_value(),
            final(self).spec_value() == *final(r),
            final(self).code() == old(self).code(),
    {
        &mut self.value
    }

    /// The status code of the error.
    pub fn status_code(&self) -> (r: Status)
        ensures
            r@ == self.code(),
    {
        self.code
    }

    /// The response for this error: its value's response, sent with its status code.
    pub fn into_response(self) -> (r: HttpResponse)
        where
            T: ErrorSetValue,
        ensures
            exists|s: Status|
                s@ == self.code() && call_ensures(T::into_response_with, (self.spec_value(), s), r),
    {
        let code = self.code;
        let r = self.value.into_response_with(code);
        assert(code@ == self.code() && call_ensures(T::into_response_with, (self.spec_value(), code), r));
        r
    }
}

impl<T: Clone, E> Clone for ErrorSet<T, E> {
    fn clone(&self) -> (r: Self)
        ensures
            r.code() == self.code(),
            cloned(self.spec_value(), r.spec_value()),
    {
        ErrorSet { value: self.value.clone(), code: self.code, _e: PhantomData }
    }
}

impl<T: PartialEq, E> PartialEq for ErrorSet<T, E> {
    /// Equal when the values are equal, by `T`'s own `==`, and the codes are equal.
    fn eq(&self, other: &Self) -> (r: bool)
        ensures
            exists|same_value: bool|
                call_ensures(<T as PartialEq>::eq, (&self.spec_value(), &other.spec_value()), same_value)
                && r == (same_value && self.code() == other.code()),
    {
        let same_value = self.value == other.value;
        let same_code = self.code == other.code;
        proof { lemma_status_view_injective(self.code, other.code); }
        assert(call_ensures(<T as PartialEq>::eq, (&self.spec_value(), &other.spec_value()), same_value));
        same_value && same_code
    }
}

impl<T: PartialEq, E> vstd::std_specs::cmp::PartialEqSpecImpl for ErrorSet<T, E> {
    open spec fn obeys_eq_spec() -> bool {
        T::obeys_eq_spec()
    }

    open spec fn eq_spec(&self, other: &Self) -> bool {
        self.spec_value().eq_spec(&other.spec_value()) && self.code() == other.code()
    }
}

impl<T: Eq, E> Eq for ErrorSet<T, E> {}

} // verus!
