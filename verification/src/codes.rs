//! The status code wrappers: one type for every 4xx and 5xx status code, with any body.
//! The body type defaults to `()`, an empty body.

use vstd::prelude::*;
use crate::{Status, StatusProvider};

verus! {

/// 400 Bad Request
#[derive(Debug, Clone, Copy, Default, Hash)]
pub struct BadRequest<T = ()>(pub T);

impl<T> StatusProvider for BadRequest<T> {
    type Inner = T;

    open spec fn spec_status() -> u16 {
        400
    }

    open spec fn spec_inner(&self) -> T {
        self.0
    }

    fn status_code() -> (r: Status) {
        Status::new(400)
    }

    fn from_inner(inner: T) -> (r: Self) {
        BadRequest(inner)
    }

    fn into_inner(self) -> (r: T) {
        self.0
    }

    proof fn lemma_inner_determines(a: Self, b: Self) {
    }
}

impl<T> From<T> for BadRequest<T> {
    /// Wraps a body.
    fn from(inner: T) -> (r: Self) {
        BadRequest(inner)
    }
}

impl<T> vstd::std_specs::convert::FromSpecImpl<T> for BadRequest<T> {
    open spec fn obeys_from_spec() -> bool {
        true
    }

    open spec fn from_spec(v: T) -> Self {
        BadRequest(v)
    }
}

impl<T> std::ops::Deref for BadRequest<T> {
    type Target = T;

    /// The body.
    fn deref(&self) -> (r: &T)
        ensures
            *r == self.0,
    {
        &self.0
    }
}

/// 401 Unauthorized
#[derive(Debug, Clone, Copy, Default, Hash)]
pub struct Unauthorized<T = ()>(pub T);

impl<T> StatusProvider for Unauthorized<T> {
    type Inner = T;

    open spec fn spec_status() -> u16 {
        401
    }

    open spec fn spec_inner(&self) -> T {
        self.0
    }

    fn status_code() -> (r: Status) {
        Status::new(401)
    }

    fn from_inner(inner: T) -> (r: Self) {
        Unauthorized(inner)
    }

    fn into_inner(self) -> (r: T) {
        self.0
    }

    proof fn lemma_inner_determines(a: Self, b: Self) {
    }
}

impl<T> From<T> for Unauthorized<T> {
    /// Wraps a body.
    fn from(inner: T) -> (r: Self) {
        Unauthorized(inner)
    }
}

impl<T> vstd::std_specs::convert::FromSpecImpl<T> for Unauthorized<T> {
    open spec fn obeys_from_spec() -> bool {
        true
    }

    open spec fn from_spec(v: T) -> Self {
        Unauthorized(v)
    }
}

impl<T> std::ops::Deref for Unauthorized<T> {
    type Target = T;

    /// The body.
    fn deref(&self) -> (r: &T)
        ensures
            *r == self.0,
    {
        &self.0
    }
}

/// 402 Payment Required
#[derive(Debug, Clone, Copy, Default, Hash)]
pub struct PaymentRequired<T = ()>(pub T);

impl<T> StatusProvider for PaymentRequired<T> {
    type Inner = T;

    open spec fn spec_status() -> u16 {
        402
    }

    open spec fn spec_inner(&self) -> T {
        self.0
    }

    fn status_code() -> (r: Status) {
        Status::new(402)
    }

    fn from_inner(inner: T) -> (r: Self) {
        PaymentRequired(inner)
    }

    fn into_inner(self) -> (r: T) {
        self.0
    }

    proof fn lemma_inner_determines(a: Self, b: Self) {
    }
}

impl<T> From<T> for PaymentRequired<T> {
    /// Wraps a body.
    fn from(inner: T) -> (r: Self) {
        PaymentRequired(inner)
    }
}

impl<T> vstd::std_specs::convert::FromSpecImpl<T> for PaymentRequired<T> {
    open spec fn obeys_from_spec() -> bool {
        true
    }

    open spec fn from_spec(v: T) -> Self {
        PaymentRequired(v)
    }
}

impl<T> std::ops::Deref for PaymentRequired<T> {
    type Target = T;

    /// The body.
    fn deref(&self) -> (r: &T)
        ensures
            *r == self.0,
    {
        &self.0
    }
}

/// 403 Forbidden
#[derive(Debug, Clone, Copy, Default, Hash)]
pub struct Forbidden<T = ()>(pub T);

impl<T> StatusProvider for Forbidden<T> {
    type Inner = T;

    open spec fn spec_status() -> u16 {
        403
    }

    open spec fn spec_inner(&self) -> T {
        self.0
    }

    fn status_code() -> (r: Status) {
        Status::new(403)
    }

    fn from_inner(inner: T) -> (r: Self) {
        Forbidden(inner)
    }

    fn into_inner(self) -> (r: T) {
        self.0
    }

    proof fn lemma_inner_determines(a: Self, b: Self) {
    }
}

impl<T> From<T> for Forbidden<T> {
    /// Wraps a body.
    fn from(inner: T) -> (r: Self) {
        Forbidden(inner)
    }
}

impl<T> vstd::std_specs::convert::FromSpecImpl<T> for Forbidden<T> {
    open spec fn obeys_from_spec() -> bool {
        true
    }

    open spec fn from_spec(v: T) -> Self {
        Forbidden(v)
    }
}

impl<T> std::ops::Deref for Forbidden<T> {
    type Target = T;

    /// The body.
    fn deref(&self) -> (r: &T)
        ensures
            *r == self.0,
    {
        &self.0
    }
}

/// 404 Not Found
#[derive(Debug, Clone, Copy, Default, Hash)]
pub struct NotFound<T = ()>(pub T);

impl<T> StatusProvider for NotFound<T> {
    type Inner = T;

    open spec fn spec_status() -> u16 {
        404
    }

    open spec fn spec_inner(&self) -> T {
        self.0
    }

    fn status_code() -> (r: Status) {
        Status::new(404)
    }

    fn from_inner(inner: T) -> (r: Self) {
        NotFound(inner)
    }

    fn into_inner(self) -> (r: T) {
        self.0
    }

    proof fn lemma_inner_determines(a: Self, b: Self) {
    }
}

impl<T> From<T> for NotFound<T> {
    /// Wraps a body.
    fn from(inner: T) -> (r: Self) {
        NotFound(inner)
    }
}

impl<T> vstd::std_specs::convert::FromSpecImpl<T> for NotFound<T> {
    open spec fn obeys_from_spec() -> bool {
        true
    }

    open spec fn from_spec(v: T) -> Self {
        NotFound(v)
    }
}

impl<T> std::ops::Deref for NotFound<T> {
    type Target = T;

    /// The body.
    fn deref(&self) -> (r: &T)
        ensures
            *r == self.0,
    {
        &self.0
    }
}

/// 405 Method Not Allowed
#[derive(Debug, Clone, Copy, Default, Hash)]
pub struct MethodNotAllowed<T = ()>(pub T);

impl<T> StatusProvider for MethodNotAllowed<T> {
    type Inner = T;

    open spec fn spec_status() -> u16 {
        405
    }

    open spec fn spec_inner(&self) -> T {
        self.0
    }

    fn status_code() -> (r: Status) {
        Status::new(405)
    }

    fn from_inner(inner: T) -> (r: Self) {
        MethodNotAllowed(inner)
    }

    fn into_inner(self) -> (r: T) {
        self.0
    }

    proof fn lemma_inner_determines(a: Self, b: Self) {
    }
}

impl<T> From<T> for MethodNotAllowed<T> {
    /// Wraps a body.
    fn from(inner: T) -> (r: Self) {
        MethodNotAllowed(inner)
    }
}

impl<T> vstd::std_specs::convert::FromSpecImpl<T> for MethodNotAllowed<T> {
    open spec fn obeys_from_spec() -> bool {
        true
    }

    open spec fn from_spec(v: T) -> Self {
        MethodNotAllowed(v)
    }
}

impl<T> std::ops::Deref for MethodNotAllowed<T> {
    type Target = T;

    /// The body.
    fn deref(&self) -> (r: &T)
        ensures
            *r == self.0,
    {
        &self.0
    }
}

/// 406 Not Acceptable
#[derive(Debug, Clone, Copy, Default, Hash)]
pub struct NotAcceptable<T = ()>(pub T);

impl<T> StatusProvider for NotAcceptable<T> {
    type Inner = T;

    open spec fn spec_status() -> u16 {
        406
    }

    open spec fn spec_inner(&self) -> T {
        self.0
    }

    fn status_code() -> (r: Status) {
        Status::new(406)
    }

    fn from_inner(inner: T) -> (r: Self) {
        NotAcceptable(inner)
    }

    fn into_inner(self) -> (r: T) {
        self.0
    }

    proof fn lemma_inner_determines(a: Self, b: Self) {
    }
}

impl<T> From<T> for NotAcceptable<T> {
    /// Wraps a body.
    fn from(inner: T) -> (r: Self) {
        NotAcceptable(inner)
    }
}

impl<T> vstd::std_specs::convert::FromSpecImpl<T> for NotAcceptable<T> {
    open spec fn obeys_from_spec() -> bool {
        true
    }

    open spec fn from_spec(v: T) -> Self {
        NotAcceptable(v)
    }
}

impl<T> std::ops::Deref for NotAcceptable<T> {
    type Target = T;

    /// The body.
    fn deref(&self) -> (r: &T)
        ensures
            *r == self.0,
    {
        &self.0
    }
}

/// 407 Proxy Authentication Required
#[derive(Debug, Clone, Copy, Default, Hash)]
pub struct ProxyAuthenticationRequired<T = ()>(pub T);

impl<T> StatusProvider for ProxyAuthenticationRequired<T> {
    type Inner = T;

    open spec fn spec_status() -> u16 {
        407
    }

    open spec fn spec_inner(&self) -> T {
        self.0
    }

    fn status_code() -> (r: Status) {
        Status::new(407)
    }

    fn from_inner(inner: T) -> (r: Self) {
        ProxyAuthenticationRequired(inner)
    }

    fn into_inner(self) -> (r: T) {
        self.0
    }

    proof fn lemma_inner_determines(a: Self, b: Self) {
    }
}

impl<T> From<T> for ProxyAuthenticationRequired<T> {
    /// Wraps a body.
    fn from(inner: T) -> (r: Self) {
        ProxyAuthenticationRequired(inner)
    }
}

impl<T> vstd::std_specs::convert::FromSpecImpl<T> for ProxyAuthenticationRequired<T> {
    open spec fn obeys_from_spec() -> bool {
        true
    }

    open spec fn from_spec(v: T) -> Self {
        ProxyAuthenticationRequired(v)
    }
}

impl<T> std::ops::Deref for ProxyAuthenticationRequired<T> {
    type Target = T;

    /// The body.
    fn deref(&self) -> (r: &T)
        ensures
            *r == self.0,
    {
        &self.0
    }
}

/// 408 Request Timeout
#[derive(Debug, Clone, Copy, Default, Hash)]
pub struct RequestTimeout<T = ()>(pub T);

impl<T> StatusProvider for RequestTimeout<T> {
    type Inner = T;

    open spec fn spec_status() -> u16 {
        408
    }

    open spec fn spec_inner(&self) -> T {
        self.0
    }

    fn status_code() -> (r: Status) {
        Status::new(408)
    }

    fn from_inner(inner: T) -> (r: Self) {
        RequestTimeout(inner)
    }

    fn into_inner(self) -> (r: T) {
        self.0
    }

    proof fn lemma_inner_determines(a: Self, b: Self) {
    }
}

impl<T> From<T> for RequestTimeout<T> {
    /// Wraps a body.
    fn from(inner: T) -> (r: Self) {
        RequestTimeout(inner)
    }
}

impl<T> vstd::std_specs::convert::FromSpecImpl<T> for RequestTimeout<T> {
    open spec fn obeys_from_spec() -> bool {
        true
    }

    open spec fn from_spec(v: T) -> Self {
        RequestTimeout(v)
    }
}

impl<T> std::ops::Deref for RequestTimeout<T> {
    type Target = T;

    /// The body.
    fn deref(&self) -> (r: &T)
        ensures
            *r == self.0,
    {
        &self.0
    }
}

/// 409 Conflict
#[derive(Debug, Clone, Copy, Default, Hash)]
pub struct Conflict<T = ()>(pub T);

impl<T> StatusProvider for Conflict<T> {
    type Inner = T;

    open spec fn spec_status() -> u16 {
        409
    }

    open spec fn spec_inner(&self) -> T {
        self.0
    }

    fn status_code() -> (r: Status) {
        Status::new(409)
    }

    fn from_inner(inner: T) -> (r: Self) {
        Conflict(inner)
    }

    fn into_inner(self) -> (r: T) {
        self.0
    }

    proof fn lemma_inner_determines(a: Self, b: Self) {
    }
}

impl<T> From<T> for Conflict<T> {
    /// Wraps a body.
    fn from(inner: T) -> (r: Self) {
        Conflict(inner)
    }
}

impl<T> vstd::std_specs::convert::FromSpecImpl<T> for Conflict<T> {
    open spec fn obeys_from_spec() -> bool {
        true
    }

    open spec fn from_spec(v: T) -> Self {
        Conflict(v)
    }
}

impl<T> std::ops::Deref for Conflict<T> {
    type Target = T;

    /// The body.
    fn deref(&self) -> (r: &T)
        ensures
            *r == self.0,
    {
        &self.0
    }
}

/// 410 Gone
#[derive(Debug, Clone, Copy, Default, Hash)]
pub struct Gone<T = ()>(pub T);

impl<T> StatusProvider for Gone<T> {
    type Inner = T;

    open spec fn spec_status() -> u16 {
        410
    }

    open spec fn spec_inner(&self) -> T {
        self.0
    }

    fn status_code() -> (r: Status) {
        Status::new(410)
    }

    fn from_inner(inner: T) -> (r: Self) {
        Gone(inner)
    }

    fn into_inner(self) -> (r: T) {
        self.0
    }

    proof fn lemma_inner_determines(a: Self, b: Self) {
    }
}

impl<T> From<T> for Gone<T> {
    /// Wraps a body.
    fn from(inner: T) -> (r: Self) {
        Gone(inner)
    }
}

impl<T> vstd::std_specs::convert::FromSpecImpl<T> for Gone<T> {
    open spec fn obeys_from_spec() -> bool {
        true
    }

    open spec fn from_spec(v: T) -> Self {
        Gone(v)
    }
}

impl<T> std::ops::Deref for Gone<T> {
    type Target = T;

    /// The body.
    fn deref(&self) -> (r: &T)
        ensures
            *r == self.0,
    {
        &self.0
    }
}

/// 411 Length Required
#[derive(Debug, Clone, Copy, Default, Hash)]
pub struct LengthRequired<T = ()>(pub T);

impl<T> StatusProvider for LengthRequired<T> {
    type Inner = T;

    open spec fn spec_status() -> u16 {
        411
    }

    open spec fn spec_inner(&self) -> T {
        self.0
    }

    fn status_code() -> (r: Status) {
        Status::new(411)
    }

    fn from_inner(inner: T) -> (r: Self) {
        LengthRequired(inner)
    }

    fn into_inner(self) -> (r: T) {
        self.0
    }

    proof fn lemma_inner_determines(a: Self, b: Self) {
    }
}

impl<T> From<T> for LengthRequired<T> {
    /// Wraps a body.
    fn from(inner: T) -> (r: Self) {
        LengthRequired(inner)
    }
}

impl<T> vstd::std_specs::convert::FromSpecImpl<T> for LengthRequired<T> {
    open spec fn obeys_from_spec() -> bool {
        true
    }

    open spec fn from_spec(v: T) -> Self {
        LengthRequired(v)
    }
}

impl<T> std::ops::Deref for LengthRequired<T> {
    type Target = T;

    /// The body.
    fn deref(&self) -> (r: &T)
        ensures
            *r == self.0,
    {
        &self.0
    }
}

/// 412 Precondition Failed
#[derive(Debug, Clone, Copy, Default, Hash)]
pub struct PreconditionFailed<T = ()>(pub T);

impl<T> StatusProvider for PreconditionFailed<T> {
    type Inner = T;

    open spec fn spec_status() -> u16 {
        412
    }

    open spec fn spec_inner(&self) -> T {
        self.0
    }

    fn status_code() -> (r: Status) {
        Status::new(412)
    }

    fn from_inner(inner: T) -> (r: Self) {
        PreconditionFailed(inner)
    }

    fn into_inner(self) -> (r: T) {
        self.0
    }

    proof fn lemma_inner_determines(a: Self, b: Self) {
    }
}

impl<T> From<T> for PreconditionFailed<T> {
    /// Wraps a body.
    fn from(inner: T) -> (r: Self) {
        PreconditionFailed(inner)
    }
}

impl<T> vstd::std_specs::convert::FromSpecImpl<T> for PreconditionFailed<T> {
    open spec fn obeys_from_spec() -> bool {
        true
    }

    open spec fn from_spec(v: T) -> Self {
        PreconditionFailed(v)
    }
}

impl<T> std::ops::Deref for PreconditionFailed<T> {
    type Target = T;

    /// The body.
    fn deref(&self) -> (r: &T)
        ensures
            *r == self.0,
    {
        &self.0
    }
}

/// 413 Payload Too Large
#[derive(Debug, Clone, Copy, Default, Hash)]
pub struct PayloadTooLarge<T = ()>(pub T);

impl<T> StatusProvider for PayloadTooLarge<T> {
    type Inner = T;

    open spec fn spec_status() -> u16 {
        413
    }

    open spec fn spec_inner(&self) -> T {
        self.0
    }

    fn status_code() -> (r: Status) {
        Status::new(413)
    }

    fn from_inner(inner: T) -> (r: Self) {
        PayloadTooLarge(inner)
    }

    fn into_inner(self) -> (r: T) {
        self.0
    }

    proof fn lemma_inner_determines(a: Self, b: Self) {
    }
}

impl<T> From<T> for PayloadTooLarge<T> {
    /// Wraps a body.
    fn from(inner: T) -> (r: Self) {
        PayloadTooLarge(inner)
    }
}

impl<T> vstd::std_specs::convert::FromSpecImpl<T> for PayloadTooLarge<T> {
    open spec fn obeys_from_spec() -> bool {
        true
    }

    open spec fn from_spec(v: T) -> Self {
        PayloadTooLarge(v)
    }
}

impl<T> std::ops::Deref for PayloadTooLarge<T> {
    type Target = T;

    /// The body.
    fn deref(&self) -> (r: &T)
        ensures
            *r == self.0,
    {
        &self.0
    }
}

/// 414 URI Too Long
#[derive(Debug, Clone, Copy, Default, Hash)]
pub struct UriTooLong<T = ()>(pub T);

impl<T> StatusProvider for UriTooLong<T> {
    type Inner = T;

    open spec fn spec_status() -> u16 {
        414
    }

    open spec fn spec_inner(&self) -> T {
        self.0
    }

    fn status_code() -> (r: Status) {
        Status::new(414)
    }

    fn from_inner(inner: T) -> (r: Self) {
        UriTooLong(inner)
    }

    fn into_inner(self) -> (r: T) {
        self.0
    }

    proof fn lemma_inner_determines(a: Self, b: Self) {
    }
}

impl<T> From<T> for UriTooLong<T> {
    /// Wraps a body.
    fn from(inner: T) -> (r: Self) {
        UriTooLong(inner)
    }
}

impl<T> vstd::std_specs::convert::FromSpecImpl<T> for UriTooLong<T> {
    open spec fn obeys_from_spec() -> bool {
        true
    }

    open spec fn from_spec(v: T) -> Self {
        UriTooLong(v)
    }
}

impl<T> std::ops::Deref for UriTooLong<T> {
    type Target = T;

    /// The body.
    fn deref(&self) -> (r: &T)
        ensures
            *r == self.0,
    {
        &self.0
    }
}

/// 415 Unsupported Media Type
#[derive(Debug, Clone, Copy, Default, Hash)]
pub struct UnsupportedMediaType<T = ()>(pub T);

impl<T> StatusProvider for UnsupportedMediaType<T> {
    type Inner = T;

    open spec fn spec_status() -> u16 {
        415
    }

    open spec fn spec_inner(&self) -> T {
        self.0
    }

    fn status_code() -> (r: Status) {
        Status::new(415)
    }

    fn from_inner(inner: T) -> (r: Self) {
        UnsupportedMediaType(inner)
    }

    fn into_inner(self) -> (r: T) {
        self.0
    }

    proof fn lemma_inner_determines(a: Self, b: Self) {
    }
}

impl<T> From<T> for UnsupportedMediaType<T> {
    /// Wraps a body.
    fn from(inner: T) -> (r: Self) {
        UnsupportedMediaType(inner)
    }
}

impl<T> vstd::std_specs::convert::FromSpecImpl<T> for UnsupportedMediaType<T> {
    open spec fn obeys_from_spec() -> bool {
        true
    }

    open spec fn from_spec(v: T) -> Self {
        UnsupportedMediaType(v)
    }
}

impl<T> std::ops::Deref for UnsupportedMediaType<T> {
    type Target = T;

    /// The body.
    fn deref(&self) -> (r: &T)
        ensures
            *r == self.0,
    {
        &self.0
    }
}

/// 416 Range Not Satisfiable
#[derive(Debug, Clone, Copy, Default, Hash)]
pub struct RangeNotSatisfiable<T = ()>(pub T);

impl<T> StatusProvider for RangeNotSatisfiable<T> {
    type Inner = T;

    open spec fn spec_status() -> u16 {
        416
    }

    open spec fn spec_inner(&self) -> T {
        self.0
    }

    fn status_code() -> (r: Status) {
        Status::new(416)
    }

    fn from_inner(inner: T) -> (r: Self) {
        RangeNotSatisfiable(inner)
    }

    fn into_inner(self) -> (r: T) {
        self.0
    }

    proof fn lemma_inner_determines(a: Self, b: Self) {
    }
}

impl<T> From<T> for RangeNotSatisfiable<T> {
    /// Wraps a body.
    fn from(inner: T) -> (r: Self) {
        RangeNotSatisfiable(inner)
    }
}

impl<T> vstd::std_specs::convert::FromSpecImpl<T> for RangeNotSatisfiable<T> {
    open spec fn obeys_from_spec() -> bool {
        true
    }

    open spec fn from_spec(v: T) -> Self {
        RangeNotSatisfiable(v)
    }
}

impl<T> std::ops::Deref for RangeNotSatisfiable<T> {
    type Target = T;

    /// The body.
    fn deref(&self) -> (r: &T)
        ensures
            *r == self.0,
    {
        &self.0
    }
}

/// 417 Expectation Failed
#[derive(Debug, Clone, Copy, Default, Hash)]
pub struct ExpectationFailed<T = ()>(pub T);

impl<T> StatusProvider for ExpectationFailed<T> {
    type Inner = T;

    open spec fn spec_status() -> u16 {
        417
    }

    open spec fn spec_inner(&self) -> T {
        self.0
    }

    fn status_code() -> (r: Status) {
        Status::new(417)
    }

    fn from_inner(inner: T) -> (r: Self) {
        ExpectationFailed(inner)
    }

    fn into_inner(self) -> (r: T) {
        self.0
    }

    proof fn lemma_inner_determines(a: Self, b: Self) {
    }
}

impl<T> From<T> for ExpectationFailed<T> {
    /// Wraps a body.
    fn from(inner: T) -> (r: Self) {
        ExpectationFailed(inner)
    }
}

impl<T> vstd::std_specs::convert::FromSpecImpl<T> for ExpectationFailed<T> {
    open spec fn obeys_from_spec() -> bool {
        true
    }

    open spec fn from_spec(v: T) -> Self {
        ExpectationFailed(v)
    }
}

impl<T> std::ops::Deref for ExpectationFailed<T> {
    type Target = T;

    /// The body.
    fn deref(&self) -> (r: &T)
        ensures
            *r == self.0,
    {
        &self.0
    }
}

/// 418 I'm a teapot
#[derive(Debug, Clone, Copy, Default, Hash)]
pub struct ImATeapot<T = ()>(pub T);

impl<T> StatusProvider for ImATeapot<T> {
    type Inner = T;

    open spec fn spec_status() -> u16 {
        418
    }

    open spec fn spec_inner(&self) -> T {
        self.0
    }

    fn status_code() -> (r: Status) {
        Status::new(418)
    }

    fn from_inner(inner: T) -> (r: Self) {
        ImATeapot(inner)
    }

    fn into_inner(self) -> (r: T) {
        self.0
    }

    proof fn lemma_inner_determines(a: Self, b: Self) {
    }
}

impl<T> From<T> for ImATeapot<T> {
    /// Wraps a body.
    fn from(inner: T) -> (r: Self) {
        ImATeapot(inner)
    }
}

impl<T> vstd::std_specs::convert::FromSpecImpl<T> for ImATeapot<T> {
    open spec fn obeys_from_spec() -> bool {
        true
    }

    open spec fn from_spec(v: T) -> Self {
        ImATeapot(v)
    }
}

impl<T> std::ops::Deref for ImATeapot<T> {
    type Target = T;

    /// The body.
    fn deref(&self) -> (r: &T)
        ensures
            *r == self.0,
    {
        &self.0
    }
}

/// 421 Misdirected Request
#[derive(Debug, Clone, Copy, Default, Hash)]
pub struct MisdirectedRequest<T = ()>(pub T);

impl<T> StatusProvider for MisdirectedRequest<T> {
    type Inner = T;

    open spec fn spec_status() -> u16 {
        421
    }

    open spec fn spec_inner(&self) -> T {
        self.0
    }

    fn status_code() -> (r: Status) {
        Status::new(421)
    }

    fn from_inner(inner: T) -> (r: Self) {
        MisdirectedRequest(inner)
    }

    fn into_inner(self) -> (r: T) {
        self.0
    }

    proof fn lemma_inner_determines(a: Self, b: Self) {
    }
}

impl<T> From<T> for MisdirectedRequest<T> {
    /// Wraps a body.
    fn from(inner: T) -> (r: Self) {
        MisdirectedRequest(inner)
    }
}

impl<T> vstd::std_specs::convert::FromSpecImpl<T> for MisdirectedRequest<T> {
    open spec fn obeys_from_spec() -> bool {
        true
    }

    open spec fn from_spec(v: T) -> Self {
        MisdirectedRequest(v)
    }
}

impl<T> std::ops::Deref for MisdirectedRequest<T> {
    type Target = T;

    /// The body.
    fn deref(&self) -> (r: &T)
        ensures
            *r == self.0,
    {
        &self.0
    }
}

/// 422 Unprocessable Entity
#[derive(Debug, Clone, Copy, Default, Hash)]
pub struct UnprocessableEntity<T = ()>(pub T);

impl<T> StatusProvider for UnprocessableEntity<T> {
    type Inner = T;

    open spec fn spec_status() -> u16 {
        422
    }

    open spec fn spec_inner(&self) -> T {
        self.0
    }

    fn status_code() -> (r: Status) {
        Status::new(422)
    }

    fn from_inner(inner: T) -> (r: Self) {
        UnprocessableEntity(inner)
    }

    fn into_inner(self) -> (r: T) {
        self.0
    }

    proof fn lemma_inner_determines(a: Self, b: Self) {
    }
}

impl<T> From<T> for UnprocessableEntity<T> {
    /// Wraps a body.
    fn from(inner: T) -> (r: Self) {
        UnprocessableEntity(inner)
    }
}

impl<T> vstd::std_specs::convert::FromSpecImpl<T> for UnprocessableEntity<T> {
    open spec fn obeys_from_spec() -> bool {
        true
    }

    open spec fn from_spec(v: T) -> Self {
        UnprocessableEntity(v)
    }
}

impl<T> std::ops::Deref for UnprocessableEntity<T> {
    type Target = T;

    /// The body.
    fn deref(&self) -> (r: &T)
        ensures
            *r == self.0,
    {
        &self.0
    }
}

/// 423 Locked
#[derive(Debug, Clone, Copy, Default, Hash)]
pub struct Locked<T = ()>(pub T);

impl<T> StatusProvider for Locked<T> {
    type Inner = T;

    open spec fn spec_status() -> u16 {
        423
    }

    open spec fn spec_inner(&self) -> T {
        self.0
    }

    fn status_code() -> (r: Status) {
        Status::new(423)
    }

    fn from_inner(inner: T) -> (r: Self) {
        Locked(inner)
    }

    fn into_inner(self) -> (r: T) {
        self.0
    }

    proof fn lemma_inner_determines(a: Self, b: Self) {
    }
}

impl<T> From<T> for Locked<T> {
    /// Wraps a body.
    fn from(inner: T) -> (r: Self) {
        Locked(inner)
    }
}

impl<T> vstd::std_specs::convert::FromSpecImpl<T> for Locked<T> {
    open spec fn obeys_from_spec() -> bool {
        true
    }

    open spec fn from_spec(v: T) -> Self {
        Locked(v)
    }
}

impl<T> std::ops::Deref for Locked<T> {
    type Target = T;

    /// The body.
    fn deref(&self) -> (r: &T)
        ensures
            *r == self.0,
    {
        &self.0
    }
}

/// 424 Failed Dependency
#[derive(Debug, Clone, Copy, Default, Hash)]
pub struct FailedDependency<T = ()>(pub T);

impl<T> StatusProvider for FailedDependency<T> {
    type Inner = T;

    open spec fn spec_status() -> u16 {
        424
    }

    open spec fn spec_inner(&self) -> T {
        self.0
    }

    fn status_code() -> (r: Status) {
        Status::new(424)
    }

    fn from_inner(inner: T) -> (r: Self) {
        FailedDependency(inner)
    }

    fn into_inner(self) -> (r: T) {
        self.0
    }

    proof fn lemma_inner_determines(a: Self, b: Self) {
    }
}

impl<T> From<T> for FailedDependency<T> {
    /// Wraps a body.
    fn from(inner: T) -> (r: Self) {
        FailedDependency(inner)
    }
}

impl<T> vstd::std_specs::convert::FromSpecImpl<T> for FailedDependency<T> {
    open spec fn obeys_from_spec() -> bool {
        true
    }

    open spec fn from_spec(v: T) -> Self {
        FailedDependency(v)
    }
}

impl<T> std::ops::Deref for FailedDependency<T> {
    type Target = T;

    /// The body.
    fn deref(&self) -> (r: &T)
        ensures
            *r == self.0,
    {
        &self.0
    }
}

/// 425 Too Early
#[derive(Debug, Clone, Copy, Default, Hash)]
pub struct TooEarly<T = ()>(pub T);

impl<T> StatusProvider for TooEarly<T> {
    type Inner = T;

    open spec fn spec_status() -> u16 {
        425
    }

    open spec fn spec_inner(&self) -> T {
        self.0
    }

    fn status_code() -> (r: Status) {
        Status::new(425)
    }

    fn from_inner(inner: T) -> (r: Self) {
        TooEarly(inner)
    }

    fn into_inner(self) -> (r: T) {
        self.0
    }

    proof fn lemma_inner_determines(a: Self, b: Self) {
    }
}

impl<T> From<T> for TooEarly<T> {
    /// Wraps a body.
    fn from(inner: T) -> (r: Self) {
        TooEarly(inner)
    }
}

impl<T> vstd::std_specs::convert::FromSpecImpl<T> for TooEarly<T> {
    open spec fn obeys_from_spec() -> bool {
        true
    }

    open spec fn from_spec(v: T) -> Self {
        TooEarly(v)
    }
}

impl<T> std::ops::Deref for TooEarly<T> {
    type Target = T;

    /// The body.
    fn deref(&self) -> (r: &T)
        ensures
            *r == self.0,
    {
        &self.0
    }
}

/// 426 Upgrade Required
#[derive(Debug, Clone, Copy, Default, Hash)]
pub struct UpgradeRequired<T = ()>(pub T);

impl<T> StatusProvider for UpgradeRequired<T> {
    type Inner = T;

    open spec fn spec_status() -> u16 {
        426
    }

    open spec fn spec_inner(&self) -> T {
        self.0
    }

    fn status_code() -> (r: Status) {
        Status::new(426)
    }

    fn from_inner(inner: T) -> (r: Self) {
        UpgradeRequired(inner)
    }

    fn into_inner(self) -> (r: T) {
        self.0
    }

    proof fn lemma_inner_determines(a: Self, b: Self) {
    }
}

impl<T> From<T> for UpgradeRequired<T> {
    /// Wraps a body.
    fn from(inner: T) -> (r: Self) {
        UpgradeRequired(inner)
    }
}

impl<T> vstd::std_specs::convert::FromSpecImpl<T> for UpgradeRequired<T> {
    open spec fn obeys_from_spec() -> bool {
        true
    }

    open spec fn from_spec(v: T) -> Self {
        UpgradeRequired(v)
    }
}

impl<T> std::ops::Deref for UpgradeRequired<T> {
    type Target = T;

    /// The body.
    fn deref(&self) -> (r: &T)
        ensures
            *r == self.0,
    {
        &self.0
    }
}

/// 428 Precondition Required
#[derive(Debug, Clone, Copy, Default, Hash)]
pub struct PreconditionRequired<T = ()>(pub T);

impl<T> StatusProvider for PreconditionRequired<T> {
    type Inner = T;

    open spec fn spec_status() -> u16 {
        428
    }

    open spec fn spec_inner(&self) -> T {
        self.0
    }

    fn status_code() -> (r: Status) {
        Status::new(428)
    }

    fn from_inner(inner: T) -> (r: Self) {
        PreconditionRequired(inner)
    }

    fn into_inner(self) -> (r: T) {
        self.0
    }

    proof fn lemma_inner_determines(a: Self, b: Self) {
    }
}

impl<T> From<T> for PreconditionRequired<T> {
    /// Wraps a body.
    fn from(inner: T) -> (r: Self) {
        PreconditionRequired(inner)
    }
}

impl<T> vstd::std_specs::convert::FromSpecImpl<T> for PreconditionRequired<T> {
    open spec fn obeys_from_spec() -> bool {
        true
    }

    open spec fn from_spec(v: T) -> Self {
        PreconditionRequired(v)
    }
}

impl<T> std::ops::Deref for PreconditionRequired<T> {
    type Target = T;

    /// The body.
    fn deref(&self) -> (r: &T)
        ensures
            *r == self.0,
    {
        &self.0
    }
}

/// 429 Too Many Requests
#[derive(Debug, Clone, Copy, Default, Hash)]
pub struct TooManyRequests<T = ()>(pub T);

impl<T> StatusProvider for TooManyRequests<T> {
    type Inner = T;

    open spec fn spec_status() -> u16 {
        429
    }

    open spec fn spec_inner(&self) -> T {
        self.0
    }

    fn status_code() -> (r: Status) {
        Status::new(429)
    }

    fn from_inner(inner: T) -> (r: Self) {
        TooManyRequests(inner)
    }

    fn into_inner(self) -> (r: T) {
        self.0
    }

    proof fn lemma_inner_determines(a: Self, b: Self) {
    }
}

impl<T> From<T> for TooManyRequests<T> {
    /// Wraps a body.
    fn from(inner: T) -> (r: Self) {
        TooManyRequests(inner)
    }
}

impl<T> vstd::std_specs::convert::FromSpecImpl<T> for TooManyRequests<T> {
    open spec fn obeys_from_spec() -> bool {
        true
    }

    open spec fn from_spec(v: T) -> Self {
        TooManyRequests(v)
    }
}

impl<T> std::ops::Deref for TooManyRequests<T> {
    type Target = T;

    /// The body.
    fn deref(&self) -> (r: &T)
        ensures
            *r == self.0,
    {
        &self.0
    }
}

/// 431 Request Header Fields Too Large
#[derive(Debug, Clone, Copy, Default, Hash)]
pub struct RequestHeaderFieldsTooLarge<T = ()>(pub T);

impl<T> StatusProvider for RequestHeaderFieldsTooLarge<T> {
    type Inner = T;

    open spec fn spec_status() -> u16 {
        431
    }

    open spec fn spec_inner(&self) -> T {
        self.0
    }

    fn status_code() -> (r: Status) {
        Status::new(431)
    }

    fn from_inner(inner: T) -> (r: Self) {
        RequestHeaderFieldsTooLarge(inner)
    }

    fn into_inner(self) -> (r: T) {
        self.0
    }

    proof fn lemma_inner_determines(a: Self, b: Self) {
    }
}

impl<T> From<T> for RequestHeaderFieldsTooLarge<T> {
    /// Wraps a body.
    fn from(inner: T) -> (r: Self) {
        RequestHeaderFieldsTooLarge(inner)
    }
}

impl<T> vstd::std_specs::convert::FromSpecImpl<T> for RequestHeaderFieldsTooLarge<T> {
    open spec fn obeys_from_spec() -> bool {
        true
    }

    open spec fn from_spec(v: T) -> Self {
        RequestHeaderFieldsTooLarge(v)
    }
}

impl<T> std::ops::Deref for RequestHeaderFieldsTooLarge<T> {
    type Target = T;

    /// The body.
    fn deref(&self) -> (r: &T)
        ensures
            *r == self.0,
    {
        &self.0
    }
}

/// 451 Unavailable For Legal Reasons
#[derive(Debug, Clone, Copy, Default, Hash)]
pub struct UnavailableForLegalReasons<T = ()>(pub T);

impl<T> StatusProvider for UnavailableForLegalReasons<T> {
    type Inner = T;

    open spec fn spec_status() -> u16 {
        451
    }

    open spec fn spec_inner(&self) -> T {
        self.0
    }

    fn status_code() -> (r: Status) {
        Status::new(451)
    }

    fn from_inner(inner: T) -> (r: Self) {
        UnavailableForLegalReasons(inner)
    }

    fn into_inner(self) -> (r: T) {
        self.0
    }

    proof fn lemma_inner_determines(a: Self, b: Self) {
    }
}

impl<T> From<T> for UnavailableForLegalReasons<T> {
    /// Wraps a body.
    fn from(inner: T) -> (r: Self) {
        UnavailableForLegalReasons(inner)
    }
}

impl<T> vstd::std_specs::convert::FromSpecImpl<T> for UnavailableForLegalReasons<T> {
    open spec fn obeys_from_spec() -> bool {
        true
    }

    open spec fn from_spec(v: T) -> Self {
        UnavailableForLegalReasons(v)
    }
}

impl<T> std::ops::Deref for UnavailableForLegalReasons<T> {
    type Target = T;

    /// The body.
    fn deref(&self) -> (r: &T)
        ensures
            *r == self.0,
    {
        &self.0
    }
}

/// 500 Internal Server Error
#[derive(Debug, Clone, Copy, Default, Hash)]
pub struct Internal<T = ()>(pub T);

impl<T> StatusProvider for Internal<T> {
    type Inner = T;

    open spec fn spec_status() -> u16 {
        500
    }

    open spec fn spec_inner(&self) -> T {
        self.0
    }

    fn status_code() -> (r: Status) {
        Status::new(500)
    }

    fn from_inner(inner: T) -> (r: Self) {
        Internal(inner)
    }

    fn into_inner(self) -> (r: T) {
        self.0
    }

    proof fn lemma_inner_determines(a: Self, b: Self) {
    }
}

impl<T> From<T> for Internal<T> {
    /// Wraps a body.
    fn from(inner: T) -> (r: Self) {
        Internal(inner)
    }
}

impl<T> vstd::std_specs::convert::FromSpecImpl<T> for Internal<T> {
    open spec fn obeys_from_spec() -> bool {
        true
    }

    open spec fn from_spec(v: T) -> Self {
        Internal(v)
    }
}

impl<T> std::ops::Deref for Internal<T> {
    type Target = T;

    /// The body.
    fn deref(&self) -> (r: &T)
        ensures
            *r == self.0,
    {
        &self.0
    }
}

/// 501 Not Implemented
#[derive(Debug, Clone, Copy, Default, Hash)]
pub struct NotImplemented<T = ()>(pub T);

impl<T> StatusProvider for NotImplemented<T> {
    type Inner = T;

    open spec fn spec_status() -> u16 {
        501
    }

    open spec fn spec_inner(&self) -> T {
        self.0
    }

    fn status_code() -> (r: Status) {
        Status::new(501)
    }

    fn from_inner(inner: T) -> (r: Self) {
        NotImplemented(inner)
    }

    fn into_inner(self) -> (r: T) {
        self.0
    }

    proof fn lemma_inner_determines(a: Self, b: Self) {
    }
}

impl<T> From<T> for NotImplemented<T> {
    /// Wraps a body.
    fn from(inner: T) -> (r: Self) {
        NotImplemented(inner)
    }
}

impl<T> vstd::std_specs::convert::FromSpecImpl<T> for NotImplemented<T> {
    open spec fn obeys_from_spec() -> bool {
        true
    }

    open spec fn from_spec(v: T) -> Self {
        NotImplemented(v)
    }
}

impl<T> std::ops::Deref for NotImplemented<T> {
    type Target = T;

    /// The body.
    fn deref(&self) -> (r: &T)
        ensures
            *r == self.0,
    {
        &self.0
    }
}

/// 502 Bad Gateway
#[derive(Debug, Clone, Copy, Default, Hash)]
pub struct BadGateway<T = ()>(pub T);

impl<T> StatusProvider for BadGateway<T> {
    type Inner = T;

    open spec fn spec_status() -> u16 {
        502
    }

    open spec fn spec_inner(&self) -> T {
        self.0
    }

    fn status_code() -> (r: Status) {
        Status::new(502)
    }

    fn from_inner(inner: T) -> (r: Self) {
        BadGateway(inner)
    }

    fn into_inner(self) -> (r: T) {
        self.0
    }

    proof fn lemma_inner_determines(a: Self, b: Self) {
    }
}

impl<T> From<T> for BadGateway<T> {
    /// Wraps a body.
    fn from(inner: T) -> (r: Self) {
        BadGateway(inner)
    }
}

impl<T> vstd::std_specs::convert::FromSpecImpl<T> for BadGateway<T> {
    open spec fn obeys_from_spec() -> bool {
        true
    }

    open spec fn from_spec(v: T) -> Self {
        BadGateway(v)
    }
}

impl<T> std::ops::Deref for BadGateway<T> {
    type Target = T;

    /// The body.
    fn deref(&self) -> (r: &T)
        ensures
            *r == self.0,
    {
        &self.0
    }
}

/// 503 Service Unavailable
#[derive(Debug, Clone, Copy, Default, Hash)]
pub struct ServiceUnavailable<T = ()>(pub T);

impl<T> StatusProvider for ServiceUnavailable<T> {
    type Inner = T;

    open spec fn spec_status() -> u16 {
        503
    }

    open spec fn spec_inner(&self) -> T {
        self.0
    }

    fn status_code() -> (r: Status) {
        Status::new(503)
    }

    fn from_inner(inner: T) -> (r: Self) {
        ServiceUnavailable(inner)
    }

    fn into_inner(self) -> (r: T) {
        self.0
    }

    proof fn lemma_inner_determines(a: Self, b: Self) {
    }
}

impl<T> From<T> for ServiceUnavailable<T> {
    /// Wraps a body.
    fn from(inner: T) -> (r: Self) {
        ServiceUnavailable(inner)
    }
}

impl<T> vstd::std_specs::convert::FromSpecImpl<T> for ServiceUnavailable<T> {
    open spec fn obeys_from_spec() -> bool {
        true
    }

    open spec fn from_spec(v: T) -> Self {
        ServiceUnavailable(v)
    }
}

impl<T> std::ops::Deref for ServiceUnavailable<T> {
    type Target = T;

    /// The body.
    fn deref(&self) -> (r: &T)
        ensures
            *r == self.0,
    {
        &self.0
    }
}

/// 504 Gateway Timeout
#[derive(Debug, Clone, Copy, Default, Hash)]
pub struct GatewayTimeout<T = ()>(pub T);

impl<T> StatusProvider for GatewayTimeout<T> {
    type Inner = T;

    open spec fn spec_status() -> u16 {
        504
    }

    open spec fn spec_inner(&self) -> T {
        self.0
    }

    fn status_code() -> (r: Status) {
        Status::new(504)
    }

    fn from_inner(inner: T) -> (r: Self) {
        GatewayTimeout(inner)
    }

    fn into_inner(self) -> (r: T) {
        self.0
    }

    proof fn lemma_inner_determines(a: Self, b: Self) {
    }
}

impl<T> From<T> for GatewayTimeout<T> {
    /// Wraps a body.
    fn from(inner: T) -> (r: Self) {
        GatewayTimeout(inner)
    }
}

impl<T> vstd::std_specs::convert::FromSpecImpl<T> for GatewayTimeout<T> {
    open spec fn obeys_from_spec() -> bool {
        true
    }

    open spec fn from_spec(v: T) -> Self {
        GatewayTimeout(v)
    }
}

impl<T> std::ops::Deref for GatewayTimeout<T> {
    type Target = T;

    /// The body.
    fn deref(&self) -> (r: &T)
        ensures
            *r == self.0,
    {
        &self.0
    }
}

/// 505 HTTP Version Not Supported
#[derive(Debug, Clone, Copy, Default, Hash)]
pub struct HttpVersionNotSupported<T = ()>(pub T);

impl<T> StatusProvider for HttpVersionNotSupported<T> {
    type Inner = T;

    open spec fn spec_status() -> u16 {
        505
    }

    open spec fn spec_inner(&self) -> T {
        self.0
    }

    fn status_code() -> (r: Status) {
        Status::new(505)
    }

    fn from_inner(inner: T) -> (r: Self) {
        HttpVersionNotSupported(inner)
    }

    fn into_inner(self) -> (r: T) {
        self.0
    }

    proof fn lemma_inner_determines(a: Self, b: Self) {
    }
}

impl<T> From<T> for HttpVersionNotSupported<T> {
    /// Wraps a body.
    fn from(inner: T) -> (r: Self) {
        HttpVersionNotSupported(inner)
    }
}

impl<T> vstd::std_specs::convert::FromSpecImpl<T> for HttpVersionNotSupported<T> {
    open spec fn obeys_from_spec() -> bool {
        true
    }

    open spec fn from_spec(v: T) -> Self {
        HttpVersionNotSupported(v)
    }
}

impl<T> std::ops::Deref for HttpVersionNotSupported<T> {
    type Target = T;

    /// The body.
    fn deref(&self) -> (r: &T)
        ensures
            *r == self.0,
    {
        &self.0
    }
}

/// 506 Variant Also Negotiates
#[derive(Debug, Clone, Copy, Default, Hash)]
pub struct VariantAlsoNegotiates<T = ()>(pub T);

impl<T> StatusProvider for VariantAlsoNegotiates<T> {
    type Inner = T;

    open spec fn spec_status() -> u16 {
        506
    }

    open spec fn spec_inner(&self) -> T {
        self.0
    }

    fn status_code() -> (r: Status) {
        Status::new(506)
    }

    fn from_inner(inner: T) -> (r: Self) {
        VariantAlsoNegotiates(inner)
    }

    fn into_inner(self) -> (r: T) {
        self.0
    }

    proof fn lemma_inner_determines(a: Self, b: Self) {
    }
}

impl<T> From<T> for VariantAlsoNegotiates<T> {
    /// Wraps a body.
    fn from(inner: T) -> (r: Self) {
        VariantAlsoNegotiates(inner)
    }
}

impl<T> vstd::std_specs::convert::FromSpecImpl<T> for VariantAlsoNegotiates<T> {
    open spec fn obeys_from_spec() -> bool {
        true
    }

    open spec fn from_spec(v: T) -> Self {
        VariantAlsoNegotiates(v)
    }
}

impl<T> std::ops::Deref for VariantAlsoNegotiates<T> {
    type Target = T;

    /// The body.
    fn deref(&self) -> (r: &T)
        ensures
            *r == self.0,
    {
        &self.0
    }
}

/// 507 Insufficient Storage
#[derive(Debug, Clone, Copy, Default, Hash)]
pub struct InsufficientStorage<T = ()>(pub T);

impl<T> StatusProvider for InsufficientStorage<T> {
    type Inner = T;

    open spec fn spec_status() -> u16 {
        507
    }

    open spec fn spec_inner(&self) -> T {
        self.0
    }

    fn status_code() -> (r: Status) {
        Status::new(507)
    }

    fn from_inner(inner: T) -> (r: Self) {
        InsufficientStorage(inner)
    }

    fn into_inner(self) -> (r: T) {
        self.0
    }

    proof fn lemma_inner_determines(a: Self, b: Self) {
    }
}

impl<T> From<T> for InsufficientStorage<T> {
    /// Wraps a body.
    fn from(inner: T) -> (r: Self) {
        InsufficientStorage(inner)
    }
}

impl<T> vstd::std_specs::convert::FromSpecImpl<T> for InsufficientStorage<T> {
    open spec fn obeys_from_spec() -> bool {
        true
    }

    open spec fn from_spec(v: T) -> Self {
        InsufficientStorage(v)
    }
}

impl<T> std::ops::Deref for InsufficientStorage<T> {
    type Target = T;

    /// The body.
    fn deref(&self) -> (r: &T)
        ensures
            *r == self.0,
    {
        &self.0
    }
}

/// 508 Loop Detected
#[derive(Debug, Clone, Copy, Default, Hash)]
pub struct LoopDetected<T = ()>(pub T);

impl<T> StatusProvider for LoopDetected<T> {
    type Inner = T;

    open spec fn spec_status() -> u16 {
        508
    }

    open spec fn spec_inner(&self) -> T {
        self.0
    }

    fn status_code() -> (r: Status) {
        Status::new(508)
    }

    fn from_inner(inner: T) -> (r: Self) {
        LoopDetected(inner)
    }

    fn into_inner(self) -> (r: T) {
        self.0
    }

    proof fn lemma_inner_determines(a: Self, b: Self) {
    }
}

impl<T> From<T> for LoopDetected<T> {
    /// Wraps a body.
    fn from(inner: T) -> (r: Self) {
        LoopDetected(inner)
    }
}

impl<T> vstd::std_specs::convert::FromSpecImpl<T> for LoopDetected<T> {
    open spec fn obeys_from_spec() -> bool {
        true
    }

    open spec fn from_spec(v: T) -> Self {
        LoopDetected(v)
    }
}

impl<T> std::ops::Deref for LoopDetected<T> {
    type Target = T;

    /// The body.
    fn deref(&self) -> (r: &T)
        ensures
            *r == self.0,
    {
        &self.0
    }
}

/// 510 Not Extended
#[derive(Debug, Clone, Copy, Default, Hash)]
pub struct NotExtended<T = ()>(pub T);

impl<T> StatusProvider for NotExtended<T> {
    type Inner = T;

    open spec fn spec_status() -> u16 {
        510
    }

    open spec fn spec_inner(&self) -> T {
        self.0
    }

    fn status_code() -> (r: Status) {
        Status::new(510)
    }

    fn from_inner(inner: T) -> (r: Self) {
        NotExtended(inner)
    }

    fn into_inner(self) -> (r: T) {
        self.0
    }

    proof fn lemma_inner_determines(a: Self, b: Self) {
    }
}

impl<T> From<T> for NotExtended<T> {
    /// Wraps a body.
    fn from(inner: T) -> (r: Self) {
        NotExtended(inner)
    }
}

impl<T> vstd::std_specs::convert::FromSpecImpl<T> for NotExtended<T> {
    open spec fn obeys_from_spec() -> bool {
        true
    }

    open spec fn from_spec(v: T) -> Self {
        NotExtended(v)
    }
}

impl<T> std::ops::Deref for NotExtended<T> {
    type Target = T;

    /// The body.
    fn deref(&self) -> (r: &T)
        ensures
            *r == self.0,
    {
        &self.0
    }
}

/// 511 Network Authentication Required
#[derive(Debug, Clone, Copy, Default, Hash)]
pub struct NetworkAuthenticationRequired<T = ()>(pub T);

impl<T> StatusProvider for NetworkAuthenticationRequired<T> {
    type Inner = T;

    open spec fn spec_status() -> u16 {
        511
    }

    open spec fn spec_inner(&self) -> T {
        self.0
    }

    fn status_code() -> (r: Status) {
        Status::new(511)
    }

    fn from_inner(inner: T) -> (r: Self) {
        NetworkAuthenticationRequired(inner)
    }

    fn into_inner(self) -> (r: T) {
        self.0
    }

    proof fn lemma_inner_determines(a: Self, b: Self) {
    }
}

impl<T> From<T> for NetworkAuthenticationRequired<T> {
    /// Wraps a body.
    fn from(inner: T) -> (r: Self) {
        NetworkAuthenticationRequired(inner)
    }
}

impl<T> vstd::std_specs::convert::FromSpecImpl<T> for NetworkAuthenticationRequired<T> {
    open spec fn obeys_from_spec() -> bool {
        true
    }

    open spec fn from_spec(v: T) -> Self {
        NetworkAuthenticationRequired(v)
    }
}

impl<T> std::ops::Deref for NetworkAuthenticationRequired<T> {
    type Target = T;

    /// The body.
    fn deref(&self) -> (r: &T)
        ensures
            *r == self.0,
    {
        &self.0
    }
}

} // verus!
