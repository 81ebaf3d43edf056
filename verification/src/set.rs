//! Sets of status codes, written as tuples of status code wrappers. The order of a tuple
//! does not matter: a set is read through [`set_contains`], which asks only whether a code
//! occurs in it.

use vstd::prelude::*;
use crate::StatusProvider;

verus! {

/// A tuple of status code wrappers, read as the set of their codes.
pub trait StatusSet {
    /// The codes of the members, in tuple order.
    spec fn spec_codes() -> Seq<u16>;

    /// The codes of the members, in tuple order.
    fn codes() -> (r: Vec<u16>)
        ensures
            r@ == Self::spec_codes(),
    ;
}

/// The set `S` contains the code `code`. A set is read by its members' status codes alone:
/// `(NotFound<String>,)` contains 404 whatever the body type of the wrapper that brings it.
pub open spec fn set_contains<S: StatusSet>(code: u16) -> bool {
    S::spec_codes().contains(code)
}

/// The set `U` contains every code of the set `S`.
pub open spec fn is_superset<U: StatusSet, S: StatusSet>() -> bool {
    forall|c: u16| set_contains::<S>(c) ==> set_contains::<U>(c)
}

impl StatusSet for () {
    open spec fn spec_codes() -> Seq<u16> {
        seq![]
    }

    fn codes() -> (r: Vec<u16>) {
        Vec::new()
    }
}

impl<A: StatusProvider> StatusSet for (A,) {
    open spec fn spec_codes() -> Seq<u16> {
        seq![A::spec_status()]
    }

    fn codes() -> (r: Vec<u16>) {
        let mut r = Vec::new();
        r.push(A::status_code().as_u16());
        assert(r@ =~= Self::spec_codes());
        r
    }
}

impl<A: StatusProvider, B: StatusProvider> StatusSet for (A, B) {
    open spec fn spec_codes() -> Seq<u16> {
        seq![A::spec_status(), B::spec_status()]
    }

    fn codes() -> (r: Vec<u16>) {
        let mut r = Vec::new();
        r.push(A::status_code().as_u16());
        r.push(B::status_code().as_u16());
        assert(r@ =~= Self::spec_codes());
        r
    }
}

impl<A: StatusProvider, B: StatusProvider, C: StatusProvider> StatusSet for (A, B, C) {
    open spec fn spec_codes() -> Seq<u16> {
        seq![A::spec_status(), B::spec_status(), C::spec_status()]
    }

    fn codes() -> (r: Vec<u16>) {
        let mut r = Vec::new();
        r.push(A::status_code().as_u16());
        r.push(B::status_code().as_u16());
        r.push(C::status_code().as_u16());
        assert(r@ =~= Self::spec_codes());
        r
    }
}

impl<A: StatusProvider, B: StatusProvider, C: StatusProvider, D: StatusProvider> StatusSet for (A, B, C, D) {
    open spec fn spec_codes() -> Seq<u16> {
        seq![A::spec_status(), B::spec_status(), C::spec_status(), D::spec_status()]
    }

    fn codes() -> (r: Vec<u16>) {
        let mut r = Vec::new();
        r.push(A::status_code().as_u16());
        r.push(B::status_code().as_u16());
        r.push(C::status_code().as_u16());
        r.push(D::status_code().as_u16());
        assert(r@ =~= Self::spec_codes());
        r
    }
}

impl<A: StatusProvider, B: StatusProvider, C: StatusProvider, D: StatusProvider, E: StatusProvider> StatusSet for (A, B, C, D, E) {
    open spec fn spec_codes() -> Seq<u16> {
        seq![A::spec_status(), B::spec_status(), C::spec_status(), D::spec_status(), E::spec_status()]
    }

    fn codes() -> (r: Vec<u16>) {
        let mut r = Vec::new();
        r.push(A::status_code().as_u16());
        r.push(B::status_code().as_u16());
        r.push(C::status_code().as_u16());
        r.push(D::status_code().as_u16());
        r.push(E::status_code().as_u16());
        assert(r@ =~= Self::spec_codes());
        r
    }
}

impl<A: StatusProvider, B: StatusProvider, C: StatusProvider, D: StatusProvider, E: StatusProvider, F: StatusProvider> StatusSet for (A, B, C, D, E, F) {
    open spec fn spec_codes() -> Seq<u16> {
        seq![A::spec_status(), B::spec_status(), C::spec_status(), D::spec_status(), E::spec_status(), F::spec_status()]
    }

    fn codes() -> (r: Vec<u16>) {
        let mut r = Vec::new();
        r.push(A::status_code().as_u16());
        r.push(B::status_code().as_u16());
        r.push(C::status_code().as_u16());
        r.push(D::status_code().as_u16());
        r.push(E::status_code().as_u16());
        r.push(F::status_code().as_u16());
        assert(r@ =~= Self::spec_codes());
        r
    }
}

impl<A: StatusProvider, B: StatusProvider, C: StatusProvider, D: StatusProvider, E: StatusProvider, F: StatusProvider, G: StatusProvider> StatusSet for (A, B, C, D, E, F, G) {
    open spec fn spec_codes() -> Seq<u16> {
        seq![A::spec_status(), B::spec_status(), C::spec_status(), D::spec_status(), E::spec_status(), F::spec_status(), G::spec_status()]
    }

    fn codes() -> (r: Vec<u16>) {
        let mut r = Vec::new();
        r.push(A::status_code().as_u16());
        r.push(B::status_code().as_u16());
        r.push(C::status_code().as_u16());
        r.push(D::status_code().as_u16());
        r.push(E::status_code().as_u16());
        r.push(F::status_code().as_u16());
        r.push(G::status_code().as_u16());
        assert(r@ =~= Self::spec_codes());
        r
    }
}

impl<A: StatusProvider, B: StatusProvider, C: StatusProvider, D: StatusProvider, E: StatusProvider, F: StatusProvider, G: StatusProvider, H: StatusProvider> StatusSet for (A, B, C, D, E, F, G, H) {
    open spec fn spec_codes() -> Seq<u16> {
        seq![A::spec_status(), B::spec_status(), C::spec_status(), D::spec_status(), E::spec_status(), F::spec_status(), G::spec_status(), H::spec_status()]
    }

    fn codes() -> (r: Vec<u16>) {
        let mut r = Vec::new();
        r.push(A::status_code().as_u16());
        r.push(B::status_code().as_u16());
        r.push(C::status_code().as_u16());
        r.push(D::status_code().as_u16());
        r.push(E::status_code().as_u16());
        r.push(F::status_code().as_u16());
        r.push(G::status_code().as_u16());
        r.push(H::status_code().as_u16());
        assert(r@ =~= Self::spec_codes());
        r
    }
}

impl<A: StatusProvider, B: StatusProvider, C: StatusProvider, D: StatusProvider, E: StatusProvider, F: StatusProvider, G: StatusProvider, H: StatusProvider, I: StatusProvider> StatusSet for (A, B, C, D, E, F, G, H, I) {
    open spec fn spec_codes() -> Seq<u16> {
        seq![A::spec_status(), B::spec_status(), C::spec_status(), D::spec_status(), E::spec_status(), F::spec_status(), G::spec_status(), H::spec_status(), I::spec_status()]
    }

    fn codes() -> (r: Vec<u16>) {
        let mut r = Vec::new();
        r.push(A::status_code().as_u16());
        r.push(B::status_code().as_u16());
        r.push(C::status_code().as_u16());
        r.push(D::status_code().as_u16());
        r.push(E::status_code().as_u16());
        r.push(F::status_code().as_u16());
        r.push(G::status_code().as_u16());
        r.push(H::status_code().as_u16());
        r.push(I::status_code().as_u16());
        assert(r@ =~= Self::spec_codes());
        r
    }
}

impl<A: StatusProvider, B: StatusProvider, C: StatusProvider, D: StatusProvider, E: StatusProvider, F: StatusProvider, G: StatusProvider, H: StatusProvider, I: StatusProvider, J: StatusProvider> StatusSet for (A, B, C, D, E, F, G, H, I, J) {
    open spec fn spec_codes() -> Seq<u16> {
        seq![A::spec_status(), B::spec_status(), C::spec_status(), D::spec_status(), E::spec_status(), F::spec_status(), G::spec_status(), H::spec_status(), I::spec_status(), J::spec_status()]
    }

    fn codes() -> (r: Vec<u16>) {
        let mut r = Vec::new();
        r.push(A::status_code().as_u16());
        r.push(B::status_code().as_u16());
        r.push(C::status_code().as_u16());
        r.push(D::status_code().as_u16());
        r.push(E::status_code().as_u16());
        r.push(F::status_code().as_u16());
        r.push(G::status_code().as_u16());
        r.push(H::status_code().as_u16());
        r.push(I::status_code().as_u16());
        r.push(J::status_code().as_u16());
        assert(r@ =~= Self::spec_codes());
        r
    }
}

impl<A: StatusProvider, B: StatusProvider, C: StatusProvider, D: StatusProvider, E: StatusProvider, F: StatusProvider, G: StatusProvider, H: StatusProvider, I: StatusProvider, J: StatusProvider, K: StatusProvider> StatusSet for (A, B, C, D, E, F, G, H, I, J, K) {
    open spec fn spec_codes() -> Seq<u16> {
        seq![A::spec_status(), B::spec_status(), C::spec_status(), D::spec_status(), E::spec_status(), F::spec_status(), G::spec_status(), H::spec_status(), I::spec_status(), J::spec_status(), K::spec_status()]
    }

    fn codes() -> (r: Vec<u16>) {
        let mut r = Vec::new();
        r.push(A::status_code().as_u16());
        r.push(B::status_code().as_u16());
        r.push(C::status_code().as_u16());
        r.push(D::status_code().as_u16());
        r.push(E::status_code().as_u16());
        r.push(F::status_code().as_u16());
        r.push(G::status_code().as_u16());
        r.push(H::status_code().as_u16());
        r.push(I::status_code().as_u16());
        r.push(J::status_code().as_u16());
        r.push(K::status_code().as_u16());
        assert(r@ =~= Self::spec_codes());
        r
    }
}

impl<A: StatusProvider, B: StatusProvider, C: StatusProvider, D: StatusProvider, E: StatusProvider, F: StatusProvider, G: StatusProvider, H: StatusProvider, I: StatusProvider, J: StatusProvider, K: StatusProvider, L: StatusProvider> StatusSet for (A, B, C, D, E, F, G, H, I, J, K, L) {
    open spec fn spec_codes() -> Seq<u16> {
        seq![A::spec_status(), B::spec_status(), C::spec_status(), D::spec_status(), E::spec_status(), F::spec_status(), G::spec_status(), H::spec_status(), I::spec_status(), J::spec_status(), K::spec_status(), L::spec_status()]
    }

    fn codes() -> (r: Vec<u16>) {
        let mut r = Vec::new();
        r.push(A::status_code().as_u16());
        r.push(B::status_code().as_u16());
        r.push(C::status_code().as_u16());
        r.push(D::status_code().as_u16());
        r.push(E::status_code().as_u16());
        r.push(F::status_code().as_u16());
        r.push(G::status_code().as_u16());
        r.push(H::status_code().as_u16());
        r.push(I::status_code().as_u16());
        r.push(J::status_code().as_u16());
        r.push(K::status_code().as_u16());
        r.push(L::status_code().as_u16());
        assert(r@ =~= Self::spec_codes());
        r
    }
}

impl<A: StatusProvider, B: StatusProvider, C: StatusProvider, D: StatusProvider, E: StatusProvider, F: StatusProvider, G: StatusProvider, H: StatusProvider, I: StatusProvider, J: StatusProvider, K: StatusProvider, L: StatusProvider, M: StatusProvider> StatusSet for (A, B, C, D, E, F, G, H, I, J, K, L, M) {
    open spec fn spec_codes() -> Seq<u16> {
        seq![A::spec_status(), B::spec_status(), C::spec_status(), D::spec_status(), E::spec_status(), F::spec_status(), G::spec_status(), H::spec_status(), I::spec_status(), J::spec_status(), K::spec_status(), L::spec_status(), M::spec_status()]
    }

    fn codes() -> (r: Vec<u16>) {
        let mut r = Vec::new();
        r.push(A::status_code().as_u16());
        r.push(B::status_code().as_u16());
        r.push(C::status_code().as_u16());
        r.push(D::status_code().as_u16());
        r.push(E::status_code().as_u16());
        r.push(F::status_code().as_u16());
        r.push(G::status_code().as_u16());
        r.push(H::status_code().as_u16());
        r.push(I::status_code().as_u16());
        r.push(J::status_code().as_u16());
        r.push(K::status_code().as_u16());
        r.push(L::status_code().as_u16());
        r.push(M::status_code().as_u16());
        assert(r@ =~= Self::spec_codes());
        r
    }
}

impl<A: StatusProvider, B: StatusProvider, C: StatusProvider, D: StatusProvider, E: StatusProvider, F: StatusProvider, G: StatusProvider, H: StatusProvider, I: StatusProvider, J: StatusProvider, K: StatusProvider, L: StatusProvider, M: StatusProvider, N: StatusProvider> StatusSet for (A, B, C, D, E, F, G, H, I, J, K, L, M, N) {
    open spec fn spec_codes() -> Seq<u16> {
        seq![A::spec_status(), B::spec_status(), C::spec_status(), D::spec_status(), E::spec_status(), F::spec_status(), G::spec_status(), H::spec_status(), I::spec_status(), J::spec_status(), K::spec_status(), L::spec_status(), M::spec_status(), N::spec_status()]
    }

    fn codes() -> (r: Vec<u16>) {
        let mut r = Vec::new();
        r.push(A::status_code().as_u16());
        r.push(B::status_code().as_u16());
        r.push(C::status_code().as_u16());
        r.push(D::status_code().as_u16());
        r.push(E::status_code().as_u16());
        r.push(F::status_code().as_u16());
        r.push(G::status_code().as_u16());
        r.push(H::status_code().as_u16());
        r.push(I::status_code().as_u16());
        r.push(J::status_code().as_u16());
        r.push(K::status_code().as_u16());
        r.push(L::status_code().as_u16());
        r.push(M::status_code().as_u16());
        r.push(N::status_code().as_u16());
        assert(r@ =~= Self::spec_codes());
        r
    }
}

impl<A: StatusProvider, B: StatusProvider, C: StatusProvider, D: StatusProvider, E: StatusProvider, F: StatusProvider, G: StatusProvider, H: StatusProvider, I: StatusProvider, J: StatusProvider, K: StatusProvider, L: StatusProvider, M: StatusProvider, N: StatusProvider, O: StatusProvider> StatusSet for (A, B, C, D, E, F, G, H, I, J, K, L, M, N, O) {
    open spec fn spec_codes() -> Seq<u16> {
        seq![A::spec_status(), B::spec_status(), C::spec_status(), D::spec_status(), E::spec_status(), F::spec_status(), G::spec_status(), H::spec_status(), I::spec_status(), J::spec_status(), K::spec_status(), L::spec_status(), M::spec_status(), N::spec_status(), O::spec_status()]
    }

    fn codes() -> (r: Vec<u16>) {
        let mut r = Vec::new();
        r.push(A::status_code().as_u16());
        r.push(B::status_code().as_u16());
        r.push(C::status_code().as_u16());
        r.push(D::status_code().as_u16());
        r.push(E::status_code().as_u16());
        r.push(F::status_code().as_u16());
        r.push(G::status_code().as_u16());
        r.push(H::status_code().as_u16());
        r.push(I::status_code().as_u16());
        r.push(J::status_code().as_u16());
        r.push(K::status_code().as_u16());
        r.push(L::status_code().as_u16());
        r.push(M::status_code().as_u16());
        r.push(N::status_code().as_u16());
        r.push(O::status_code().as_u16());
        assert(r@ =~= Self::spec_codes());
        r
    }
}

impl<A: StatusProvider, B: StatusProvider, C: StatusProvider, D: StatusProvider, E: StatusProvider, F: StatusProvider, G: StatusProvider, H: StatusProvider, I: StatusProvider, J: StatusProvider, K: StatusProvider, L: StatusProvider, M: StatusProvider, N: StatusProvider, O: StatusProvider, P: StatusProvider> StatusSet for (A, B, C, D, E, F, G, H, I, J, K, L, M, N, O, P) {
    open spec fn spec_codes() -> Seq<u16> {
        seq![A::spec_status(), B::spec_status(), C::spec_status(), D::spec_status(), E::spec_status(), F::spec_status(), G::spec_status(), H::spec_status(), I::spec_status(), J::spec_status(), K::spec_status(), L::spec_status(), M::spec_status(), N::spec_status(), O::spec_status(), P::spec_status()]
    }

    fn codes() -> (r: Vec<u16>) {
        let mut r = Vec::new();
        r.push(A::status_code().as_u16());
        r.push(B::status_code().as_u16());
        r.push(C::status_code().as_u16());
        r.push(D::status_code().as_u16());
        r.push(E::status_code().as_u16());
        r.push(F::status_code().as_u16());
        r.push(G::status_code().as_u16());
        r.push(H::status_code().as_u16());
        r.push(I::status_code().as_u16());
        r.push(J::status_code().as_u16());
        r.push(K::status_code().as_u16());
        r.push(L::status_code().as_u16());
        r.push(M::status_code().as_u16());
        r.push(N::status_code().as_u16());
        r.push(O::status_code().as_u16());
        r.push(P::status_code().as_u16());
        assert(r@ =~= Self::spec_codes());
        r
    }
}

/// A set of 1 member lists the members' codes, each at its member's place in the tuple, and
/// contains exactly those codes.
pub proof fn lemma_codes_of_1<A: StatusProvider>()
    ensures
        <(A,) as StatusSet>::spec_codes().len() == 1,
        <(A,) as StatusSet>::spec_codes()[0] == A::spec_status(),
        forall|c: u16| set_contains::<(A,)>(c) <==> (c == A::spec_status()),
{
    let s = <(A,) as StatusSet>::spec_codes();
    assert(s[0] == A::spec_status());
    assert forall|c: u16| set_contains::<(A,)>(c) <==> (c == A::spec_status()) by {
        if set_contains::<(A,)>(c) {
            let i = choose|i: int| 0 <= i < s.len() && s[i] == c;
        }
    }
}

/// A set of 2 members lists the members' codes, each at its member's place in the tuple, and
/// contains exactly those codes.
pub proof fn lemma_codes_of_2<A: StatusProvider, B: StatusProvider>()
    ensures
        <(A, B) as StatusSet>::spec_codes().len() == 2,
        <(A, B) as StatusSet>::spec_codes()[0] == A::spec_status(),
        <(A, B) as StatusSet>::spec_codes()[1] == B::spec_status(),
        forall|c: u16| set_contains::<(A, B)>(c) <==> (c == A::spec_status() || c == B::spec_status()),
{
    let s = <(A, B) as StatusSet>::spec_codes();
    assert(s[0] == A::spec_status());
    assert(s[1] == B::spec_status());
    assert forall|c: u16| set_contains::<(A, B)>(c) <==> (c == A::spec_status() || c == B::spec_status()) by {
        if set_contains::<(A, B)>(c) {
            let i = choose|i: int| 0 <= i < s.len() && s[i] == c;
        }
    }
}

/// A set of 3 members lists the members' codes, each at its member's place in the tuple, and
/// contains exactly those codes.
pub proof fn lemma_codes_of_3<A: StatusProvider, B: StatusProvider, C: StatusProvider>()
    ensures
        <(A, B, C) as StatusSet>::spec_codes().len() == 3,
        <(A, B, C) as StatusSet>::spec_codes()[0] == A::spec_status(),
        <(A, B, C) as StatusSet>::spec_codes()[1] == B::spec_status(),
        <(A, B, C) as StatusSet>::spec_codes()[2] == C::spec_status(),
        forall|c: u16| set_contains::<(A, B, C)>(c) <==> (c == A::spec_status() || c == B::spec_status() || c == C::spec_status()),
{
    let s = <(A, B, C) as StatusSet>::spec_codes();
    assert(s[0] == A::spec_status());
    assert(s[1] == B::spec_status());
    assert(s[2] == C::spec_status());
    assert forall|c: u16| set_contains::<(A, B, C)>(c) <==> (c == A::spec_status() || c == B::spec_status() || c == C::spec_status()) by {
        if set_contains::<(A, B, C)>(c) {
            let i = choose|i: int| 0 <= i < s.len() && s[i] == c;
        }
    }
}

/// A set of 4 members lists the members' codes, each at its member's place in the tuple, and
/// contains exactly those codes.
pub proof fn lemma_codes_of_4<A: StatusProvider, B: StatusProvider, C: StatusProvider, D: StatusProvider>()
    ensures
        <(A, B, C, D) as StatusSet>::spec_codes().len() == 4,
        <(A, B, C, D) as StatusSet>::spec_codes()[0] == A::spec_status(),
        <(A, B, C, D) as StatusSet>::spec_codes()[1] == B::spec_status(),
        <(A, B, C, D) as StatusSet>::spec_codes()[2] == C::spec_status(),
        <(A, B, C, D) as StatusSet>::spec_codes()[3] == D::spec_status(),
        forall|c: u16| set_contains::<(A, B, C, D)>(c) <==> (c == A::spec_status() || c == B::spec_status() || c == C::spec_status() || c == D::spec_status()),
{
    let s = <(A, B, C, D) as StatusSet>::spec_codes();
    assert(s[0] == A::spec_status());
    assert(s[1] == B::spec_status());
    assert(s[2] == C::spec_status());
    assert(s[3] == D::spec_status());
    assert forall|c: u16| set_contains::<(A, B, C, D)>(c) <==> (c == A::spec_status() || c == B::spec_status() || c == C::spec_status() || c == D::spec_status()) by {
        if set_contains::<(A, B, C, D)>(c) {
            let i = choose|i: int| 0 <= i < s.len() && s[i] == c;
        }
    }
}

/// A set of 5 members lists the members' codes, each at its member's place in the tuple, and
/// contains exactly those codes.
pub proof fn lemma_codes_of_5<A: StatusProvider, B: StatusProvider, C: StatusProvider, D: StatusProvider, E: StatusProvider>()
    ensures
        <(A, B, C, D, E) as StatusSet>::spec_codes().len() == 5,
        <(A, B, C, D, E) as StatusSet>::spec_codes()[0] == A::spec_status(),
        <(A, B, C, D, E) as StatusSet>::spec_codes()[1] == B::spec_status(),
        <(A, B, C, D, E) as StatusSet>::spec_codes()[2] == C::spec_status(),
        <(A, B, C, D, E) as StatusSet>::spec_codes()[3] == D::spec_status(),
        <(A, B, C, D, E) as StatusSet>::spec_codes()[4] == E::spec_status(),
        forall|c: u16| set_contains::<(A, B, C, D, E)>(c) <==> (c == A::spec_status() || c == B::spec_status() || c == C::spec_status() || c == D::spec_status() || c == E::spec_status()),
{
    let s = <(A, B, C, D, E) as StatusSet>::spec_codes();
    assert(s[0] == A::spec_status());
    assert(s[1] == B::spec_status());
    assert(s[2] == C::spec_status());
    assert(s[3] == D::spec_status());
    assert(s[4] == E::spec_status());
    assert forall|c: u16| set_contains::<(A, B, C, D, E)>(c) <==> (c == A::spec_status() || c == B::spec_status() || c == C::spec_status() || c == D::spec_status() || c == E::spec_status()) by {
        if set_contains::<(A, B, C, D, E)>(c) {
            let i = choose|i: int| 0 <= i < s.len() && s[i] == c;
        }
    }
}

/// A set of 6 members lists the members' codes, each at its member's place in the tuple, and
/// contains exactly those codes.
pub proof fn lemma_codes_of_6<A: StatusProvider, B: StatusProvider, C: StatusProvider, D: StatusProvider, E: StatusProvider, F: StatusProvider>()
    ensures
        <(A, B, C, D, E, F) as StatusSet>::spec_codes().len() == 6,
        <(A, B, C, D, E, F) as StatusSet>::spec_codes()[0] == A::spec_status(),
        <(A, B, C, D, E, F) as StatusSet>::spec_codes()[1] == B::spec_status(),
        <(A, B, C, D, E, F) as StatusSet>::spec_codes()[2] == C::spec_status(),
        <(A, B, C, D, E, F) as StatusSet>::spec_codes()[3] == D::spec_status(),
        <(A, B, C, D, E, F) as StatusSet>::spec_codes()[4] == E::spec_status(),
        <(A, B, C, D, E, F) as StatusSet>::spec_codes()[5] == F::spec_status(),
        forall|c: u16| set_contains::<(A, B, C, D, E, F)>(c) <==> (c == A::spec_status() || c == B::spec_status() || c == C::spec_status() || c == D::spec_status() || c == E::spec_status() || c == F::spec_status()),
{
    let s = <(A, B, C, D, E, F) as StatusSet>::spec_codes();
    assert(s[0] == A::spec_status());
    assert(s[1] == B::spec_status());
    assert(s[2] == C::spec_status());
    assert(s[3] == D::spec_status());
    assert(s[4] == E::spec_status());
    assert(s[5] == F::spec_status());
    assert forall|c: u16| set_contains::<(A, B, C, D, E, F)>(c) <==> (c == A::spec_status() || c == B::spec_status() || c == C::spec_status() || c == D::spec_status() || c == E::spec_status() || c == F::spec_status()) by {
        if set_contains::<(A, B, C, D, E, F)>(c) {
            let i = choose|i: int| 0 <= i < s.len() && s[i] == c;
        }
    }
}

/// A set of 7 members lists the members' codes, each at its member's place in the tuple, and
/// contains exactly those codes.
pub proof fn lemma_codes_of_7<A: StatusProvider, B: StatusProvider, C: StatusProvider, D: StatusProvider, E: StatusProvider, F: StatusProvider, G: StatusProvider>()
    ensures
        <(A, B, C, D, E, F, G) as StatusSet>::spec_codes().len() == 7,
        <(A, B, C, D, E, F, G) as StatusSet>::spec_codes()[0] == A::spec_status(),
        <(A, B, C, D, E, F, G) as StatusSet>::spec_codes()[1] == B::spec_status(),
        <(A, B, C, D, E, F, G) as StatusSet>::spec_codes()[2] == C::spec_status(),
        <(A, B, C, D, E, F, G) as StatusSet>::spec_codes()[3] == D::spec_status(),
        <(A, B, C, D, E, F, G) as StatusSet>::spec_codes()[4] == E::spec_status(),
        <(A, B, C, D, E, F, G) as StatusSet>::spec_codes()[5] == F::spec_status(),
        <(A, B, C, D, E, F, G) as StatusSet>::spec_codes()[6] == G::spec_status(),
        forall|c: u16| set_contains::<(A, B, C, D, E, F, G)>(c) <==> (c == A::spec_status() || c == B::spec_status() || c == C::spec_status() || c == D::spec_status() || c == E::spec_status() || c == F::spec_status() || c == G::spec_status()),
{
    let s = <(A, B, C, D, E, F, G) as StatusSet>::spec_codes();
    assert(s[0] == A::spec_status());
    assert(s[1] == B::spec_status());
    assert(s[2] == C::spec_status());
    assert(s[3] == D::spec_status());
    assert(s[4] == E::spec_status());
    assert(s[5] == F::spec_status());
    assert(s[6] == G::spec_status());
    assert forall|c: u16| set_contains::<(A, B, C, D, E, F, G)>(c) <==> (c == A::spec_status() || c == B::spec_status() || c == C::spec_status() || c == D::spec_status() || c == E::spec_status() || c == F::spec_status() || c == G::spec_status()) by {
        if set_contains::<(A, B, C, D, E, F, G)>(c) {
            let i = choose|i: int| 0 <= i < s.len() && s[i] == c;
        }
    }
}

/// A set of 8 members lists the members' codes, each at its member's place in the tuple, and
/// contains exactly those codes.
pub proof fn lemma_codes_of_8<A: StatusProvider, B: StatusProvider, C: StatusProvider, D: StatusProvider, E: StatusProvider, F: StatusProvider, G: StatusProvider, H: StatusProvider>()
    ensures
        <(A, B, C, D, E, F, G, H) as StatusSet>::spec_codes().len() == 8,
        <(A, B, C, D, E, F, G, H) as StatusSet>::spec_codes()[0] == A::spec_status(),
        <(A, B, C, D, E, F, G, H) as StatusSet>::spec_codes()[1] == B::spec_status(),
        <(A, B, C, D, E, F, G, H) as StatusSet>::spec_codes()[2] == C::spec_status(),
        <(A, B, C, D, E, F, G, H) as StatusSet>::spec_codes()[3] == D::spec_status(),
        <(A, B, C, D, E, F, G, H) as StatusSet>::spec_codes()[4] == E::spec_status(),
        <(A, B, C, D, E, F, G, H) as StatusSet>::spec_codes()[5] == F::spec_status(),
        <(A, B, C, D, E, F, G, H) as StatusSet>::spec_codes()[6] == G::spec_status(),
        <(A, B, C, D, E, F, G, H) as StatusSet>::spec_codes()[7] == H::spec_status(),
        forall|c: u16| set_contains::<(A, B, C, D, E, F, G, H)>(c) <==> (c == A::spec_status() || c == B::spec_status() || c == C::spec_status() || c == D::spec_status() || c == E::spec_status() || c == F::spec_status() || c == G::spec_status() || c == H::spec_status()),
{
    let s = <(A, B, C, D, E, F, G, H) as StatusSet>::spec_codes();
    assert(s[0] == A::spec_status());
    assert(s[1] == B::spec_status());
    assert(s[2] == C::spec_status());
    assert(s[3] == D::spec_status());
    assert(s[4] == E::spec_status());
    assert(s[5] == F::spec_status());
    assert(s[6] == G::spec_status());
    assert(s[7] == H::spec_status());
    assert forall|c: u16| set_contains::<(A, B, C, D, E, F, G, H)>(c) <==> (c == A::spec_status() || c == B::spec_status() || c == C::spec_status() || c == D::spec_status() || c == E::spec_status() || c == F::spec_status() || c == G::spec_status() || c == H::spec_status()) by {
        if set_contains::<(A, B, C, D, E, F, G, H)>(c) {
            let i = choose|i: int| 0 <= i < s.len() && s[i] == c;
        }
    }
}

/// A set of 9 members lists the members' codes, each at its member's place in the tuple, and
/// contains exactly those codes.
pub proof fn lemma_codes_of_9<A: StatusProvider, B: StatusProvider, C: StatusProvider, D: StatusProvider, E: StatusProvider, F: StatusProvider, G: StatusProvider, H: StatusProvider, I: StatusProvider>()
    ensures
        <(A, B, C, D, E, F, G, H, I) as StatusSet>::spec_codes().len() == 9,
        <(A, B, C, D, E, F, G, H, I) as StatusSet>::spec_codes()[0] == A::spec_status(),
        <(A, B, C, D, E, F, G, H, I) as StatusSet>::spec_codes()[1] == B::spec_status(),
        <(A, B, C, D, E, F, G, H, I) as StatusSet>::spec_codes()[2] == C::spec_status(),
        <(A, B, C, D, E, F, G, H, I) as StatusSet>::spec_codes()[3] == D::spec_status(),
        <(A, B, C, D, E, F, G, H, I) as StatusSet>::spec_codes()[4] == E::spec_status(),
        <(A, B, C, D, E, F, G, H, I) as StatusSet>::spec_codes()[5] == F::spec_status(),
        <(A, B, C, D, E, F, G, H, I) as StatusSet>::spec_codes()[6] == G::spec_status(),
        <(A, B, C, D, E, F, G, H, I) as StatusSet>::spec_codes()[7] == H::spec_status(),
        <(A, B, C, D, E, F, G, H, I) as StatusSet>::spec_codes()[8] == I::spec_status(),
        forall|c: u16| set_contains::<(A, B, C, D, E, F, G, H, I)>(c) <==> (c == A::spec_status() || c == B::spec_status() || c == C::spec_status() || c == D::spec_status() || c == E::spec_status() || c == F::spec_status() || c == G::spec_status() || c == H::spec_status() || c == I::spec_status()),
{
    let s = <(A, B, C, D, E, F, G, H, I) as StatusSet>::spec_codes();
    assert(s[0] == A::spec_status());
    assert(s[1] == B::spec_status());
    assert(s[2] == C::spec_status());
    assert(s[3] == D::spec_status());
    assert(s[4] == E::spec_status());
    assert(s[5] == F::spec_status());
    assert(s[6] == G::spec_status());
    assert(s[7] == H::spec_status());
    assert(s[8] == I::spec_status());
    assert forall|c: u16| set_contains::<(A, B, C, D, E, F, G, H, I)>(c) <==> (c == A::spec_status() || c == B::spec_status() || c == C::spec_status() || c == D::spec_status() || c == E::spec_status() || c == F::spec_status() || c == G::spec_status() || c == H::spec_status() || c == I::spec_status()) by {
        if set_contains::<(A, B, C, D, E, F, G, H, I)>(c) {
            let i = choose|i: int| 0 <= i < s.len() && s[i] == c;
        }
    }
}

/// A set of 10 members lists the members' codes, each at its member's place in the tuple, and
/// contains exactly those codes.
pub proof fn lemma_codes_of_10<A: StatusProvider, B: StatusProvider, C: StatusProvider, D: StatusProvider, E: StatusProvider, F: StatusProvider, G: StatusProvider, H: StatusProvider, I: StatusProvider, J: StatusProvider>()
    ensures
        <(A, B, C, D, E, F, G, H, I, J) as StatusSet>::spec_codes().len() == 10,
        <(A, B, C, D, E, F, G, H, I, J) as StatusSet>::spec_codes()[0] == A::spec_status(),
        <(A, B, C, D, E, F, G, H, I, J) as StatusSet>::spec_codes()[1] == B::spec_status(),
        <(A, B, C, D, E, F, G, H, I, J) as StatusSet>::spec_codes()[2] == C::spec_status(),
        <(A, B, C, D, E, F, G, H, I, J) as StatusSet>::spec_codes()[3] == D::spec_status(),
        <(A, B, C, D, E, F, G, H, I, J) as StatusSet>::spec_codes()[4] == E::spec_status(),
        <(A, B, C, D, E, F, G, H, I, J) as StatusSet>::spec_codes()[5] == F::spec_status(),
        <(A, B, C, D, E, F, G, H, I, J) as StatusSet>::spec_codes()[6] == G::spec_status(),
        <(A, B, C, D, E, F, G, H, I, J) as StatusSet>::spec_codes()[7] == H::spec_status(),
        <(A, B, C, D, E, F, G, H, I, J) as StatusSet>::spec_codes()[8] == I::spec_status(),
        <(A, B, C, D, E, F, G, H, I, J) as StatusSet>::spec_codes()[9] == J::spec_status(),
        forall|c: u16| set_contains::<(A, B, C, D, E, F, G, H, I, J)>(c) <==> (c == A::spec_status() || c == B::spec_status() || c == C::spec_status() || c == D::spec_status() || c == E::spec_status() || c == F::spec_status() || c == G::spec_status() || c == H::spec_status() || c == I::spec_status() || c == J::spec_status()),
{
    let s = <(A, B, C, D, E, F, G, H, I, J) as StatusSet>::spec_codes();
    assert(s[0] == A::spec_status());
    assert(s[1] == B::spec_status());
    assert(s[2] == C::spec_status());
    assert(s[3] == D::spec_status());
    assert(s[4] == E::spec_status());
    assert(s[5] == F::spec_status());
    assert(s[6] == G::spec_status());
    assert(s[7] == H::spec_status());
    assert(s[8] == I::spec_status());
    assert(s[9] == J::spec_status());
    assert forall|c: u16| set_contains::<(A, B, C, D, E, F, G, H, I, J)>(c) <==> (c == A::spec_status() || c == B::spec_status() || c == C::spec_status() || c == D::spec_status() || c == E::spec_status() || c == F::spec_status() || c == G::spec_status() || c == H::spec_status() || c == I::spec_status() || c == J::spec_status()) by {
        if set_contains::<(A, B, C, D, E, F, G, H, I, J)>(c) {
            let i = choose|i: int| 0 <= i < s.len() && s[i] == c;
        }
    }
}

/// A set of 11 members lists the members' codes, each at its member's place in the tuple, and
/// contains exactly those codes.
pub proof fn lemma_codes_of_11<A: StatusProvider, B: StatusProvider, C: StatusProvider, D: StatusProvider, E: StatusProvider, F: StatusProvider, G: StatusProvider, H: StatusProvider, I: StatusProvider, J: StatusProvider, K: StatusProvider>()
    ensures
        <(A, B, C, D, E, F, G, H, I, J, K) as StatusSet>::spec_codes().len() == 11,
        <(A, B, C, D, E, F, G, H, I, J, K) as StatusSet>::spec_codes()[0] == A::spec_status(),
        <(A, B, C, D, E, F, G, H, I, J, K) as StatusSet>::spec_codes()[1] == B::spec_status(),
        <(A, B, C, D, E, F, G, H, I, J, K) as StatusSet>::spec_codes()[2] == C::spec_status(),
        <(A, B, C, D, E, F, G, H, I, J, K) as StatusSet>::spec_codes()[3] == D::spec_status(),
        <(A, B, C, D, E, F, G, H, I, J, K) as StatusSet>::spec_codes()[4] == E::spec_status(),
        <(A, B, C, D, E, F, G, H, I, J, K) as StatusSet>::spec_codes()[5] == F::spec_status(),
        <(A, B, C, D, E, F, G, H, I, J, K) as StatusSet>::spec_codes()[6] == G::spec_status(),
        <(A, B, C, D, E, F, G, H, I, J, K) as StatusSet>::spec_codes()[7] == H::spec_status(),
        <(A, B, C, D, E, F, G, H, I, J, K) as StatusSet>::spec_codes()[8] == I::spec_status(),
        <(A, B, C, D, E, F, G, H, I, J, K) as StatusSet>::spec_codes()[9] == J::spec_status(),
        <(A, B, C, D, E, F, G, H, I, J, K) as StatusSet>::spec_codes()[10] == K::spec_status(),
        forall|c: u16| set_contains::<(A, B, C, D, E, F, G, H, I, J, K)>(c) <==> (c == A::spec_status() || c == B::spec_status() || c == C::spec_status() || c == D::spec_status() || c == E::spec_status() || c == F::spec_status() || c == G::spec_status() || c == H::spec_status() || c == I::spec_status() || c == J::spec_status() || c == K::spec_status()),
{
    let s = <(A, B, C, D, E, F, G, H, I, J, K) as StatusSet>::spec_codes();
    assert(s[0] == A::spec_status());
    assert(s[1] == B::spec_status());
    assert(s[2] == C::spec_status());
    assert(s[3] == D::spec_status());
    assert(s[4] == E::spec_status());
    assert(s[5] == F::spec_status());
    assert(s[6] == G::spec_status());
    assert(s[7] == H::spec_status());
    assert(s[8] == I::spec_status());
    assert(s[9] == J::spec_status());
    assert(s[10] == K::spec_status());
    assert forall|c: u16| set_contains::<(A, B, C, D, E, F, G, H, I, J, K)>(c) <==> (c == A::spec_status() || c == B::spec_status() || c == C::spec_status() || c == D::spec_status() || c == E::spec_status() || c == F::spec_status() || c == G::spec_status() || c == H::spec_status() || c == I::spec_status() || c == J::spec_status() || c == K::spec_status()) by {
        if set_contains::<(A, B, C, D, E, F, G, H, I, J, K)>(c) {
            let i = choose|i: int| 0 <= i < s.len() && s[i] == c;
        }
    }
}

/// A set of 12 members lists the members' codes, each at its member's place in the tuple, and
/// contains exactly those codes.
pub proof fn lemma_codes_of_12<A: StatusProvider, B: StatusProvider, C: StatusProvider, D: StatusProvider, E: StatusProvider, F: StatusProvider, G: StatusProvider, H: StatusProvider, I: StatusProvider, J: StatusProvider, K: StatusProvider, L: StatusProvider>()
    ensures
        <(A, B, C, D, E, F, G, H, I, J, K, L) as StatusSet>::spec_codes().len() == 12,
        <(A, B, C, D, E, F, G, H, I, J, K, L) as StatusSet>::spec_codes()[0] == A::spec_status(),
        <(A, B, C, D, E, F, G, H, I, J, K, L) as StatusSet>::spec_codes()[1] == B::spec_status(),
        <(A, B, C, D, E, F, G, H, I, J, K, L) as StatusSet>::spec_codes()[2] == C::spec_status(),
        <(A, B, C, D, E, F, G, H, I, J, K, L) as StatusSet>::spec_codes()[3] == D::spec_status(),
        <(A, B, C, D, E, F, G, H, I, J, K, L) as StatusSet>::spec_codes()[4] == E::spec_status(),
        <(A, B, C, D, E, F, G, H, I, J, K, L) as StatusSet>::spec_codes()[5] == F::spec_status(),
        <(A, B, C, D, E, F, G, H, I, J, K, L) as StatusSet>::spec_codes()[6] == G::spec_status(),
        <(A, B, C, D, E, F, G, H, I, J, K, L) as StatusSet>::spec_codes()[7] == H::spec_status(),
        <(A, B, C, D, E, F, G, H, I, J, K, L) as StatusSet>::spec_codes()[8] == I::spec_status(),
        <(A, B, C, D, E, F, G, H, I, J, K, L) as StatusSet>::spec_codes()[9] == J::spec_status(),
        <(A, B, C, D, E, F, G, H, I, J, K, L) as StatusSet>::spec_codes()[10] == K::spec_status(),
        <(A, B, C, D, E, F, G, H, I, J, K, L) as StatusSet>::spec_codes()[11] == L::spec_status(),
        forall|c: u16| set_contains::<(A, B, C, D, E, F, G, H, I, J, K, L)>(c) <==> (c == A::spec_status() || c == B::spec_status() || c == C::spec_status() || c == D::spec_status() || c == E::spec_status() || c == F::spec_status() || c == G::spec_status() || c == H::spec_status() || c == I::spec_status() || c == J::spec_status() || c == K::spec_status() || c == L::spec_status()),
{
    let s = <(A, B, C, D, E, F, G, H, I, J, K, L) as StatusSet>::spec_codes();
    assert(s[0] == A::spec_status());
    assert(s[1] == B::spec_status());
    assert(s[2] == C::spec_status());
    assert(s[3] == D::spec_status());
    assert(s[4] == E::spec_status());
    assert(s[5] == F::spec_status());
    assert(s[6] == G::spec_status());
    assert(s[7] == H::spec_status());
    assert(s[8] == I::spec_status());
    assert(s[9] == J::spec_status());
    assert(s[10] == K::spec_status());
    assert(s[11] == L::spec_status());
    assert forall|c: u16| set_contains::<(A, B, C, D, E, F, G, H, I, J, K, L)>(c) <==> (c == A::spec_status() || c == B::spec_status() || c == C::spec_status() || c == D::spec_status() || c == E::spec_status() || c == F::spec_status() || c == G::spec_status() || c == H::spec_status() || c == I::spec_status() || c == J::spec_status() || c == K::spec_status() || c == L::spec_status()) by {
        if set_contains::<(A, B, C, D, E, F, G, H, I, J, K, L)>(c) {
            let i = choose|i: int| 0 <= i < s.len() && s[i] == c;
        }
    }
}

/// A set of 13 members lists the members' codes, each at its member's place in the tuple, and
/// contains exactly those codes.
pub proof fn lemma_codes_of_13<A: StatusProvider, B: StatusProvider, C: StatusProvider, D: StatusProvider, E: StatusProvider, F: StatusProvider, G: StatusProvider, H: StatusProvider, I: StatusProvider, J: StatusProvider, K: StatusProvider, L: StatusProvider, M: StatusProvider>()
    ensures
        <(A, B, C, D, E, F, G, H, I, J, K, L, M) as StatusSet>::spec_codes().len() == 13,
        <(A, B, C, D, E, F, G, H, I, J, K, L, M) as StatusSet>::spec_codes()[0] == A::spec_status(),
        <(A, B, C, D, E, F, G, H, I, J, K, L, M) as StatusSet>::spec_codes()[1] == B::spec_status(),
        <(A, B, C, D, E, F, G, H, I, J, K, L, M) as StatusSet>::spec_codes()[2] == C::spec_status(),
        <(A, B, C, D, E, F, G, H, I, J, K, L, M) as StatusSet>::spec_codes()[3] == D::spec_status(),
        <(A, B, C, D, E, F, G, H, I, J, K, L, M) as StatusSet>::spec_codes()[4] == E::spec_status(),
        <(A, B, C, D, E, F, G, H, I, J, K, L, M) as StatusSet>::spec_codes()[5] == F::spec_status(),
        <(A, B, C, D, E, F, G, H, I, J, K, L, M) as StatusSet>::spec_codes()[6] == G::spec_status(),
        <(A, B, C, D, E, F, G, H, I, J, K, L, M) as StatusSet>::spec_codes()[7] == H::spec_status(),
        <(A, B, C, D, E, F, G, H, I, J, K, L, M) as StatusSet>::spec_codes()[8] == I::spec_status(),
        <(A, B, C, D, E, F, G, H, I, J, K, L, M) as StatusSet>::spec_codes()[9] == J::spec_status(),
        <(A, B, C, D, E, F, G, H, I, J, K, L, M) as StatusSet>::spec_codes()[10] == K::spec_status(),
        <(A, B, C, D, E, F, G, H, I, J, K, L, M) as StatusSet>::spec_codes()[11] == L::spec_status(),
        <(A, B, C, D, E, F, G, H, I, J, K, L, M) as StatusSet>::spec_codes()[12] == M::spec_status(),
        forall|c: u16| set_contains::<(A, B, C, D, E, F, G, H, I, J, K, L, M)>(c) <==> (c == A::spec_status() || c == B::spec_status() || c == C::spec_status() || c == D::spec_status() || c == E::spec_status() || c == F::spec_status() || c == G::spec_status() || c == H::spec_status() || c == I::spec_status() || c == J::spec_status() || c == K::spec_status() || c == L::spec_status() || c == M::spec_status()),
{
    let s = <(A, B, C, D, E, F, G, H, I, J, K, L, M) as StatusSet>::spec_codes();
    assert(s[0] == A::spec_status());
    assert(s[1] == B::spec_status());
    assert(s[2] == C::spec_status());
    assert(s[3] == D::spec_status());
    assert(s[4] == E::spec_status());
    assert(s[5] == F::spec_status());
    assert(s[6] == G::spec_status());
    assert(s[7] == H::spec_status());
    assert(s[8] == I::spec_status());
    assert(s[9] == J::spec_status());
    assert(s[10] == K::spec_status());
    assert(s[11] == L::spec_status());
    assert(s[12] == M::spec_status());
    assert forall|c: u16| set_contains::<(A, B, C, D, E, F, G, H, I, J, K, L, M)>(c) <==> (c == A::spec_status() || c == B::spec_status() || c == C::spec_status() || c == D::spec_status() || c == E::spec_status() || c == F::spec_status() || c == G::spec_status() || c == H::spec_status() || c == I::spec_status() || c == J::spec_status() || c == K::spec_status() || c == L::spec_status() || c == M::spec_status()) by {
        if set_contains::<(A, B, C, D, E, F, G, H, I, J, K, L, M)>(c) {
            let i = choose|i: int| 0 <= i < s.len() && s[i] == c;
        }
    }
}

/// A set of 14 members lists the members' codes, each at its member's place in the tuple, and
/// contains exactly those codes.
pub proof fn lemma_codes_of_14<A: StatusProvider, B: StatusProvider, C: StatusProvider, D: StatusProvider, E: StatusProvider, F: StatusProvider, G: StatusProvider, H: StatusProvider, I: StatusProvider, J: StatusProvider, K: StatusProvider, L: StatusProvider, M: StatusProvider, N: StatusProvider>()
    ensures
        <(A, B, C, D, E, F, G, H, I, J, K, L, M, N) as StatusSet>::spec_codes().len() == 14,
        <(A, B, C, D, E, F, G, H, I, J, K, L, M, N) as StatusSet>::spec_codes()[0] == A::spec_status(),
        <(A, B, C, D, E, F, G, H, I, J, K, L, M, N) as StatusSet>::spec_codes()[1] == B::spec_status(),
        <(A, B, C, D, E, F, G, H, I, J, K, L, M, N) as StatusSet>::spec_codes()[2] == C::spec_status(),
        <(A, B, C, D, E, F, G, H, I, J, K, L, M, N) as StatusSet>::spec_codes()[3] == D::spec_status(),
        <(A, B, C, D, E, F, G, H, I, J, K, L, M, N) as StatusSet>::spec_codes()[4] == E::spec_status(),
        <(A, B, C, D, E, F, G, H, I, J, K, L, M, N) as StatusSet>::spec_codes()[5] == F::spec_status(),
        <(A, B, C, D, E, F, G, H, I, J, K, L, M, N) as StatusSet>::spec_codes()[6] == G::spec_status(),
        <(A, B, C, D, E, F, G, H, I, J, K, L, M, N) as StatusSet>::spec_codes()[7] == H::spec_status(),
        <(A, B, C, D, E, F, G, H, I, J, K, L, M, N) as StatusSet>::spec_codes()[8] == I::spec_status(),
        <(A, B, C, D, E, F, G, H, I, J, K, L, M, N) as StatusSet>::spec_codes()[9] == J::spec_status(),
        <(A, B, C, D, E, F, G, H, I, J, K, L, M, N) as StatusSet>::spec_codes()[10] == K::spec_status(),
        <(A, B, C, D, E, F, G, H, I, J, K, L, M, N) as StatusSet>::spec_codes()[11] == L::spec_status(),
        <(A, B, C, D, E, F, G, H, I, J, K, L, M, N) as StatusSet>::spec_codes()[12] == M::spec_status(),
        <(A, B, C, D, E, F, G, H, I, J, K, L, M, N) as StatusSet>::spec_codes()[13] == N::spec_status(),
        forall|c: u16| set_contains::<(A, B, C, D, E, F, G, H, I, J, K, L, M, N)>(c) <==> (c == A::spec_status() || c == B::spec_status() || c == C::spec_status() || c == D::spec_status() || c == E::spec_status() || c == F::spec_status() || c == G::spec_status() || c == H::spec_status() || c == I::spec_status() || c == J::spec_status() || c == K::spec_status() || c == L::spec_status() || c == M::spec_status() || c == N::spec_status()),
{
    let s = <(A, B, C, D, E, F, G, H, I, J, K, L, M, N) as StatusSet>::spec_codes();
    assert(s[0] == A::spec_status());
    assert(s[1] == B::spec_status());
    assert(s[2] == C::spec_status());
    assert(s[3] == D::spec_status());
    assert(s[4] == E::spec_status());
    assert(s[5] == F::spec_status());
    assert(s[6] == G::spec_status());
    assert(s[7] == H::spec_status());
    assert(s[8] == I::spec_status());
    assert(s[9] == J::spec_status());
    assert(s[10] == K::spec_status());
    assert(s[11] == L::spec_status());
    assert(s[12] == M::spec_status());
    assert(s[13] == N::spec_status());
    assert forall|c: u16| set_contains::<(A, B, C, D, E, F, G, H, I, J, K, L, M, N)>(c) <==> (c == A::spec_status() || c == B::spec_status() || c == C::spec_status() || c == D::spec_status() || c == E::spec_status() || c == F::spec_status() || c == G::spec_status() || c == H::spec_status() || c == I::spec_status() || c == J::spec_status() || c == K::spec_status() || c == L::spec_status() || c == M::spec_status() || c == N::spec_status()) by {
        if set_contains::<(A, B, C, D, E, F, G, H, I, J, K, L, M, N)>(c) {
            let i = choose|i: int| 0 <= i < s.len() && s[i] == c;
        }
    }
}

/// A set of 15 members lists the members' codes, each at its member's place in the tuple, and
/// contains exactly those codes.
pub proof fn lemma_codes_of_15<A: StatusProvider, B: StatusProvider, C: StatusProvider, D: StatusProvider, E: StatusProvider, F: StatusProvider, G: StatusProvider, H: StatusProvider, I: StatusProvider, J: StatusProvider, K: StatusProvider, L: StatusProvider, M: StatusProvider, N: StatusProvider, O: StatusProvider>()
    ensures
        <(A, B, C, D, E, F, G, H, I, J, K, L, M, N, O) as StatusSet>::spec_codes().len() == 15,
        <(A, B, C, D, E, F, G, H, I, J, K, L, M, N, O) as StatusSet>::spec_codes()[0] == A::spec_status(),
        <(A, B, C, D, E, F, G, H, I, J, K, L, M, N, O) as StatusSet>::spec_codes()[1] == B::spec_status(),
        <(A, B, C, D, E, F, G, H, I, J, K, L, M, N, O) as StatusSet>::spec_codes()[2] == C::spec_status(),
        <(A, B, C, D, E, F, G, H, I, J, K, L, M, N, O) as StatusSet>::spec_codes()[3] == D::spec_status(),
        <(A, B, C, D, E, F, G, H, I, J, K, L, M, N, O) as StatusSet>::spec_codes()[4] == E::spec_status(),
        <(A, B, C, D, E, F, G, H, I, J, K, L, M, N, O) as StatusSet>::spec_codes()[5] == F::spec_status(),
        <(A, B, C, D, E, F, G, H, I, J, K, L, M, N, O) as StatusSet>::spec_codes()[6] == G::spec_status(),
        <(A, B, C, D, E, F, G, H, I, J, K, L, M, N, O) as StatusSet>::spec_codes()[7] == H::spec_status(),
        <(A, B, C, D, E, F, G, H, I, J, K, L, M, N, O) as StatusSet>::spec_codes()[8] == I::spec_status(),
        <(A, B, C, D, E, F, G, H, I, J, K, L, M, N, O) as StatusSet>::spec_codes()[9] == J::spec_status(),
        <(A, B, C, D, E, F, G, H, I, J, K, L, M, N, O) as StatusSet>::spec_codes()[10] == K::spec_status(),
        <(A, B, C, D, E, F, G, H, I, J, K, L, M, N, O) as StatusSet>::spec_codes()[11] == L::spec_status(),
        <(A, B, C, D, E, F, G, H, I, J, K, L, M, N, O) as StatusSet>::spec_codes()[12] == M::spec_status(),
        <(A, B, C, D, E, F, G, H, I, J, K, L, M, N, O) as StatusSet>::spec_codes()[13] == N::spec_status(),
        <(A, B, C, D, E, F, G, H, I, J, K, L, M, N, O) as StatusSet>::spec_codes()[14] == O::spec_status(),
        forall|c: u16| set_contains::<(A, B, C, D, E, F, G, H, I, J, K, L, M, N, O)>(c) <==> (c == A::spec_status() || c == B::spec_status() || c == C::spec_status() || c == D::spec_status() || c == E::spec_status() || c == F::spec_status() || c == G::spec_status() || c == H::spec_status() || c == I::spec_status() || c == J::spec_status() || c == K::spec_status() || c == L::spec_status() || c == M::spec_status() || c == N::spec_status() || c == O::spec_status()),
{
    let s = <(A, B, C, D, E, F, G, H, I, J, K, L, M, N, O) as StatusSet>::spec_codes();
    assert(s[0] == A::spec_status());
    assert(s[1] == B::spec_status());
    assert(s[2] == C::spec_status());
    assert(s[3] == D::spec_status());
    assert(s[4] == E::spec_status());
    assert(s[5] == F::spec_status());
    assert(s[6] == G::spec_status());
    assert(s[7] == H::spec_status());
    assert(s[8] == I::spec_status());
    assert(s[9] == J::spec_status());
    assert(s[10] == K::spec_status());
    assert(s[11] == L::spec_status());
    assert(s[12] == M::spec_status());
    assert(s[13] == N::spec_status());
    assert(s[14] == O::spec_status());
    assert forall|c: u16| set_contains::<(A, B, C, D, E, F, G, H, I, J, K, L, M, N, O)>(c) <==> (c == A::spec_status() || c == B::spec_status() || c == C::spec_status() || c == D::spec_status() || c == E::spec_status() || c == F::spec_status() || c == G::spec_status() || c == H::spec_status() || c == I::spec_status() || c == J::spec_status() || c == K::spec_status() || c == L::spec_status() || c == M::spec_status() || c == N::spec_status() || c == O::spec_status()) by {
        if set_contains::<(A, B, C, D, E, F, G, H, I, J, K, L, M, N, O)>(c) {
            let i = choose|i: int| 0 <= i < s.len() && s[i] == c;
        }
    }
}

/// A set of 16 members lists the members' codes, each at its member's place in the tuple, and
/// contains exactly those codes.
pub proof fn lemma_codes_of_16<A: StatusProvider, B: StatusProvider, C: StatusProvider, D: StatusProvider, E: StatusProvider, F: StatusProvider, G: StatusProvider, H: StatusProvider, I: StatusProvider, J: StatusProvider, K: StatusProvider, L: StatusProvider, M: StatusProvider, N: StatusProvider, O: StatusProvider, P: StatusProvider>()
    ensures
        <(A, B, C, D, E, F, G, H, I, J, K, L, M, N, O, P) as StatusSet>::spec_codes().len() == 16,
        <(A, B, C, D, E, F, G, H, I, J, K, L, M, N, O, P) as StatusSet>::spec_codes()[0] == A::spec_status(),
        <(A, B, C, D, E, F, G, H, I, J, K, L, M, N, O, P) as StatusSet>::spec_codes()[1] == B::spec_status(),
        <(A, B, C, D, E, F, G, H, I, J, K, L, M, N, O, P) as StatusSet>::spec_codes()[2] == C::spec_status(),
        <(A, B, C, D, E, F, G, H, I, J, K, L, M, N, O, P) as StatusSet>::spec_codes()[3] == D::spec_status(),
        <(A, B, C, D, E, F, G, H, I, J, K, L, M, N, O, P) as StatusSet>::spec_codes()[4] == E::spec_status(),
        <(A, B, C, D, E, F, G, H, I, J, K, L, M, N, O, P) as StatusSet>::spec_codes()[5] == F::spec_status(),
        <(A, B, C, D, E, F, G, H, I, J, K, L, M, N, O, P) as StatusSet>::spec_codes()[6] == G::spec_status(),
        <(A, B, C, D, E, F, G, H, I, J, K, L, M, N, O, P) as StatusSet>::spec_codes()[7] == H::spec_status(),
        <(A, B, C, D, E, F, G, H, I, J, K, L, M, N, O, P) as StatusSet>::spec_codes()[8] == I::spec_status(),
        <(A, B, C, D, E, F, G, H, I, J, K, L, M, N, O, P) as StatusSet>::spec_codes()[9] == J::spec_status(),
        <(A, B, C, D, E, F, G, H, I, J, K, L, M, N, O, P) as StatusSet>::spec_codes()[10] == K::spec_status(),
        <(A, B, C, D, E, F, G, H, I, J, K, L, M, N, O, P) as StatusSet>::spec_codes()[11] == L::spec_status(),
        <(A, B, C, D, E, F, G, H, I, J, K, L, M, N, O, P) as StatusSet>::spec_codes()[12] == M::spec_status(),
        <(A, B, C, D, E, F, G, H, I, J, K, L, M, N, O, P) as StatusSet>::spec_codes()[13] == N::spec_status(),
        <(A, B, C, D, E, F, G, H, I, J, K, L, M, N, O, P) as StatusSet>::spec_codes()[14] == O::spec_status(),
        <(A, B, C, D, E, F, G, H, I, J, K, L, M, N, O, P) as StatusSet>::spec_codes()[15] == P::spec_status(),
        forall|c: u16| set_contains::<(A, B, C, D, E, F, G, H, I, J, K, L, M, N, O, P)>(c) <==> (c == A::spec_status() || c == B::spec_status() || c == C::spec_status() || c == D::spec_status() || c == E::spec_status() || c == F::spec_status() || c == G::spec_status() || c == H::spec_status() || c == I::spec_status() || c == J::spec_status() || c == K::spec_status() || c == L::spec_status() || c == M::spec_status() || c == N::spec_status() || c == O::spec_status() || c == P::spec_status()),
{
    let s = <(A, B, C, D, E, F, G, H, I, J, K, L, M, N, O, P) as StatusSet>::spec_codes();
    assert(s[0] == A::spec_status());
    assert(s[1] == B::spec_status());
    assert(s[2] == C::spec_status());
    assert(s[3] == D::spec_status());
    assert(s[4] == E::spec_status());
    assert(s[5] == F::spec_status());
    assert(s[6] == G::spec_status());
    assert(s[7] == H::spec_status());
    assert(s[8] == I::spec_status());
    assert(s[9] == J::spec_status());
    assert(s[10] == K::spec_status());
    assert(s[11] == L::spec_status());
    assert(s[12] == M::spec_status());
    assert(s[13] == N::spec_status());
    assert(s[14] == O::spec_status());
    assert(s[15] == P::spec_status());
    assert forall|c: u16| set_contains::<(A, B, C, D, E, F, G, H, I, J, K, L, M, N, O, P)>(c) <==> (c == A::spec_status() || c == B::spec_status() || c == C::spec_status() || c == D::spec_status() || c == E::spec_status() || c == F::spec_status() || c == G::spec_status() || c == H::spec_status() || c == I::spec_status() || c == J::spec_status() || c == K::spec_status() || c == L::spec_status() || c == M::spec_status() || c == N::spec_status() || c == O::spec_status() || c == P::spec_status()) by {
        if set_contains::<(A, B, C, D, E, F, G, H, I, J, K, L, M, N, O, P)>(c) {
            let i = choose|i: int| 0 <= i < s.len() && s[i] == c;
        }
    }
}

/// Every set contains itself.
pub proof fn lemma_superset_reflexive<S: StatusSet>()
    ensures
        is_superset::<S, S>(),
{
}

/// A set that contains a set `B` that contains `A` contains `A`.
pub proof fn lemma_superset_transitive<A: StatusSet, B: StatusSet, C: StatusSet>()
    requires
        is_superset::<B, A>(),
        is_superset::<C, B>(),
    ensures
        is_superset::<C, A>(),
{
}

/// The empty set moves into every set.
pub proof fn lemma_empty_into_any<S: StatusSet>()
    ensures
        is_superset::<S, ()>(),
{
}

/// Every member's code is in the set, whatever its place in the tuple.
pub proof fn lemma_members_contained<A: StatusProvider, B: StatusProvider, C: StatusProvider>()
    ensures
        set_contains::<(A,)>(A::spec_status()),
        set_contains::<(A, B)>(A::spec_status()),
        set_contains::<(A, B)>(B::spec_status()),
        set_contains::<(A, B, C)>(A::spec_status()),
        set_contains::<(A, B, C)>(B::spec_status()),
        set_contains::<(A, B, C)>(C::spec_status()),
{
    assert(seq![A::spec_status()][0] == A::spec_status());
    assert(seq![A::spec_status(), B::spec_status()][0] == A::spec_status());
    assert(seq![A::spec_status(), B::spec_status()][1] == B::spec_status());
    assert(seq![A::spec_status(), B::spec_status(), C::spec_status()][0] == A::spec_status());
    assert(seq![A::spec_status(), B::spec_status(), C::spec_status()][1] == B::spec_status());
    assert(seq![A::spec_status(), B::spec_status(), C::spec_status()][2] == C::spec_status());
}

/// The order of a tuple does not matter: swapping a pair, or rotating or swapping a triple,
/// gives a set with the same codes.
pub proof fn lemma_order_irrelevant<A: StatusProvider, B: StatusProvider, C: StatusProvider>()
    ensures
        forall|c: u16| set_contains::<(A, B)>(c) == set_contains::<(B, A)>(c),
        forall|c: u16| set_contains::<(A, B, C)>(c) == set_contains::<(B, C, A)>(c),
        forall|c: u16| set_contains::<(A, B, C)>(c) == set_contains::<(B, A, C)>(c),
        is_superset::<(A, B), (B, A)>(),
        is_superset::<(A, B, C), (C, B, A)>(),
{
    assert forall|c: u16| set_contains::<(A, B)>(c) == set_contains::<(B, A)>(c) by {
        lemma_members_contained::<A, B, C>();
        lemma_members_contained::<B, A, C>();
    }
    assert forall|c: u16| set_contains::<(A, B, C)>(c) == set_contains::<(B, C, A)>(c) by {
        lemma_members_contained::<A, B, C>();
        lemma_members_contained::<B, C, A>();
    }
    assert forall|c: u16| set_contains::<(A, B, C)>(c) == set_contains::<(B, A, C)>(c) by {
        lemma_members_contained::<A, B, C>();
        lemma_members_contained::<B, A, C>();
    }
    assert forall|c: u16| set_contains::<(C, B, A)>(c) implies set_contains::<(A, B, C)>(c) by {
        lemma_members_contained::<A, B, C>();
        lemma_members_contained::<C, B, A>();
    }
}

} // verus!
