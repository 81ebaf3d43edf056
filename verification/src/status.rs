//! HTTP status codes as plain numbers.

use vstd::prelude::*;
use crate::external::http_status;

verus! {

/// An HTTP status code: a number from 100 to 999.
#[derive(Debug, Clone, Copy, PartialEq, Eq, Hash, Structural)]
pub struct Status {
    code: u16,
}

impl View for Status {
    type V = u16;

    closed spec fn view(&self) -> u16 {
        self.code
    }
}

impl Status {
    #[verifier::type_invariant]
    spec fn in_range(self) -> bool {
        100 <= self.code <= 999
    }

    /// The status code with the given number, when it lies from 100 to 999.
    pub fn from_u16(code: u16) -> (r: Option<Status>)
        ensures
            r is Some <==> 100 <= code <= 999,
            r matches Some(s) ==> s@ == code,
    {
        match http_status(code) {
            Ok(_) => Some(Status { code }),
            Err(_) => None,
        }
    }

    /// The status code with a number known to lie from 100 to 999.
    pub fn new(code: u16) -> (r: Status)
        requires
            100 <= code <= 999,
        ensures
            r@ == code,
    {
        Status { code }
    }

    /// The number of this status code.
    pub fn as_u16(&self) -> (r: u16)
        ensures
            r == self@,
            100 <= r <= 999,
    {
        proof { use_type_invariant(self); }
        self.code
    }
}

/// Two status codes are the same exactly when their numbers are.
pub proof fn lemma_status_view_injective(a: Status, b: Status)
    ensures
        (a@ == b@) == (a == b),
{
}

} // verus!
