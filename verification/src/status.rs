//! Status codes.
use vstd::prelude::*;

verus! {

/// The status code of a response: a number from 100 to 999.
#[derive(Clone, Copy, Debug, PartialEq, Eq)]
pub struct StatusCode {
    code: u16,
}

impl View for StatusCode {
    type V = u16;

    closed spec fn view(&self) -> u16 {
        self.code
    }
}

/// Whether a status code stands for success: 200 to 299.
pub open spec fn is_success_code(code: u16) -> bool {
    200 <= code < 300
}

impl StatusCode {
    #[verifier::type_invariant]
    spec fn in_range(&self) -> bool {
        100 <= self.code < 1000
    }

    /// The status code with the given number, where there is one.
    pub fn from_u16(src: u16) -> (out: Option<StatusCode>)
        ensures
            out is Some <==> 100 <= src < 1000,
            out is Some ==> out->Some_0@ == src,
    {
        if src < 100 || src >= 1000 {
            None
        } else {
            Some(StatusCode { code: src })
        }
    }

    /// The number of this status code.
    pub fn as_u16(&self) -> (code: u16)
        ensures
            code == self@,
            100 <= code < 1000,
    {
        proof {
            use_type_invariant(self);
        }
        self.code
    }

    /// Whether this status code stands for success.
    pub fn is_success(&self) -> (success: bool)
        ensures
            success == is_success_code(self@),
    {
        300 > self.code && self.code >= 200
    }
}

} // verus!
