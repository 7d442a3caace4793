//! The status that a request is answered with.

use crate::text::decimal;
use vstd::prelude::*;

verus! {

/// The status of an HTTP response, a number of three digits.
#[derive(Clone, Copy)]
pub struct HttpStatus {
    code: u16,
}

/// The numbers that a status can have.
pub open spec fn status_code(code: u16) -> bool {
    100 <= code <= 999
}

/// The range of the statuses that say a request was served.
pub open spec fn success(code: u16) -> bool {
    200 <= code < 300
}

/// The reason phrase that a status is shown with.
pub uninterp spec fn reason_phrase(code: u16) -> Seq<char>;

/// A status as it is shown: its number and its reason phrase.
pub open spec fn status_shown(code: u16) -> Seq<char> {
    decimal(code as nat) + " "@ + reason_phrase(code)
}

/// `reqwest::StatusCode::from_u16`, which takes the numbers of three digits and
/// no others, and the `Display` of the status: the number in decimal, a space,
/// and a reason phrase that goes by the number alone. Which phrase goes with
/// which number is left unsaid.
#[verifier::external_body]
fn show_status(code: u16) -> (shown: Option<String>)
    ensures
        shown is Some <==> status_code(code),
        shown matches Some(text) ==> text@ == decimal(code as nat) + " "@ + reason_phrase(code),
{
    reqwest::StatusCode::from_u16(code).ok().map(|status| status.to_string())
}

impl HttpStatus {
    #[verifier::type_invariant]
    spec fn valid(self) -> bool {
        status_code(self.code)
    }

    pub closed spec fn code(self) -> u16 {
        self.code
    }

    /// The status of that number, where there is one.
    pub fn from_u16(code: u16) -> (status: Option<HttpStatus>)
        ensures
            status is Some <==> status_code(code),
            status matches Some(s) ==> s.code() == code,
    {
        if 100 <= code && code <= 999 {
            Some(HttpStatus { code })
        } else {
            None
        }
    }

    /// The number of the status.
    pub fn as_u16(&self) -> (code: u16)
        ensures
            code == self.code(),
            status_code(code),
    {
        proof {
            use_type_invariant(self);
        }
        self.code
    }

    /// Whether the request was served.
    pub fn is_success(&self) -> (yes: bool)
        ensures
            yes == success(self.code()),
    {
        200 <= self.code && self.code < 300
    }

    /// The status as it is shown.
    pub fn shown(&self) -> (text: String)
        ensures
            text@ == status_shown(self.code()),
    {
        proof {
            use_type_invariant(self);
        }
        show_status(self.code).unwrap()
    }
}

// ---- Laws ------------------------------------------------------------------------------------

/// The numbers that statuses have, those that say a request was served, and how a
/// status is shown.
pub proof fn law_statuses(code: u16)
    ensures
        status_code(code) <==> 100 <= code && code <= 999,
        success(code) <==> 200 <= code && code <= 299,
        status_shown(code) == decimal(code as nat) + " "@ + reason_phrase(code),
{
}

} // verus!
