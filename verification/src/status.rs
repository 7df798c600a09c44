//! HTTP status codes and their display text.

use crate::text::decimal;
use vstd::prelude::*;

verus! {

/// The phrase that follows the number where `reqwest::StatusCode` displays the
/// status `code`.
pub uninterp spec fn status_reason(code: u16) -> Seq<char>;

/// How a status code is displayed: the number, a space, the phrase.
pub open spec fn status_text(code: u16) -> Seq<char> {
    decimal(code as nat) + seq![' '] + status_reason(code)
}

/// Builds a `reqwest::StatusCode` with `from_u16` and formats it with its
/// `Display`. Trusted: `from_u16` accepts the codes from 100 to 999 and no
/// others, and the display is the code in decimal, one space, and the
/// canonical reason phrase or a fixed stand-in where the code has none.
#[verifier::external_body]
fn display_status(code: u16) -> (shown: Option<String>)
    ensures
        shown is Some <==> 100 <= code <= 999,
        shown is Some ==> shown.unwrap()@ == decimal(code as nat) + seq![' '] + status_reason(code),
{
    match reqwest::StatusCode::from_u16(code) {
        Ok(status) => Some(status.to_string()),
        Err(_) => None,
    }
}

/// The status code of an HTTP response: a number from 100 to 999.
#[derive(Clone, Copy, Debug, PartialEq, Eq)]
pub struct HttpStatus {
    code: u16,
}

impl HttpStatus {
    /// The number of the status.
    pub closed spec fn code(self) -> u16 {
        self.code
    }

    /// Every status holds a code from 100 to 999.
    #[verifier::type_invariant]
    pub open spec fn in_range(self) -> bool {
        100 <= self.code() <= 999
    }

    /// The status with the number `code`, where there is one.
    pub fn new(code: u16) -> (status: Option<HttpStatus>)
        ensures
            status is Some <==> 100 <= code <= 999,
            status is Some ==> status.unwrap().code() == code && status.unwrap().in_range(),
    {
        if 100 <= code && code <= 999 {
            Some(HttpStatus { code })
        } else {
            None
        }
    }

    /// The number of the status.
    pub fn as_u16(&self) -> (code: u16)
        ensures
            code == self.code(),
            100 <= code <= 999,
    {
        proof {
            use_type_invariant(self);
        }
        self.code
    }

    /// Whether the status is `200 OK`, the one status that counts as success.
    pub fn is_ok(&self) -> (ok: bool)
        ensures
            ok == (self.code() == 200),
    {
        self.code == 200
    }

    /// The status as it is reported: its number and its reason phrase.
    pub fn text(&self) -> (shown: String)
        ensures
            shown@ == status_text(self.code()),
    {
        proof {
            use_type_invariant(self);
        }
        match display_status(self.code) {
            Some(shown) => shown,
            None => String::new(),
        }
    }
}

} // verus!
