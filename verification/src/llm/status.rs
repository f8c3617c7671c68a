//! HTTP status codes as the provider clients read them.

use vstd::pervasive::unreached;
use vstd::prelude::*;

verus! {

/// The text that stands for a status code in messages: the number, then the reason
/// phrase that the `http` crate knows for it.
pub uninterp spec fn status_text(code: u16) -> Seq<char>;

/// Whether `code` can be the status of an HTTP response.
pub open spec fn is_status(code: u16) -> bool {
    100 <= code <= 999
}

/// `reqwest::StatusCode::from_u16`, then the `Display` of the status code it made.
///
/// Nothing is proved of either. The contract claims that the conversion succeeds exactly
/// for the codes from 100 to 999, and that what is displayed depends on the code alone,
/// which is why it can go by the name `status_text`.
#[verifier::external_body]
fn display_status(code: u16) -> (text: Option<String>)
    ensures
        text is Some <==> is_status(code),
        text matches Some(t) ==> t@ == status_text(code),
{
    match reqwest::StatusCode::from_u16(code) {
        Ok(status) => Some(status.to_string()),
        Err(_) => None,
    }
}

/// The status code of an HTTP response: a number from 100 to 999.
#[derive(Debug, Clone, Copy)]
pub struct HttpStatus {
    code: u16,
}

impl View for HttpStatus {
    type V = u16;

    closed spec fn view(&self) -> u16 {
        self.code
    }
}

impl HttpStatus {
    #[verifier::type_invariant]
    spec fn in_range(self) -> bool {
        is_status(self.code)
    }

    /// The status with the number `code`, where there is one.
    pub fn from_u16(code: u16) -> (status: Option<Self>)
        ensures
            status is Some <==> is_status(code),
            status matches Some(s) ==> s@ == code,
    {
        if 100 <= code && code <= 999 {
            Some(HttpStatus { code })
        } else {
            None
        }
    }

    /// The number of the status.
    pub fn as_u16(&self) -> (code: u16)
        ensures
            code == self@,
            is_status(code),
    {
        proof {
            use_type_invariant(self);
        }
        self.code
    }

    /// Whether the status reports success: a number from 200 to 299.
    pub fn is_success(&self) -> (yes: bool)
        ensures
            yes == (200 <= self@ <= 299),
    {
        200 <= self.code && self.code <= 299
    }

    /// The status as it is written in messages.
    pub fn describe(&self) -> (text: String)
        ensures
            text@ == status_text(self@),
    {
        proof {
            use_type_invariant(self);
        }
        match display_status(self.code) {
            Some(text) => text,
            None => unreached(),
        }
    }
}

} // verus!
