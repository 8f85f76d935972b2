//! The status of an HTTP response.
use vstd::prelude::*;
use vstd::pervasive::unreached;

verus! {

/// The status code of an HTTP response: a number of three digits.
#[derive(Clone, Copy, Debug, PartialEq, Eq, Structural)]
pub struct HttpStatus {
    code: u16,
}

/// The status line that belongs to a status code: the code, a space and the
/// reason phrase that is canonical for it, as `reqwest::StatusCode` prints
/// them.
pub uninterp spec fn status_line(code: u16) -> Seq<char>;

/// Builds a `reqwest::StatusCode` with `from_u16` and prints it with its
/// `Display`. `from_u16` takes the codes from 100 to 999 and refuses every
/// other number; what is printed depends on the code alone.
#[verifier::external_body]
fn printed_status(code: u16) -> (r: Option<String>)
    ensures
        r is Some <==> HttpStatus::admits(code),
        r matches Some(line) ==> line@ == status_line(code),
{
    match reqwest::StatusCode::from_u16(code) {
        Ok(status) => Some(status.to_string()),
        Err(_) => None,
    }
}

impl HttpStatus {
    #[verifier::type_invariant]
    spec fn three_digits(self) -> bool {
        Self::admits(self.code)
    }

    /// The numbers that are a status code: those of three digits.
    pub open spec fn admits(code: u16) -> bool {
        100 <= code < 1000
    }

    /// The status code as a number.
    pub closed spec fn code(self) -> u16 {
        self.code
    }

    /// Whether the status says that the request succeeded: the codes from
    /// 200 to 299 do.
    pub open spec fn success(self) -> bool {
        200 <= self.code() < 300
    }

    /// The status with the given code, or `None` where the number is no
    /// status code.
    pub fn new(code: u16) -> (r: Option<HttpStatus>)
        ensures
            r is Some <==> Self::admits(code),
            r matches Some(status) ==> status.code() == code,
    {
        if 100 <= code && code < 1000 {
            Some(HttpStatus { code })
        } else {
            None
        }
    }

    /// The status code as a number.
    pub fn as_u16(&self) -> (r: u16)
        ensures
            r == self.code(),
            Self::admits(r),
    {
        proof {
            use_type_invariant(self);
        }
        self.code
    }

    /// Whether the status says that the request succeeded.
    pub fn is_success(&self) -> (r: bool)
        ensures
            r == self.success(),
    {
        200 <= self.code && self.code < 300
    }

    /// The status line: the code and its canonical reason phrase.
    pub fn line(&self) -> (r: String)
        ensures
            r@ == status_line(self.code()),
    {
        proof {
            use_type_invariant(self);
        }
        match printed_status(self.code) {
            Some(line) => line,
            None => unreached(),
        }
    }
}

} // verus!
