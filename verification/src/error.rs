//! The ways an operation on the ledger can fail.

use vstd::prelude::*;

verus! {

/// Why an operation was rejected.
#[derive(Clone, Copy, Debug, PartialEq, Eq, Structural)]
pub enum BubbleError {
    /// A status character is not one of `?`, `o`, `/`, `x`.
    InvalidToken,
    /// A payload from the wire or from the store could not be decoded.
    DecodeError,
    /// The backing store could not be read or written.
    StoreError,
    /// A bulk update does not carry exactly one token per entry.
    InputLengthError,
    /// A weekday did not fall exactly once in a seven-day window. The
    /// resolution in `date` is proved never to end so; the variant is for
    /// callers that have to report a broken window of their own.
    InvariantViolation,
}

impl BubbleError {
    /// The text of the diagnostic for each error.
    pub open spec fn message_text(self) -> Seq<char> {
        match self {
            BubbleError::InvalidToken => "Bad bubble char"@,
            BubbleError::DecodeError => "Malformed payload"@,
            BubbleError::StoreError => "Store unavailable"@,
            BubbleError::InputLengthError => "Token count differs from entry count"@,
            BubbleError::InvariantViolation => "Weekday not found in window"@,
        }
    }

    /// A one-line diagnostic for the user.
    pub fn to_string(&self) -> (text: String)
        ensures
            text@ == self.message_text(),
    {
        match self {
            BubbleError::InvalidToken => String::from_str("Bad bubble char"),
            BubbleError::DecodeError => String::from_str("Malformed payload"),
            BubbleError::StoreError => String::from_str("Store unavailable"),
            BubbleError::InputLengthError => String::from_str(
                "Token count differs from entry count",
            ),
            BubbleError::InvariantViolation => String::from_str("Weekday not found in window"),
        }
    }
}

} // verus!
