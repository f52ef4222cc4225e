//! The state of one habit on one day.

use crate::error::BubbleError;
use vstd::prelude::*;

verus! {

/// What is known of a habit on a given day.
#[derive(Clone, Copy, Debug, PartialEq, Eq, Structural, Hash)]
pub enum BubbleStatus {
    /// Nothing was recorded.
    Unknown,
    /// Recorded as not done.
    Empty,
    /// Recorded as partly done.
    HalfFull,
    /// Recorded as done.
    Full,
}

/// The status that an input character stands for, if it stands for one.
pub open spec fn status_of_token(token: char) -> Option<BubbleStatus> {
    if token == 'x' {
        Some(BubbleStatus::Full)
    } else if token == '/' {
        Some(BubbleStatus::HalfFull)
    } else if token == 'o' {
        Some(BubbleStatus::Empty)
    } else if token == '?' {
        Some(BubbleStatus::Unknown)
    } else {
        None
    }
}

/// The status that a piece of input text stands for: the text must be exactly
/// one token.
pub open spec fn status_of_text(text: Seq<char>) -> Option<BubbleStatus> {
    if text.len() == 1 {
        status_of_token(text[0])
    } else {
        None
    }
}

impl BubbleStatus {
    /// The character by which this status is entered.
    pub open spec fn token_of(self) -> char {
        match self {
            BubbleStatus::Unknown => '?',
            BubbleStatus::Empty => 'o',
            BubbleStatus::HalfFull => '/',
            BubbleStatus::Full => 'x',
        }
    }

    /// The character by which this status is shown.
    pub open spec fn glyph_of(self) -> char {
        match self {
            BubbleStatus::Unknown => '\u{25cc}',
            BubbleStatus::Empty => '\u{25cb}',
            BubbleStatus::HalfFull => '\u{25d0}',
            BubbleStatus::Full => '\u{25cf}',
        }
    }

    /// Reads one input character.
    pub fn parse(token: char) -> (parsed: Result<BubbleStatus, BubbleError>)
        ensures
            parsed == match status_of_token(token) {
                Some(status) => Ok::<BubbleStatus, BubbleError>(status),
                None => Err(BubbleError::InvalidToken),
            },
    {
        if token == 'x' {
            Ok(BubbleStatus::Full)
        } else if token == '/' {
            Ok(BubbleStatus::HalfFull)
        } else if token == 'o' {
            Ok(BubbleStatus::Empty)
        } else if token == '?' {
            Ok(BubbleStatus::Unknown)
        } else {
            Err(BubbleError::InvalidToken)
        }
    }

    /// Reads a piece of input text, which must consist of one token.
    pub fn from_str(text: &str) -> (parsed: Result<BubbleStatus, BubbleError>)
        ensures
            parsed == match status_of_text(text@) {
                Some(status) => Ok::<BubbleStatus, BubbleError>(status),
                None => Err(BubbleError::InvalidToken),
            },
    {
        if text.unicode_len() == 1 {
            BubbleStatus::parse(text.get_char(0))
        } else {
            Err(BubbleError::InvalidToken)
        }
    }

    /// The character by which this status is entered.
    pub fn token(self) -> (token: char)
        ensures
            token == self.token_of(),
            status_of_token(token) == Some(self),
    {
        match self {
            BubbleStatus::Unknown => '?',
            BubbleStatus::Empty => 'o',
            BubbleStatus::HalfFull => '/',
            BubbleStatus::Full => 'x',
        }
    }

    /// The character by which this status is shown.
    pub fn glyph(self) -> (glyph: char)
        ensures
            glyph == self.glyph_of(),
    {
        match self {
            BubbleStatus::Unknown => '\u{25cc}',
            BubbleStatus::Empty => '\u{25cb}',
            BubbleStatus::HalfFull => '\u{25d0}',
            BubbleStatus::Full => '\u{25cf}',
        }
    }

    /// The glyph as a one-character text, ready for a table cell.
    pub fn to_string(&self) -> (text: String)
        ensures
            text@ == seq![self.glyph_of()],
    {
        proof {
            reveal_strlit("\u{25cc}");
            reveal_strlit("\u{25cb}");
            reveal_strlit("\u{25d0}");
            reveal_strlit("\u{25cf}");
        }
        let text = match self {
            BubbleStatus::Unknown => String::from_str("\u{25cc}"),
            BubbleStatus::Empty => String::from_str("\u{25cb}"),
            BubbleStatus::HalfFull => String::from_str("\u{25d0}"),
            BubbleStatus::Full => String::from_str("\u{25cf}"),
        };
        assert(text@ =~= seq![self.glyph_of()]);
        text
    }
}

/// Entering a status by its own token gives that status back.
pub proof fn lemma_token_round_trip(status: BubbleStatus)
    ensures
        status_of_token(status.token_of()) == Some(status),
        status_of_text(seq![status.token_of()]) == Some(status),
{
}

/// No two statuses share a token, and none shares a glyph.
pub proof fn lemma_tokens_and_glyphs_distinct(a: BubbleStatus, b: BubbleStatus)
    ensures
        a.token_of() == b.token_of() ==> a == b,
        a.glyph_of() == b.glyph_of() ==> a == b,
{
}

} // verus!
