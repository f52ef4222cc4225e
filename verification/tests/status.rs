use bubbles_core::error::BubbleError;
use bubbles_core::status::BubbleStatus;

const ALL: [BubbleStatus; 4] =
    [BubbleStatus::Unknown, BubbleStatus::Empty, BubbleStatus::HalfFull, BubbleStatus::Full];

#[test]
fn each_token_parses_to_its_status() {
    assert_eq!(BubbleStatus::parse('?'), Ok(BubbleStatus::Unknown));
    assert_eq!(BubbleStatus::parse('o'), Ok(BubbleStatus::Empty));
    assert_eq!(BubbleStatus::parse('/'), Ok(BubbleStatus::HalfFull));
    assert_eq!(BubbleStatus::parse('x'), Ok(BubbleStatus::Full));
}

#[test]
fn token_round_trip_for_all_statuses() {
    for status in ALL {
        assert_eq!(BubbleStatus::parse(status.token()), Ok(status));
        let text = status.token().to_string();
        assert_eq!(BubbleStatus::from_str(&text), Ok(status));
    }
}

#[test]
fn other_characters_are_invalid_tokens() {
    for token in ['X', 'O', ' ', '0', '\\', '!', 'y', '\u{25cf}'] {
        assert_eq!(BubbleStatus::parse(token), Err(BubbleError::InvalidToken));
    }
}

#[test]
fn text_must_be_exactly_one_token() {
    assert_eq!(BubbleStatus::from_str("x"), Ok(BubbleStatus::Full));
    assert_eq!(BubbleStatus::from_str("/"), Ok(BubbleStatus::HalfFull));
    assert_eq!(BubbleStatus::from_str("o"), Ok(BubbleStatus::Empty));
    assert_eq!(BubbleStatus::from_str("?"), Ok(BubbleStatus::Unknown));
    assert_eq!(BubbleStatus::from_str(""), Err(BubbleError::InvalidToken));
    assert_eq!(BubbleStatus::from_str("xx"), Err(BubbleError::InvalidToken));
    assert_eq!(BubbleStatus::from_str("x "), Err(BubbleError::InvalidToken));
    assert_eq!(BubbleStatus::from_str("full"), Err(BubbleError::InvalidToken));
    assert_eq!(BubbleStatus::from_str("\u{25cf}"), Err(BubbleError::InvalidToken));
}

#[test]
fn glyphs_are_the_four_circles() {
    assert_eq!(BubbleStatus::Empty.glyph(), '○');
    assert_eq!(BubbleStatus::HalfFull.glyph(), '◐');
    assert_eq!(BubbleStatus::Full.glyph(), '●');
    assert_eq!(BubbleStatus::Unknown.glyph(), '◌');
}

#[test]
fn to_string_is_the_glyph_alone() {
    assert_eq!(BubbleStatus::Empty.to_string(), "○");
    assert_eq!(BubbleStatus::HalfFull.to_string(), "◐");
    assert_eq!(BubbleStatus::Full.to_string(), "●");
    assert_eq!(BubbleStatus::Unknown.to_string(), "◌");
    for status in ALL {
        assert_eq!(status.to_string(), status.glyph().to_string());
    }
}

#[test]
fn a_glyph_is_not_a_token() {
    for status in ALL {
        assert_eq!(BubbleStatus::parse(status.glyph()), Err(BubbleError::InvalidToken));
    }
}

#[test]
fn tokens_and_glyphs_differ_between_statuses() {
    for a in ALL {
        for b in ALL {
            if a != b {
                assert_ne!(a.token(), b.token());
                assert_ne!(a.glyph(), b.glyph());
            }
        }
    }
}

#[test]
fn error_messages() {
    assert_eq!(BubbleError::InvalidToken.to_string(), "Bad bubble char");
    assert_eq!(BubbleError::DecodeError.to_string(), "Malformed payload");
    assert_eq!(BubbleError::StoreError.to_string(), "Store unavailable");
    assert_eq!(
        BubbleError::InputLengthError.to_string(),
        "Token count differs from entry count"
    );
    assert_eq!(BubbleError::InvariantViolation.to_string(), "Weekday not found in window");
}
