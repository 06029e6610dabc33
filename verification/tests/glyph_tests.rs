use dot_matrix::glyph::{
    andeq_displaypixels, DisplayCharacter, DisplayPixels, COMMA_PIXELS, DOT_PIXELS,
    UNKNOWN_PIXELS, W_PIXELS,
};
use dot_matrix::matrix::DisplayArr;
use dot_matrix::text::{DataField, GearPosition, Position, StaticText};

#[test]
fn encode_case_insensitive() {
    for (lower, upper) in (b'a'..=b'z').zip(b'A'..=b'Z') {
        let from_lower = DisplayCharacter::new_from_ascii(lower);
        let from_upper = DisplayCharacter::new_from_ascii(upper);
        assert_eq!(from_lower, from_upper);
        assert_eq!(
            from_lower.into_displaypixels(),
            from_upper.into_displaypixels()
        );
    }
}

#[test]
fn encode_deterministic() {
    for byte in [b'W', b'a', b'5', b'.', 0u8, 200u8] {
        assert_eq!(
            DisplayCharacter::new_from_ascii(byte),
            DisplayCharacter::new_from_ascii(byte)
        );
        assert_eq!(
            DisplayCharacter::new_from_ascii(byte).into_displaypixels(),
            DisplayCharacter::new_from_ascii(byte).into_displaypixels()
        );
    }
}

#[test]
fn encode_w_wide_reference() {
    let w = DisplayCharacter::new_from_ascii(b'W');
    assert_eq!(w, DisplayCharacter::Wide(W_PIXELS));
    let rows = w.into_displaypixels();
    let expected: [u128; 5] = [0b10001, 0b10001, 0b10101, 0b10101, 0b11011];
    for i in 0..5 {
        assert_eq!(rows[i], expected[i]);
        // Each populated row is exactly 5 bits wide.
        assert!(rows[i] >= 0b10000 && rows[i] <= 0b11111);
    }
    for i in 5..64 {
        assert_eq!(rows[i], 0);
    }
}

#[test]
fn placeholder_for_unsupported() {
    let placeholder = DisplayCharacter::Standard(UNKNOWN_PIXELS);
    for byte in [0x07u8, 0x00, 0x1f, b'$', b'"', b'_', b'+', 0x80, 200, 255] {
        assert_eq!(DisplayCharacter::new_from_ascii(byte), placeholder);
        assert_eq!(DisplayCharacter::new_from_ascii(byte), DisplayCharacter::new_from_ascii(byte));
    }
    assert_eq!(
        DisplayCharacter::new_from_ascii(0x07).into_displaypixels(),
        DisplayCharacter::new_from_ascii(200).into_displaypixels()
    );
}

#[test]
fn decode_standard_reference() {
    // 'A' is 111 / 101 / 111 / 101 / 101, top down.
    let rows = DisplayCharacter::new_from_ascii(b'A').into_displaypixels();
    let expected: [u128; 5] = [0b111, 0b101, 0b111, 0b101, 0b101];
    for i in 0..5 {
        assert_eq!(rows[i], expected[i]);
    }
    for i in 5..64 {
        assert_eq!(rows[i], 0);
    }
}

#[test]
fn decode_small_reference() {
    let dot = DisplayCharacter::new_from_ascii(b'.');
    assert_eq!(dot, DisplayCharacter::Small(DOT_PIXELS));
    let rows = dot.into_displaypixels();
    let expected: [u128; 3] = [0b11, 0b00, 0b11];
    for i in 0..3 {
        assert_eq!(rows[i], expected[i]);
    }
    for i in 3..64 {
        assert_eq!(rows[i], 0);
    }

    let comma = DisplayCharacter::new_from_ascii(b',');
    assert_eq!(comma, DisplayCharacter::Small(COMMA_PIXELS));
    let comma_rows = comma.into_displaypixels();
    assert_eq!(&comma_rows[0..3], &[0b11u128, 0b00, 0b01]);
}

#[test]
fn merge_displaypixels() {
    let a = DisplayCharacter::new_from_ascii(b'A').into_displaypixels();
    let w = DisplayCharacter::new_from_ascii(b'W').into_displaypixels();
    let mut merged: DisplayPixels = a;
    andeq_displaypixels(&mut merged, &w);
    for i in 0..64 {
        assert_eq!(merged[i], a[i] | w[i]);
    }
    // Merging the same frame again changes nothing.
    let snapshot = merged;
    andeq_displaypixels(&mut merged, &w);
    assert_eq!(merged, snapshot);
}

#[test]
fn glyph_rows_merge_into_matrix() {
    let rows = DisplayCharacter::new_from_ascii(b'A').into_displaypixels();
    let mut m = DisplayArr::new();
    for (i, row) in rows.iter().enumerate() {
        assert_eq!(m.oreq_row(i, *row), Ok(()));
    }
    for i in 0usize..64 {
        assert_eq!(m.row(i).unwrap(), rows[i]);
    }
}

#[test]
fn gear_positions_render() {
    let cases = [
        (GearPosition::Park, 'P'),
        (GearPosition::Reverse, 'R'),
        (GearPosition::Neutral, 'N'),
        (GearPosition::First, '1'),
        (GearPosition::Second, '2'),
        (GearPosition::Third, '3'),
        (GearPosition::Fourth, '4'),
    ];
    for (gear, expected) in cases {
        assert_eq!(gear.as_char(), expected);
    }
    let field = DataField::Gear(GearPosition::Park);
    assert!(matches!(field, DataField::Gear(GearPosition::Park)));
}

#[test]
fn static_text_len() {
    let text = StaticText {
        text: "R 42.5",
        position: &Position { x: 0, y: 0 },
    };
    assert_eq!(text.len(), 6);
}
