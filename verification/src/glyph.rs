//! The glyph codec: each supported character's pixel grid packed into a
//! fixed-width integer, and the decoding of that integer back into per-row
//! pixel data.
//!
//! Three glyph shapes exist. A standard glyph is 5 rows by 3 columns and is
//! packed into a `u16`; a wide glyph is 5 rows by 5 columns in a `u32`; a
//! small glyph is 3 rows by 2 columns in a `u8`. In each case the top bit of
//! the integer is a reserved marker bit that decoding ignores, the content
//! bits follow row-major with the most significant content bit first, and any
//! remaining low-order bits are unused and zero.
//!
//! Decoding extracts rows top-down: row `i` is the `width` content bits of
//! that row, right-aligned into the low bits of the output row value, so the
//! glyph's leftmost pixel column sits in the most significant of the `width`
//! retained bits.

use vstd::prelude::*;

verus! {

/// The packed pixels of a 5 x 3 glyph, below a marker top bit.
pub type StandardCharacter = u16;

/// The packed pixels of a 5 x 5 glyph, below a marker top bit and above six
/// unused trailing zero bits.
pub type WideCharacter = u32;

/// The packed pixels of a 3 x 2 glyph, below a marker top bit and above one
/// unused trailing zero bit.
pub type SmallCharacter = u8;

/// One row of display pixels.
pub type DisplayLine = u128;

/// A full frame of display rows, padded to the matrix's 64 rows.
pub type DisplayPixels = [DisplayLine; 64];

pub const CHAR_LENGTH: usize = 5;
pub const CHAR_WIDTH: usize = 3;
pub const WIDECHAR_LENGTH: usize = 5;
pub const WIDECHAR_WIDTH: usize = 5;
pub const SMALLCHAR_LENGTH: usize = 3;
pub const SMALLCHAR_WIDTH: usize = 2;

pub const SPACE_PIXELS: StandardCharacter = 0b1000000000000000u16;
pub const EXCL_PIXELS: StandardCharacter = 0b1010010010000010u16;
pub const QUOTE_PIXELS: StandardCharacter = 0b1101101000000000u16;
pub const HASH_PIXELS: WideCharacter = 0b10101011111010101111101010000000u32;
pub const DOLLAR_PIXELS: WideCharacter = 0b10111010100011100010101110000000u32;
pub const AT_PIXELS: WideCharacter = 0b11111110001101111011011111000000u32;
pub const PERCENT_PIXELS: StandardCharacter = 0b1101001010100101u16;
pub const CARET_PIXELS: StandardCharacter = 0b1010101101000000u16;
pub const AMPERSAND_PIXELS: WideCharacter = 0b10110010000011011001001101000000u32;
pub const ASTERISK_PIXELS: StandardCharacter = 0b1101010101000000u16;
pub const LEFT_PAREN_PIXELS: StandardCharacter = 0b1001010010010001u16;
pub const RIGHT_PAREN_PIXELS: StandardCharacter = 0b1100010010010100u16;
pub const MINUS_PIXELS: StandardCharacter = 0b1000000111000000u16;
pub const A_PIXELS: StandardCharacter = 0b1111101111101101u16;
pub const B_PIXELS: StandardCharacter = 0b1110101110101110u16;
pub const C_PIXELS: StandardCharacter = 0b1111100100100111u16;
pub const D_PIXELS: StandardCharacter = 0b1110101101101110u16;
pub const E_PIXELS: StandardCharacter = 0b1111100111100111u16;
pub const F_PIXELS: StandardCharacter = 0b1111100111100100u16;
pub const G_PIXELS: StandardCharacter = 0b1111100101101111u16;
pub const H_PIXELS: StandardCharacter = 0b1101101111101101u16;
pub const I_PIXELS: StandardCharacter = 0b1111010010010111u16;
pub const J_PIXELS: StandardCharacter = 0b1111010010010110u16;
pub const K_PIXELS: StandardCharacter = 0b1101101110101101u16;
pub const L_PIXELS: StandardCharacter = 0b1100100100100111u16;
pub const M_PIXELS: WideCharacter = 0b11101110101101011000110001000000u32;
pub const N_PIXELS: StandardCharacter = 0b1110101101101101u16;
pub const O_PIXELS: StandardCharacter = 0b1111101101101111u16;
pub const P_PIXELS: StandardCharacter = 0b1111101111100100u16;
pub const Q_PIXELS: StandardCharacter = 0b1111101101111001u16;
pub const R_PIXELS: StandardCharacter = 0b1111101110101101u16;
pub const S_PIXELS: StandardCharacter = 0b1111100111001111u16;
pub const T_PIXELS: StandardCharacter = 0b1111010010010010u16;
pub const U_PIXELS: StandardCharacter = 0b1101101101101111u16;
pub const V_PIXELS: StandardCharacter = 0b1101101101101010u16;
pub const W_PIXELS: WideCharacter = 0b11000110001101011010111011000000u32;
pub const X_PIXELS: StandardCharacter = 0b1101101010101101u16;
pub const Y_PIXELS: StandardCharacter = 0b1101101101010010u16;
pub const Z_PIXELS: StandardCharacter = 0b1111001010100111u16;
pub const ZERO_PIXELS: StandardCharacter = 0b1111101101101111u16;
pub const ONE_PIXELS: StandardCharacter = 0b1110010010010111u16;
pub const TWO_PIXELS: StandardCharacter = 0b1111001011100111u16;
pub const THREE_PIXELS: StandardCharacter = 0b1111001111001111u16;
pub const FOUR_PIXELS: StandardCharacter = 0b1101101111001001u16;
pub const FIVE_PIXELS: StandardCharacter = 0b1111100111001110u16;
pub const SIX_PIXELS: StandardCharacter = 0b1111100111101111u16;
pub const SEVEN_PIXELS: StandardCharacter = 0b1111001010010010u16;
pub const EIGHT_PIXELS: StandardCharacter = 0b1111101111101111u16;
pub const NINE_PIXELS: StandardCharacter = 0b1111101111001001u16;
pub const SLASH_PIXELS: StandardCharacter = 0b0001001010100100u16;
pub const DOT_PIXELS: SmallCharacter = 0b01100110u8;
pub const COMMA_PIXELS: SmallCharacter = 0b01100010u8;

/// The fixed checkerboard placeholder pattern used for every byte outside the
/// supported character set.
pub const UNKNOWN_PIXELS: StandardCharacter = 0b1101010101010101u16;

/// The packed, shape-tagged pixel grid of one character.
#[derive(Clone, Copy, Debug, PartialEq, Eq, Structural)]
pub enum DisplayCharacter {
    Standard(StandardCharacter),
    Wide(WideCharacter),
    Small(SmallCharacter),
}

/// ASCII case folding: lowercase letters are mapped to their uppercase
/// counterpart, every other byte is left as it is.
pub open spec fn fold_byte(b: u8) -> u8 {
    if 97 <= b <= 122 {
        (b - 32) as u8
    } else {
        b
    }
}

/// Whether an already case-folded byte has a glyph of its own in the table.
pub open spec fn supported_folded(b: u8) -> bool {
    (65 <= b <= 90) || (48 <= b <= 57) || b == 47 || b == 46 || b == 44
        || b == 32 || b == 33 || b == 64 || b == 35 || b == 37 || b == 94
        || b == 38 || b == 42 || b == 40 || b == 41 || b == 45
}

/// Whether a byte belongs to the supported character set: encoding it gives a
/// glyph of its own rather than the placeholder.
pub open spec fn is_supported(b: u8) -> bool {
    supported_folded(fold_byte(b))
}

/// The glyph table, indexed by an already case-folded byte. Bytes outside the
/// supported set map to the placeholder glyph.
pub open spec fn glyph_of_folded(b: u8) -> DisplayCharacter {
    if b == 65 {
        DisplayCharacter::Standard(A_PIXELS)
    } else if b == 66 {
        DisplayCharacter::Standard(B_PIXELS)
    } else if b == 67 {
        DisplayCharacter::Standard(C_PIXELS)
    } else if b == 68 {
        DisplayCharacter::Standard(D_PIXELS)
    } else if b == 69 {
        DisplayCharacter::Standard(E_PIXELS)
    } else if b == 70 {
        DisplayCharacter::Standard(F_PIXELS)
    } else if b == 71 {
        DisplayCharacter::Standard(G_PIXELS)
    } else if b == 72 {
        DisplayCharacter::Standard(H_PIXELS)
    } else if b == 73 {
        DisplayCharacter::Standard(I_PIXELS)
    } else if b == 74 {
        DisplayCharacter::Standard(J_PIXELS)
    } else if b == 75 {
        DisplayCharacter::Standard(K_PIXELS)
    } else if b == 76 {
        DisplayCharacter::Standard(L_PIXELS)
    } else if b == 77 {
        DisplayCharacter::Wide(M_PIXELS)
    } else if b == 78 {
        DisplayCharacter::Standard(N_PIXELS)
    } else if b == 79 {
        DisplayCharacter::Standard(O_PIXELS)
    } else if b == 80 {
        DisplayCharacter::Standard(P_PIXELS)
    } else if b == 81 {
        DisplayCharacter::Standard(Q_PIXELS)
    } else if b == 82 {
        DisplayCharacter::Standard(R_PIXELS)
    } else if b == 83 {
        DisplayCharacter::Standard(S_PIXELS)
    } else if b == 84 {
        DisplayCharacter::Standard(T_PIXELS)
    } else if b == 85 {
        DisplayCharacter::Standard(U_PIXELS)
    } else if b == 86 {
        DisplayCharacter::Standard(V_PIXELS)
    } else if b == 87 {
        DisplayCharacter::Wide(W_PIXELS)
    } else if b == 88 {
        DisplayCharacter::Standard(X_PIXELS)
    } else if b == 89 {
        DisplayCharacter::Standard(Y_PIXELS)
    } else if b == 90 {
        DisplayCharacter::Standard(Z_PIXELS)
    } else if b == 48 {
        DisplayCharacter::Standard(ZERO_PIXELS)
    } else if b == 49 {
        DisplayCharacter::Standard(ONE_PIXELS)
    } else if b == 50 {
        DisplayCharacter::Standard(TWO_PIXELS)
    } else if b == 51 {
        DisplayCharacter::Standard(THREE_PIXELS)
    } else if b == 52 {
        DisplayCharacter::Standard(FOUR_PIXELS)
    } else if b == 53 {
        DisplayCharacter::Standard(FIVE_PIXELS)
    } else if b == 54 {
        DisplayCharacter::Standard(SIX_PIXELS)
    } else if b == 55 {
        DisplayCharacter::Standard(SEVEN_PIXELS)
    } else if b == 56 {
        DisplayCharacter::Standard(EIGHT_PIXELS)
    } else if b == 57 {
        DisplayCharacter::Standard(NINE_PIXELS)
    } else if b == 47 {
        DisplayCharacter::Standard(SLASH_PIXELS)
    } else if b == 46 {
        DisplayCharacter::Small(DOT_PIXELS)
    } else if b == 44 {
        DisplayCharacter::Small(COMMA_PIXELS)
    } else if b == 32 {
        DisplayCharacter::Standard(SPACE_PIXELS)
    } else if b == 33 {
        DisplayCharacter::Standard(EXCL_PIXELS)
    } else if b == 64 {
        DisplayCharacter::Wide(AT_PIXELS)
    } else if b == 35 {
        DisplayCharacter::Wide(HASH_PIXELS)
    } else if b == 37 {
        DisplayCharacter::Standard(PERCENT_PIXELS)
    } else if b == 94 {
        DisplayCharacter::Standard(CARET_PIXELS)
    } else if b == 38 {
        DisplayCharacter::Wide(AMPERSAND_PIXELS)
    } else if b == 42 {
        DisplayCharacter::Standard(ASTERISK_PIXELS)
    } else if b == 41 {
        DisplayCharacter::Standard(LEFT_PAREN_PIXELS)
    } else if b == 40 {
        DisplayCharacter::Standard(RIGHT_PAREN_PIXELS)
    } else if b == 45 {
        DisplayCharacter::Standard(MINUS_PIXELS)
    } else {
        DisplayCharacter::Standard(UNKNOWN_PIXELS)
    }
}

/// What encoding a byte yields: the table looked up after case folding.
pub open spec fn glyph_of_byte(b: u8) -> DisplayCharacter {
    glyph_of_folded(fold_byte(b))
}

/// Pixel row `i` of a standard glyph: its 3 content bits, right-aligned.
pub open spec fn standard_row(data: u16, i: int) -> u128
    recommends
        0 <= i < 5,
{
    ((data as u128) >> ((4 - i) * 3)) & 0x7
}

/// Pixel row `i` of a wide glyph: its 5 content bits, right-aligned, skipping
/// the six unused trailing bits.
pub open spec fn wide_row(data: u32, i: int) -> u128
    recommends
        0 <= i < 5,
{
    ((data as u128) >> ((4 - i) * 5 + 6)) & 0x1f
}

/// Pixel row `i` of a small glyph: its 2 content bits, right-aligned,
/// skipping the one unused trailing bit.
pub open spec fn small_row(data: u8, i: int) -> u128
    recommends
        0 <= i < 3,
{
    ((data as u128) >> ((2 - i) * 2 + 1)) & 0x3
}

/// Row `i` of the frame a glyph decodes to: the shape's row extraction for
/// the populated rows, zero for every padding row below them.
pub open spec fn glyph_row(g: DisplayCharacter, i: int) -> u128 {
    match g {
        DisplayCharacter::Standard(data) => if 0 <= i < 5 {
            standard_row(data, i)
        } else {
            0
        },
        DisplayCharacter::Wide(data) => if 0 <= i < 5 {
            wide_row(data, i)
        } else {
            0
        },
        DisplayCharacter::Small(data) => if 0 <= i < 3 {
            small_row(data, i)
        } else {
            0
        },
    }
}

impl DisplayCharacter {
    /// Encodes one ASCII byte as its glyph. Letters are case-folded first;
    /// every byte outside the supported set yields the fixed placeholder
    /// glyph. Total: no input fails.
    pub fn new_from_ascii(character: u8) -> (r: Self)
        ensures
            r == glyph_of_byte(character),
    {
        let folded: u8 = if character >= 97 && character <= 122 {
            character - 32
        } else {
            character
        };
        match folded {
            65 => Self::Standard(A_PIXELS),
            66 => Self::Standard(B_PIXELS),
            67 => Self::Standard(C_PIXELS),
            68 => Self::Standard(D_PIXELS),
            69 => Self::Standard(E_PIXELS),
            70 => Self::Standard(F_PIXELS),
            71 => Self::Standard(G_PIXELS),
            72 => Self::Standard(H_PIXELS),
            73 => Self::Standard(I_PIXELS),
            74 => Self::Standard(J_PIXELS),
            75 => Self::Standard(K_PIXELS),
            76 => Self::Standard(L_PIXELS),
            77 => Self::Wide(M_PIXELS),
            78 => Self::Standard(N_PIXELS),
            79 => Self::Standard(O_PIXELS),
            80 => Self::Standard(P_PIXELS),
            81 => Self::Standard(Q_PIXELS),
            82 => Self::Standard(R_PIXELS),
            83 => Self::Standard(S_PIXELS),
            84 => Self::Standard(T_PIXELS),
            85 => Self::Standard(U_PIXELS),
            86 => Self::Standard(V_PIXELS),
            87 => Self::Wide(W_PIXELS),
            88 => Self::Standard(X_PIXELS),
            89 => Self::Standard(Y_PIXELS),
            90 => Self::Standard(Z_PIXELS),
            48 => Self::Standard(ZERO_PIXELS),
            49 => Self::Standard(ONE_PIXELS),
            50 => Self::Standard(TWO_PIXELS),
            51 => Self::Standard(THREE_PIXELS),
            52 => Self::Standard(FOUR_PIXELS),
            53 => Self::Standard(FIVE_PIXELS),
            54 => Self::Standard(SIX_PIXELS),
            55 => Self::Standard(SEVEN_PIXELS),
            56 => Self::Standard(EIGHT_PIXELS),
            57 => Self::Standard(NINE_PIXELS),
            47 => Self::Standard(SLASH_PIXELS),
            46 => Self::Small(DOT_PIXELS),
            44 => Self::Small(COMMA_PIXELS),
            32 => Self::Standard(SPACE_PIXELS),
            33 => Self::Standard(EXCL_PIXELS),
            64 => Self::Wide(AT_PIXELS),
            35 => Self::Wide(HASH_PIXELS),
            37 => Self::Standard(PERCENT_PIXELS),
            94 => Self::Standard(CARET_PIXELS),
            38 => Self::Wide(AMPERSAND_PIXELS),
            42 => Self::Standard(ASTERISK_PIXELS),
            41 => Self::Standard(LEFT_PAREN_PIXELS),
            40 => Self::Standard(RIGHT_PAREN_PIXELS),
            45 => Self::Standard(MINUS_PIXELS),
            _ => Self::Standard(UNKNOWN_PIXELS),
        }
    }

    /// Decodes a glyph into the full frame of row bit-patterns: the populated
    /// rows carry the glyph's pixels, the remaining rows are zero, so the
    /// frame can be OR-merged straight into a display matrix. Total: a pure,
    /// deterministic function of the glyph value.
    pub fn into_displaypixels(self) -> (r: DisplayPixels)
        ensures
            forall|i: int| #![trigger r@[i]] 0 <= i < 64 ==> r@[i] == glyph_row(self, i),
    {
        let mut output: DisplayPixels = [0u128; 64];
        let mut i: usize = 0;

        match self {
            Self::Standard(data) => {
                while i < CHAR_LENGTH
                    invariant
                        i <= 5,
                        forall|j: int| 0 <= j < i ==> output@[j] == standard_row(data, j),
                        forall|j: int| i <= j < 64 ==> output@[j] == 0,
                    decreases 5 - i,
                {
                    let sh: u32 = ((CHAR_LENGTH - (i + 1)) * CHAR_WIDTH) as u32;
                    let x: u128 = ((data as u128) >> sh) & 0x7;
                    output[i] = x;
                    i += 1;
                }
                proof {
                    assert(forall|j: int| 0 <= j < 64 ==> output@[j] == glyph_row(self, j));
                }
            },
            Self::Wide(data) => {
                while i < WIDECHAR_LENGTH
                    invariant
                        i <= 5,
                        forall|j: int| 0 <= j < i ==> output@[j] == wide_row(data, j),
                        forall|j: int| i <= j < 64 ==> output@[j] == 0,
                    decreases 5 - i,
                {
                    let sh: u32 = (((WIDECHAR_LENGTH - (i + 1)) * WIDECHAR_WIDTH) + 6) as u32;
                    let x: u128 = ((data as u128) >> sh) & 0x1f;
                    output[i] = x;
                    i += 1;
                }
                proof {
                    assert(forall|j: int| 0 <= j < 64 ==> output@[j] == glyph_row(self, j));
                }
            },
            Self::Small(data) => {
                while i < SMALLCHAR_LENGTH
                    invariant
                        i <= 3,
                        forall|j: int| 0 <= j < i ==> output@[j] == small_row(data, j),
                        forall|j: int| i <= j < 64 ==> output@[j] == 0,
                    decreases 3 - i,
                {
                    let sh: u32 = (((SMALLCHAR_LENGTH - (i + 1)) * SMALLCHAR_WIDTH) + 1) as u32;
                    let x: u128 = ((data as u128) >> sh) & 0x3;
                    output[i] = x;
                    i += 1;
                }
                proof {
                    assert(forall|j: int| 0 <= j < 64 ==> output@[j] == glyph_row(self, j));
                }
            },
        }
        output
    }
}

/// OR-merges a frame of decoded rows into a destination frame in place,
/// row by row, without clobbering pixels already set.
pub fn andeq_displaypixels(dest: &mut DisplayPixels, src: &DisplayPixels)
    ensures
        forall|j: int| 0 <= j < 64 ==> final(dest)@[j] == (old(dest)@[j] | src@[j]),
{
    let ghost dest0: DisplayPixels = *dest;
    let mut i: usize = 0;
    while i < 64
        invariant
            i <= 64,
            forall|j: int| 0 <= j < i ==> dest@[j] == (dest0@[j] | src@[j]),
            forall|j: int| i <= j < 64 ==> dest@[j] == dest0@[j],
        decreases 64 - i,
    {
        let v = dest[i] | src[i];
        dest[i] = v;
        i += 1;
    }
}

/// Encoding is case-insensitive: a lowercase letter encodes to the very same
/// glyph as its uppercase counterpart.
pub proof fn lemma_encode_case_fold(b: u8)
    requires
        97 <= b <= 122,
    ensures
        glyph_of_byte(b) == glyph_of_byte((b - 32) as u8),
{
}

/// Encoding is deterministic: the glyph is a function of the input byte
/// alone, so two calls on the same byte yield bit-identical payloads.
pub proof fn lemma_encode_deterministic(a: u8, b: u8)
    requires
        a == b,
    ensures
        glyph_of_byte(a) == glyph_of_byte(b),
{
}

/// Every decoded row fits its glyph's width: a standard glyph's rows hold 3
/// content bits, a wide glyph's 5, a small glyph's 2, and nothing above them.
pub proof fn lemma_glyph_rows_fit_shape(g: DisplayCharacter, i: int)
    ensures
        g matches DisplayCharacter::Standard(_) ==> glyph_row(g, i) < 8,
        g matches DisplayCharacter::Wide(_) ==> glyph_row(g, i) < 32,
        g matches DisplayCharacter::Small(_) ==> glyph_row(g, i) < 4,
{
    match g {
        DisplayCharacter::Standard(data) => {
            if 0 <= i < 5 {
                let y = (data as u128) >> ((4 - i) * 3);
                assert(y & 0x7 < 8) by (bit_vector);
            }
        },
        DisplayCharacter::Wide(data) => {
            if 0 <= i < 5 {
                let y = (data as u128) >> ((4 - i) * 5 + 6);
                assert(y & 0x1f < 32) by (bit_vector);
            }
        },
        DisplayCharacter::Small(data) => {
            if 0 <= i < 3 {
                let y = (data as u128) >> ((2 - i) * 2 + 1);
                assert(y & 0x3 < 4) by (bit_vector);
            }
        },
    }
}

/// Every byte outside the supported set — and each of them, whichever it is —
/// encodes to the one fixed placeholder glyph.
pub proof fn lemma_unsupported_is_placeholder(b: u8)
    requires
        !is_supported(b),
    ensures
        glyph_of_byte(b) == DisplayCharacter::Standard(UNKNOWN_PIXELS),
{
}

} // verus!
