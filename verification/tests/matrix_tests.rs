use dot_matrix::matrix::{DisplayArr, DisplayArrErr, DisplayArrIndexError};
use std::cell::LazyCell;

const TEST_U128: u128 = 0x0123456789abcdefu128;
const UPPER_U64: u64 = (TEST_U128 << 64) as u64;
const LOWER_U64: u64 = TEST_U128 as u64;

#[test]
fn u128_split() {
    assert_eq!((UPPER_U64, LOWER_U64), DisplayArr::split_u128(TEST_U128));
}

#[test]
fn u128_combine() {
    assert_eq!(TEST_U128, DisplayArr::combine_u128(UPPER_U64, LOWER_U64));
}

#[test]
fn displayarr_creation() {
    let empty_displayarr = DisplayArr::new();
    let full_displayarr = DisplayArr::new_full();
    let empty = LazyCell::new(|| DisplayArr::new());
    let full = LazyCell::new(|| DisplayArr::new_full());
    assert_eq!(empty_displayarr, *empty);
    assert_eq!(full_displayarr, *full);
    assert_ne!(full_displayarr, empty_displayarr);
    assert_ne!(*empty, *full);
}

#[test]
fn displayarr_row_column_idents() {
    let empty_displayarr = DisplayArr::new();
    let full_displayarr = DisplayArr::new_full();
    for i in 0usize..=63usize {
        assert_eq!(full_displayarr.row(i).unwrap(), u128::MAX);
        assert_eq!(empty_displayarr.row(i).unwrap(), 0u128);
    }

    assert!(full_displayarr.row(64).is_err());
    assert!(empty_displayarr.row(64).is_err());
    for i in 0usize..=127usize {
        assert_eq!(full_displayarr.column(i).unwrap(), u64::MAX);
        assert_eq!(empty_displayarr.column(i).unwrap(), 0u64);
    }

    assert!(full_displayarr.column(128).is_err());
    assert!(empty_displayarr.column(128).is_err());
}

#[test]
fn displayarr_row_ops() {
    const EXPECTED_VAL: u128 = 128 << 64;
    let test = DisplayArr::splat(128u64, 0u64);
    for x in 0..128 {
        for i in 0usize..64 {
            assert_eq!(
                test.row(i).unwrap() << x,
                EXPECTED_VAL << x,
                "err row {:} shift {:} op {}",
                i,
                x,
                "<<"
            );
        }
    }

    for x in 0..128 {
        for i in 0usize..64 {
            assert_eq!(
                test.row(i).unwrap() >> x,
                EXPECTED_VAL >> x,
                "err row {:} shift {:} op {}",
                i,
                x,
                ">>"
            );
        }
    }

    assert_eq!(test.bitxor(test), DisplayArr::new());
    assert_ne!(test.bitxor(test), test);
}

/// A matrix whose 64 rows all differ, for tests that must notice any row
/// moving or changing.
fn distinct_rows() -> DisplayArr {
    let mut rows = [0u128; 64];
    let mut i: usize = 0;
    while i < 64 {
        rows[i] = ((i as u128) << 64) | (0xf00d_0000_0000_0000u128 | i as u128);
        i += 1;
    }
    DisplayArr::new_from_array(rows)
}

#[test]
fn split_combine_round_trip_high_bits() {
    let x: u128 = 0xdead_beef_cafe_f00d_0123_4567_89ab_cdefu128;
    let (hi, lo) = DisplayArr::split_u128(x);
    assert_eq!(hi, 0xdead_beef_cafe_f00du64);
    assert_eq!(lo, 0x0123_4567_89ab_cdefu64);
    assert_eq!(DisplayArr::combine_u128(hi, lo), x);
    let (hi2, lo2) = DisplayArr::split_u128(DisplayArr::combine_u128(42, 7));
    assert_eq!((hi2, lo2), (42, 7));
}

#[test]
fn boolean_identities() {
    let m = distinct_rows();
    assert_eq!(m.bitxor(m), DisplayArr::new());
    assert_eq!(m.bitand(DisplayArr::new()), DisplayArr::new());
    assert_eq!(m.bitor(DisplayArr::new_full()), DisplayArr::new_full());
}

#[test]
fn boolean_assign_ops() {
    let m = distinct_rows();
    let mut a = m;
    a.bitxor_assign(m);
    assert_eq!(a, DisplayArr::new());
    let mut b = m;
    b.bitand_assign(DisplayArr::new_full());
    assert_eq!(b, m);
    let mut c = m;
    c.bitor_assign(DisplayArr::new());
    assert_eq!(c, m);
}

#[test]
fn not_and_neg_complement() {
    assert_eq!(DisplayArr::new().not(), DisplayArr::new_full());
    assert_eq!(DisplayArr::new_full().neg(), DisplayArr::new());
    let m = distinct_rows();
    assert_eq!(m.not().not(), m);
}

#[test]
fn rotate_rows_round_trip() {
    let m = distinct_rows();
    for n in [0usize, 1, 5, 63, 64, 70, 1000] {
        let mut r = m;
        r.rotate_rows_down(n);
        r.rotate_rows_up(n);
        assert_eq!(r, m);
    }
}

#[test]
fn rotate_rows_moves_lanes() {
    let m = distinct_rows();
    let mut down = m;
    down.rotate_rows_down(3);
    for i in 0usize..64 {
        assert_eq!(down.row(i).unwrap(), m.row((i + 64 - 3) % 64).unwrap());
    }
    let mut up = m;
    up.rotate_rows_up(3);
    for i in 0usize..64 {
        assert_eq!(up.row(i).unwrap(), m.row((i + 3) % 64).unwrap());
    }
}

#[test]
fn rotate_columns_round_trip() {
    let m = distinct_rows();
    let mut r = m;
    r.rotate_rows_right(17);
    r.rotate_rows_left(17);
    assert_eq!(r, m);
    let mut full_turn = m;
    full_turn.rotate_rows_right(128);
    assert_eq!(full_turn, m);
}

#[test]
fn rotate_columns_rotates_each_row() {
    let m = distinct_rows();
    let mut r = m;
    r.rotate_rows_right(9);
    for i in 0usize..64 {
        assert_eq!(r.row(i).unwrap(), m.row(i).unwrap().rotate_right(9));
    }
    let mut l = m;
    l.rotate_rows_left(9);
    for i in 0usize..64 {
        assert_eq!(l.row(i).unwrap(), m.row(i).unwrap().rotate_left(9));
    }
}

#[test]
fn shift_left_right_rows() {
    let m = DisplayArr::splat(0, 1);
    let shifted = m.shl(64);
    for i in 0usize..64 {
        assert_eq!(shifted.row(i).unwrap(), 1u128 << 64);
    }
    let back = shifted.shr(64);
    assert_eq!(back, m);
    let mut a = m;
    a.shl_assign(127);
    for i in 0usize..64 {
        assert_eq!(a.row(i).unwrap(), 1u128 << 127);
    }
    let mut b = a;
    b.shr_assign(127);
    assert_eq!(b, m);
}

#[test]
fn set_row_and_oreq_row() {
    let mut m = DisplayArr::new();
    assert_eq!(m.set_row(10, 0xff00_0000_0000_0000_0000_0000_0000_00ffu128), Ok(()));
    assert_eq!(m.row(10).unwrap(), 0xff00_0000_0000_0000_0000_0000_0000_00ffu128);
    assert_eq!(m.row(9).unwrap(), 0);
    assert_eq!(m.oreq_row(10, 0x0000_0000_0000_0000_0000_0000_0000_ff00u128), Ok(()));
    assert_eq!(m.row(10).unwrap(), 0xff00_0000_0000_0000_0000_0000_0000_ffffu128);
}

#[test]
fn oreq_row_idempotent() {
    let mut once = distinct_rows();
    let v: u128 = 0x1234_5678_9abc_def0_0fed_cba9_8765_4321u128;
    assert_eq!(once.oreq_row(7, v), Ok(()));
    let mut twice = distinct_rows();
    assert_eq!(twice.oreq_row(7, v), Ok(()));
    assert_eq!(twice.oreq_row(7, v), Ok(()));
    assert_eq!(once, twice);
}

#[test]
fn row_error_payload() {
    let m = distinct_rows();
    assert_eq!(
        m.row(64),
        Err(DisplayArrErr::InvalidRowError(DisplayArrIndexError {
            expected: 63,
            actual: 64,
        }))
    );
    let mut w = m;
    assert_eq!(
        w.set_row(100, 0),
        Err(DisplayArrErr::InvalidRowError(DisplayArrIndexError {
            expected: 63,
            actual: 100,
        }))
    );
    assert_eq!(w, m);
    assert_eq!(
        w.oreq_row(64, 1),
        Err(DisplayArrErr::InvalidRowError(DisplayArrIndexError {
            expected: 63,
            actual: 64,
        }))
    );
    assert_eq!(w, m);
}

#[test]
fn column_error_payload() {
    let m = distinct_rows();
    assert_eq!(
        m.column(128),
        Err(DisplayArrErr::InvalidColumnError(DisplayArrIndexError {
            expected: 127,
            actual: 128,
        }))
    );
    assert_eq!(
        m.bit(0, 128),
        Err(DisplayArrErr::InvalidColumnError(DisplayArrIndexError {
            expected: 63,
            actual: 64,
        }))
    );
    assert_eq!(
        m.bit(64, 0),
        Err(DisplayArrErr::InvalidRowError(DisplayArrIndexError {
            expected: 63,
            actual: 64,
        }))
    );
}

#[test]
fn column_extracts_half_bits() {
    let mut m = DisplayArr::new();
    // Left-half bit 5 of rows 0 and 63, right-half bit 60 of row 1.
    let row_with_left_bit: u128 = DisplayArr::combine_u128(1u64 << 5, 0);
    let row_with_right_bit: u128 = DisplayArr::combine_u128(0, 1u64 << 60);
    assert_eq!(m.set_row(0, row_with_left_bit), Ok(()));
    assert_eq!(m.set_row(63, row_with_left_bit), Ok(()));
    assert_eq!(m.set_row(1, row_with_right_bit), Ok(()));

    // Column 5 addresses left-half bit 5; its bit r mirrors row r.
    assert_eq!(m.column(5).unwrap(), (1u64 << 0) | (1u64 << 63));
    // Column 124 addresses right-half bit 60.
    assert_eq!(m.column(124).unwrap(), 1u64 << 1);
    // Other columns stay clear.
    assert_eq!(m.column(6).unwrap(), 0);
    assert_eq!(m.column(64).unwrap(), 0);
}

#[test]
fn bit_reads_single_pixels() {
    let mut m = DisplayArr::new();
    let row_val = DisplayArr::combine_u128(1u64 << 5, 1u64 << 60);
    assert_eq!(m.set_row(2, row_val), Ok(()));
    assert_eq!(m.bit(2, 5), Ok(true));
    assert_eq!(m.bit(2, 124), Ok(true));
    assert_eq!(m.bit(2, 6), Ok(false));
    assert_eq!(m.bit(3, 5), Ok(false));
    assert_eq!(m.bit(2, 127), Ok(false));
}

#[test]
fn new_from_array_and_halves() {
    let mut rows = [0u128; 64];
    for (i, row) in rows.iter_mut().enumerate() {
        *row = (i as u128) * 3 + ((i as u128) << 100);
    }
    let m = DisplayArr::new_from_array(rows);
    for i in 0usize..64 {
        assert_eq!(m.row(i).unwrap(), rows[i]);
    }

    let left = [0xaaaa_aaaa_aaaa_aaaau64; 64];
    let right = [0x5555_5555_5555_5555u64; 64];
    let h = DisplayArr::new_from_halves(left, right);
    for i in 0usize..64 {
        assert_eq!(
            h.row(i).unwrap(),
            0xaaaa_aaaa_aaaa_aaaa_5555_5555_5555_5555u128
        );
    }
}

#[test]
fn matrix_len() {
    assert_eq!(DisplayArr::len(), 64);
}
