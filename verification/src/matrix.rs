//! The display matrix: a fixed 64-row by 128-column grid of boolean pixels.
//!
//! A logical row is one 128-bit value, stored as two 64-bit halves: the left
//! half (the upper 64 bits) and the right half (the lower 64 bits). The two
//! banks of halves are kept in parallel arrays of 64 lanes so that bulk
//! boolean algebra touches each lane independently.

use vstd::prelude::*;

verus! {

/// Mathematical view of a matrix: the 64 logical rows, each one 128-bit value.
pub type RowsView = Seq<u128>;

/// The 128-bit row obtained by placing `hi` in the upper 64 bits and `lo` in
/// the lower 64 bits.
pub open spec fn spec_combine(hi: u64, lo: u64) -> u128 {
    ((hi as u128) << 64) | (lo as u128)
}

/// The upper 64 bits of a 128-bit row.
pub open spec fn spec_high(x: u128) -> u64 {
    (x >> 64) as u64
}

/// The lower 64 bits of a 128-bit row.
pub open spec fn spec_low(x: u128) -> u64 {
    (x & 0xffff_ffff_ffff_ffff) as u64
}

/// Bit `pos` of a 64-bit half, counting from the least significant bit.
pub open spec fn half_bit(h: u64, pos: u64) -> u64 {
    (h >> pos) & 1
}

/// The pixel of a 128-bit row addressed by column `c`: columns 0 to 63 index
/// the bits of the left (upper) half and columns 64 to 127 the bits of the
/// right (lower) half, each counted from its least significant bit.
pub open spec fn row_col_bit(row: u128, c: u64) -> u64 {
    if c < 64 {
        half_bit(spec_high(row), c)
    } else {
        half_bit(spec_low(row), (c - 64) as u64)
    }
}

/// The view of the all-zero matrix.
pub open spec fn empty_view() -> RowsView {
    Seq::new(64, |i: int| 0u128)
}

/// The view of the all-ones matrix.
pub open spec fn full_view() -> RowsView {
    Seq::new(64, |i: int| u128::MAX)
}

/// Splitting a row into halves and combining them again gives the row back.
pub proof fn lemma_split_combine(x: u128)
    ensures
        spec_combine(spec_high(x), spec_low(x)) == x,
{
    assert((((x >> 64) as u64 as u128) << 64) | ((x & 0xffff_ffff_ffff_ffff) as u64 as u128)
        == x) by (bit_vector);
}

/// Combining two halves and splitting the result gives both halves back.
pub proof fn lemma_combine_split(hi: u64, lo: u64)
    ensures
        spec_high(spec_combine(hi, lo)) == hi,
        spec_low(spec_combine(hi, lo)) == lo,
{
    assert(((((hi as u128) << 64) | (lo as u128)) >> 64) as u64 == hi) by (bit_vector);
    assert(((((hi as u128) << 64) | (lo as u128)) & 0xffff_ffff_ffff_ffff) as u64 == lo)
        by (bit_vector);
}

/// A single bit of a half is never more than one.
pub proof fn lemma_half_bit_le_one(h: u64, p: u64)
    by (bit_vector)
    ensures
        half_bit(h, p) <= 1,
{
}

/// Every bit of the zero half is clear.
pub proof fn lemma_zero_bits()
    by (bit_vector)
    ensures
        forall|j: u64| #![trigger half_bit(0u64, j)] half_bit(0u64, j) == 0,
{
}

/// OR-ing a single bit `b` into a clear position `k` sets exactly that
/// position to `b` and leaves every other position unchanged.
pub proof fn lemma_or_bit(o: u64, b: u64, k: u64)
    by (bit_vector)
    requires
        b <= 1,
        k < 64,
        half_bit(o, k) == 0,
    ensures
        half_bit(o | (b << k), k) == b,
        forall|j: u64|
            #![trigger half_bit(o | (b << k), j)]
            j < 64 && j != k ==> half_bit(o | (b << k), j) == half_bit(o, j),
{
}

/// The payload of a row- or column-index bounds error: the largest index the
/// operation accepts and the index that was actually passed.
#[derive(Clone, Copy, Debug, PartialEq, Eq, Structural)]
pub struct DisplayArrIndexError {
    pub expected: usize,
    pub actual: usize,
}

/// Error variants for the [`DisplayArr`] operations that take an index.
#[derive(Clone, Copy, Debug, PartialEq, Eq, Structural)]
pub enum DisplayArrErr {
    /// A row index outside `0..=63`.
    InvalidRowError(DisplayArrIndexError),
    /// A column index outside the addressed range.
    InvalidColumnError(DisplayArrIndexError),
}

/// The error returned for a row index `actual` beyond 63.
pub open spec fn row_error(actual: usize) -> DisplayArrErr {
    DisplayArrErr::InvalidRowError((DisplayArrIndexError { expected: 63, actual }))
}

/// The error returned for a column index `actual` beyond `expected`.
pub open spec fn column_error(expected: usize, actual: usize) -> DisplayArrErr {
    DisplayArrErr::InvalidColumnError((DisplayArrIndexError { expected, actual }))
}

impl DisplayArrErr {
    /// Builds the bounds error for an index that was found beyond its
    /// accepted maximum: a row error when `R` is true, a column error
    /// otherwise.
    pub fn idx_error<const R: bool>(expected: usize, actual: usize) -> (r: Self)
        requires
            actual > expected,
        ensures
            R ==> r == DisplayArrErr::InvalidRowError(
                (DisplayArrIndexError { expected, actual }),
            ),
            !R ==> r == DisplayArrErr::InvalidColumnError(
                (DisplayArrIndexError { expected, actual }),
            ),
    {
        if R {
            DisplayArrErr::InvalidRowError(DisplayArrIndexError { expected, actual })
        } else {
            DisplayArrErr::InvalidColumnError(DisplayArrIndexError { expected, actual })
        }
    }
}

/// The display matrix: 64 rows of 128 boolean pixels, stored as the two
/// parallel banks of 64-bit row halves.
#[derive(Clone, Copy, Debug)]
pub struct DisplayArr {
    left: [u64; 64],
    right: [u64; 64],
}

impl View for DisplayArr {
    type V = RowsView;

    /// A matrix is viewed as its 64 logical 128-bit rows.
    closed spec fn view(&self) -> RowsView {
        Seq::new(64, |i: int| spec_combine(self.left@[i], self.right@[i]))
    }
}

impl DisplayArr {
    /// The number of rows of every matrix.
    pub fn len() -> (n: usize)
        ensures
            n == 64,
    {
        64
    }

    /// Splits a 128-bit row into `(upper half, lower half)`.
    /// Inverse of [`DisplayArr::combine_u128`].
    pub fn split_u128(num: u128) -> (r: (u64, u64))
        ensures
            r.0 == spec_high(num),
            r.1 == spec_low(num),
    {
        proof {
            assert(num >> 64 <= 0xffff_ffff_ffff_ffff) by (bit_vector);
            assert((num & 0xffff_ffff_ffff_ffff) as u64 == num as u64) by (bit_vector);
        }
        ((num >> 64) as u64, #[verifier::truncate] (num as u64))
    }

    /// Combines an upper and a lower 64-bit half into one 128-bit row.
    /// Inverse of [`DisplayArr::split_u128`].
    pub fn combine_u128(a: u64, b: u64) -> (r: u128)
        ensures
            r == spec_combine(a, b),
    {
        ((a as u128) << 64) | (b as u128)
    }

    /// Creates a matrix where every row's left half is `left` and every row's
    /// right half is `right`.
    pub fn splat(left: u64, right: u64) -> (r: Self)
        ensures
            forall|i: int| 0 <= i < 64 ==> r@[i] == spec_combine(left, right),
    {
        DisplayArr { left: [left; 64], right: [right; 64] }
    }

    /// Creates the matrix with every pixel off.
    pub fn new() -> (r: Self)
        ensures
            r@ == empty_view(),
    {
        let r = Self::splat(0, 0);
        proof {
            assert(spec_combine(0, 0) == 0) by (bit_vector);
            assert(r@ =~= empty_view());
        }
        r
    }

    /// Creates the matrix with every pixel on.
    pub fn new_full() -> (r: Self)
        ensures
            r@ == full_view(),
    {
        let r = Self::splat(u64::MAX, u64::MAX);
        proof {
            assert(spec_combine(0xffff_ffff_ffff_ffff, 0xffff_ffff_ffff_ffff) == u128::MAX)
                by (bit_vector);
            assert(r@ =~= full_view());
        }
        r
    }

    /// Constructs a matrix from the two banks of row halves.
    pub fn new_from_halves(left: [u64; 64], right: [u64; 64]) -> (r: Self)
        ensures
            forall|i: int| 0 <= i < 64 ==> r@[i] == spec_combine(left@[i], right@[i]),
    {
        Self { left, right }
    }

    /// Constructs a matrix from its 64 logical 128-bit rows.
    pub fn new_from_array(array: [u128; 64]) -> (r: Self)
        ensures
            r@ == array@,
    {
        let mut leftarr = [0u64; 64];
        let mut rightarr = [0u64; 64];
        let mut i: usize = 0;

        while i < 64
            invariant
                i <= 64,
                forall|j: int| 0 <= j < i ==> leftarr@[j] == spec_high(array@[j]),
                forall|j: int| 0 <= j < i ==> rightarr@[j] == spec_low(array@[j]),
            decreases 64 - i,
        {
            let (hi, lo) = Self::split_u128(array[i]);
            leftarr[i] = hi;
            rightarr[i] = lo;
            i += 1;
        }
        let r = Self::new_from_halves(leftarr, rightarr);
        proof {
            assert forall|j: int| 0 <= j < 64 implies r@[j] == array@[j] by {
                lemma_split_combine(array@[j]);
            }
            assert(r@ =~= array@);
        }
        r
    }
}

/// The view after OR-ing the value `v` into row `i`.
pub open spec fn or_row(s: RowsView, i: int, v: u128) -> RowsView {
    s.update(i, s[i] | v)
}

/// The lane-wise AND of two views.
pub open spec fn mat_and(a: RowsView, b: RowsView) -> RowsView {
    Seq::new(a.len(), |i: int| a[i] & b[i])
}

/// The lane-wise OR of two views.
pub open spec fn mat_or(a: RowsView, b: RowsView) -> RowsView {
    Seq::new(a.len(), |i: int| a[i] | b[i])
}

/// The lane-wise XOR of two views.
pub open spec fn mat_xor(a: RowsView, b: RowsView) -> RowsView {
    Seq::new(a.len(), |i: int| a[i] ^ b[i])
}

/// The lane-wise complement of a view.
pub open spec fn mat_not(a: RowsView) -> RowsView {
    Seq::new(a.len(), |i: int| !a[i])
}

/// Every row shifted left by `n` bits, vacated bits zero-filled.
pub open spec fn mat_shl(a: RowsView, n: usize) -> RowsView {
    Seq::new(a.len(), |i: int| a[i] << n)
}

/// Every row shifted right by `n` bits, vacated bits zero-filled.
pub open spec fn mat_shr(a: RowsView, n: usize) -> RowsView {
    Seq::new(a.len(), |i: int| a[i] >> n)
}

/// The rows rotated down (towards higher indices) by `k` places.
pub open spec fn rot_down_view(s: RowsView, k: int) -> RowsView
    recommends
        0 <= k < s.len(),
{
    Seq::new(s.len(), |i: int| if i >= k { s[i - k] } else { s[i + s.len() - k] })
}

/// The rows rotated up (towards lower indices) by `k` places.
pub open spec fn rot_up_view(s: RowsView, k: int) -> RowsView
    recommends
        0 <= k < s.len(),
{
    Seq::new(s.len(), |i: int| if i + k < s.len() { s[i + k] } else { s[i + k - s.len() ] })
}

/// One 128-bit row rotated right by `k` bit positions.
pub open spec fn rotr_row(x: u128, k: u32) -> u128
    recommends
        k < 128,
{
    if k == 0 {
        x
    } else {
        (x >> k) | (x << (128 - k))
    }
}

/// One 128-bit row rotated left by `k` bit positions.
pub open spec fn rotl_row(x: u128, k: u32) -> u128
    recommends
        k < 128,
{
    if k == 0 {
        x
    } else {
        (x << k) | (x >> (128 - k))
    }
}

/// Every row rotated right by `k` bit positions.
pub open spec fn mat_rotr(a: RowsView, k: u32) -> RowsView {
    Seq::new(a.len(), |i: int| rotr_row(a[i], k))
}

/// Every row rotated left by `k` bit positions.
pub open spec fn mat_rotl(a: RowsView, k: u32) -> RowsView {
    Seq::new(a.len(), |i: int| rotl_row(a[i], k))
}

impl DisplayArr {
    /// Bit `position` of one 64-bit half, as 0 or 1, counted from the least
    /// significant bit. A column error if `position` is beyond 63.
    fn get_bit(number: u64, position: usize) -> (r: Result<u64, DisplayArrErr>)
        ensures
            position <= 63 ==> r == Ok::<u64, DisplayArrErr>(half_bit(number, position as u64)),
            position > 63 ==> r == Err::<u64, DisplayArrErr>(column_error(63, position)),
    {
        if position > 63 {
            return Err(DisplayArrErr::idx_error::<false>(63, position));
        }
        let mask = 1u64 << position;
        let output = (number & mask) >> position;
        proof {
            let p = position as u64;
            assert((number & (1u64 << p)) >> p == (number >> p) & 1) by (bit_vector)
                requires
                    p < 64,
            ;
        }
        Ok(output)
    }

    /// Row `idx` of the matrix, for an index already known to be in bounds.
    fn row_unchecked(&self, idx: usize) -> (r: u128)
        requires
            idx < 64,
        ensures
            r == self@[idx as int],
    {
        Self::combine_u128(self.left[idx], self.right[idx])
    }

    /// Replaces row `idx` of the matrix, for an index already known to be in
    /// bounds.
    fn set_row_unchecked(&mut self, idx: usize, src: u128)
        requires
            idx < 64,
        ensures
            final(self)@ == old(self)@.update(idx as int, src),
    {
        let (hi, lo) = Self::split_u128(src);
        self.left[idx] = hi;
        self.right[idx] = lo;
        proof {
            lemma_split_combine(src);
            assert(self@ =~= old(self)@.update(idx as int, src));
        }
    }

    /// One half of row `x`: the left (upper) half when `y` is false, the
    /// right (lower) half when `y` is true. A row error if `x` is beyond 63.
    fn row_half(&self, x: usize, y: bool) -> (r: Result<u64, DisplayArrErr>)
        ensures
            x <= 63 && !y ==> r == Ok::<u64, DisplayArrErr>(spec_high(self@[x as int])),
            x <= 63 && y ==> r == Ok::<u64, DisplayArrErr>(spec_low(self@[x as int])),
            x > 63 ==> r == Err::<u64, DisplayArrErr>(row_error(x)),
    {
        if x <= 63 {
            proof {
                lemma_combine_split(self.left@[x as int], self.right@[x as int]);
            }
            Ok(if !y { self.left[x] } else { self.right[x] })
        } else {
            Err(DisplayArrErr::idx_error::<true>(63, x))
        }
    }

    /// Row `idx` of the matrix, where 0 is the top row. A row error if `idx`
    /// is beyond 63.
    pub fn row(&self, idx: usize) -> (r: Result<u128, DisplayArrErr>)
        ensures
            idx <= 63 ==> r == Ok::<u128, DisplayArrErr>(self@[idx as int]),
            idx > 63 ==> r == Err::<u128, DisplayArrErr>(row_error(idx)),
    {
        if idx <= 63 {
            Ok(self.row_unchecked(idx))
        } else {
            Err(DisplayArrErr::idx_error::<true>(63, idx))
        }
    }

    /// Column `idx` of the matrix: a 64-bit value whose bit `r` is the pixel
    /// of row `r` in that column, built by extracting bit `idx` of every left
    /// half (or bit `idx - 64` of every right half). A column error if `idx`
    /// is beyond 127.
    pub fn column(&self, idx: usize) -> (r: Result<u64, DisplayArrErr>)
        ensures
            idx <= 127 ==> (r matches Ok(c) && forall|i: u64|
                i < 64 ==> half_bit(c, i) == row_col_bit(self@[i as int], idx as u64)),
            idx > 127 ==> r == Err::<u64, DisplayArrErr>(column_error(127, idx)),
    {
        if idx <= 63 {
            let mut output: u64 = 0;
            let mut i: usize = 0;
            proof {
                lemma_zero_bits();
            }
            while i < 64
                invariant
                    idx <= 63,
                    i <= 64,
                    forall|j: u64|
                        j < i ==> half_bit(output, j) == half_bit(
                            self.left@[j as int],
                            idx as u64,
                        ),
                    forall|j: u64| i <= j < 64 ==> half_bit(output, j) == 0,
                decreases 64 - i,
            {
                let b = match Self::get_bit(self.left[i], idx) {
                    Ok(b) => b,
                    Err(e) => return Err(e),
                };
                proof {
                    lemma_half_bit_le_one(self.left@[i as int], idx as u64);
                    lemma_or_bit(output, b, i as u64);
                }
                output = output | (b << i);
                i += 1;
            }
            proof {
                assert forall|i2: u64| i2 < 64 implies half_bit(output, i2) == row_col_bit(
                    self@[i2 as int],
                    idx as u64,
                ) by {
                    lemma_combine_split(self.left@[i2 as int], self.right@[i2 as int]);
                }
            }
            Ok(output)
        } else if idx <= 127 {
            let mut output: u64 = 0;
            let mut i: usize = 0;
            proof {
                lemma_zero_bits();
            }
            while i < 64
                invariant
                    64 <= idx <= 127,
                    i <= 64,
                    forall|j: u64|
                        j < i ==> half_bit(output, j) == half_bit(
                            self.right@[j as int],
                            (idx - 64) as u64,
                        ),
                    forall|j: u64| i <= j < 64 ==> half_bit(output, j) == 0,
                decreases 64 - i,
            {
                let b = match Self::get_bit(self.right[i], idx - 64) {
                    Ok(b) => b,
                    Err(e) => return Err(e),
                };
                proof {
                    lemma_half_bit_le_one(self.right@[i as int], (idx - 64) as u64);
                    lemma_or_bit(output, b, i as u64);
                }
                output = output | (b << i);
                i += 1;
            }
            proof {
                assert forall|i2: u64| i2 < 64 implies half_bit(output, i2) == row_col_bit(
                    self@[i2 as int],
                    idx as u64,
                ) by {
                    lemma_combine_split(self.left@[i2 as int], self.right@[i2 as int]);
                }
            }
            Ok(output)
        } else {
            Err(DisplayArrErr::idx_error::<false>(127, idx))
        }
    }

    /// The single boolean pixel at `(row_idx, column_idx)`. The row bound is
    /// checked first; a column beyond 127 is reported against the right
    /// half's bit range, with the half-local index.
    pub fn bit(&self, row_idx: usize, column_idx: usize) -> (r: Result<bool, DisplayArrErr>)
        ensures
            row_idx > 63 ==> r == Err::<bool, DisplayArrErr>(row_error(row_idx)),
            row_idx <= 63 && column_idx > 127 ==> r == Err::<bool, DisplayArrErr>(
                column_error(63, (column_idx - 64) as usize),
            ),
            row_idx <= 63 && column_idx <= 127 ==> r == Ok::<bool, DisplayArrErr>(
                row_col_bit(self@[row_idx as int], column_idx as u64) == 1,
            ),
    {
        let (column_idx_adj, half) = if column_idx > 63 {
            (column_idx - 64, true)
        } else {
            (column_idx, false)
        };
        let row_val: u64 = match self.row_half(row_idx, half) {
            Ok(v) => v,
            Err(e) => return Err(e),
        };
        let b = match Self::get_bit(row_val, column_idx_adj) {
            Ok(v) => v,
            Err(e) => return Err(e),
        };
        proof {
            lemma_half_bit_le_one(row_val, column_idx_adj as u64);
        }
        Ok(b != 0)
    }

    /// Replaces row `idx` wholesale. A row error, and no change, if `idx` is
    /// beyond 63.
    pub fn set_row(&mut self, idx: usize, src: u128) -> (r: Result<(), DisplayArrErr>)
        ensures
            idx <= 63 ==> r == Ok::<(), DisplayArrErr>(()) && final(self)@ == old(self)@.update(
                idx as int,
                src,
            ),
            idx > 63 ==> r == Err::<(), DisplayArrErr>(row_error(idx)) && final(self)@ == old(
                self,
            )@,
    {
        if idx <= 63 {
            self.set_row_unchecked(idx, src);
            Ok(())
        } else {
            Err(DisplayArrErr::idx_error::<true>(63, idx))
        }
    }

    /// Bitwise-ORs `src` into row `idx` in place, merging new pixels without
    /// clobbering the ones already set. A row error, and no change, if `idx`
    /// is beyond 63.
    pub fn oreq_row(&mut self, idx: usize, src: u128) -> (r: Result<(), DisplayArrErr>)
        ensures
            idx <= 63 ==> r == Ok::<(), DisplayArrErr>(()) && final(self)@ == or_row(
                old(self)@,
                idx as int,
                src,
            ),
            idx > 63 ==> r == Err::<(), DisplayArrErr>(row_error(idx)) && final(self)@ == old(
                self,
            )@,
    {
        if idx <= 63 {
            let merged = self.row_unchecked(idx) | src;
            self.set_row_unchecked(idx, merged);
            Ok(())
        } else {
            Err(DisplayArrErr::idx_error::<true>(63, idx))
        }
    }

    /// The lane-wise AND of two matrices.
    pub fn bitand(self, rhs: Self) -> (r: Self)
        ensures
            r@ == mat_and(self@, rhs@),
    {
        let mut output = Self::new();
        let mut i: usize = 0;
        while i < 64
            invariant
                i <= 64,
                forall|j: int| 0 <= j < i ==> output@[j] == (self@[j] & rhs@[j]),
            decreases 64 - i,
        {
            let v = self.row_unchecked(i) & rhs.row_unchecked(i);
            output.set_row_unchecked(i, v);
            i += 1;
        }
        proof {
            assert(output@ =~= mat_and(self@, rhs@));
        }
        output
    }

    /// Replaces `self` with the lane-wise AND of `self` and `rhs`.
    pub fn bitand_assign(&mut self, rhs: Self)
        ensures
            final(self)@ == mat_and(old(self)@, rhs@),
    {
        *self = (*self).bitand(rhs);
    }

    /// The lane-wise OR of two matrices.
    pub fn bitor(self, rhs: Self) -> (r: Self)
        ensures
            r@ == mat_or(self@, rhs@),
    {
        let mut output = Self::new();
        let mut i: usize = 0;
        while i < 64
            invariant
                i <= 64,
                forall|j: int| 0 <= j < i ==> output@[j] == (self@[j] | rhs@[j]),
            decreases 64 - i,
        {
            let v = self.row_unchecked(i) | rhs.row_unchecked(i);
            output.set_row_unchecked(i, v);
            i += 1;
        }
        proof {
            assert(output@ =~= mat_or(self@, rhs@));
        }
        output
    }

    /// Replaces `self` with the lane-wise OR of `self` and `rhs`.
    pub fn bitor_assign(&mut self, rhs: Self)
        ensures
            final(self)@ == mat_or(old(self)@, rhs@),
    {
        *self = (*self).bitor(rhs);
    }

    /// The lane-wise XOR of two matrices.
    pub fn bitxor(self, rhs: Self) -> (r: Self)
        ensures
            r@ == mat_xor(self@, rhs@),
    {
        let mut output = Self::new();
        let mut i: usize = 0;
        while i < 64
            invariant
                i <= 64,
                forall|j: int| 0 <= j < i ==> output@[j] == (self@[j] ^ rhs@[j]),
            decreases 64 - i,
        {
            let v = self.row_unchecked(i) ^ rhs.row_unchecked(i);
            output.set_row_unchecked(i, v);
            i += 1;
        }
        proof {
            assert(output@ =~= mat_xor(self@, rhs@));
        }
        output
    }

    /// Replaces `self` with the lane-wise XOR of `self` and `rhs`.
    pub fn bitxor_assign(&mut self, rhs: Self)
        ensures
            final(self)@ == mat_xor(old(self)@, rhs@),
    {
        *self = (*self).bitxor(rhs);
    }

    /// The lane-wise complement of a matrix.
    pub fn not(self) -> (r: Self)
        ensures
            r@ == mat_not(self@),
    {
        let mut output = Self::new();
        let mut i: usize = 0;
        while i < 64
            invariant
                i <= 64,
                forall|j: int| 0 <= j < i ==> output@[j] == !self@[j],
            decreases 64 - i,
        {
            let v = !self.row_unchecked(i);
            output.set_row_unchecked(i, v);
            i += 1;
        }
        proof {
            assert(output@ =~= mat_not(self@));
        }
        output
    }

    /// The lane-wise complement of a matrix; the same as [`DisplayArr::not`].
    pub fn neg(self) -> (r: Self)
        ensures
            r@ == mat_not(self@),
    {
        self.not()
    }

    /// Every row shifted left by `rhs` bits, independently per row, vacated
    /// bits zero-filled.
    pub fn shl(self, rhs: usize) -> (r: Self)
        requires
            rhs < 128,
        ensures
            r@ == mat_shl(self@, rhs),
    {
        let mut output = Self::new();
        let mut i: usize = 0;
        while i < 64
            invariant
                rhs < 128,
                i <= 64,
                forall|j: int| 0 <= j < i ==> output@[j] == (self@[j] << rhs),
            decreases 64 - i,
        {
            let v = self.row_unchecked(i) << rhs;
            output.set_row_unchecked(i, v);
            i += 1;
        }
        proof {
            assert(output@ =~= mat_shl(self@, rhs));
        }
        output
    }

    /// Shifts every row of `self` left by `rhs` bits in place.
    pub fn shl_assign(&mut self, rhs: usize)
        requires
            rhs < 128,
        ensures
            final(self)@ == mat_shl(old(self)@, rhs),
    {
        *self = (*self).shl(rhs);
    }

    /// Every row shifted right by `rhs` bits, independently per row, vacated
    /// bits zero-filled.
    pub fn shr(self, rhs: usize) -> (r: Self)
        requires
            rhs < 128,
        ensures
            r@ == mat_shr(self@, rhs),
    {
        let mut output = Self::new();
        let mut i: usize = 0;
        while i < 64
            invariant
                rhs < 128,
                i <= 64,
                forall|j: int| 0 <= j < i ==> output@[j] == (self@[j] >> rhs),
            decreases 64 - i,
        {
            let v = self.row_unchecked(i) >> rhs;
            output.set_row_unchecked(i, v);
            i += 1;
        }
        proof {
            assert(output@ =~= mat_shr(self@, rhs));
        }
        output
    }

    /// Shifts every row of `self` right by `rhs` bits in place.
    pub fn shr_assign(&mut self, rhs: usize)
        requires
            rhs < 128,
        ensures
            final(self)@ == mat_shr(old(self)@, rhs),
    {
        *self = (*self).shr(rhs);
    }

    /// Rotates the 64 row lanes down as a whole (vertical scroll), the amount
    /// taken modulo 64.
    pub fn rotate_rows_down(&mut self, n: usize)
        ensures
            final(self)@ == rot_down_view(old(self)@, (n as int) % 64),
    {
        let k: usize = n % 64;
        let src = *self;
        let mut i: usize = 0;
        while i < 64
            invariant
                k < 64,
                i <= 64,
                forall|j: int| 0 <= j < i ==> self@[j] == rot_down_view(src@, k as int)[j],
            decreases 64 - i,
        {
            let v = if i >= k {
                src.row_unchecked(i - k)
            } else {
                src.row_unchecked(i + 64 - k)
            };
            self.set_row_unchecked(i, v);
            i += 1;
        }
        proof {
            assert(self@ =~= rot_down_view(src@, k as int));
        }
    }

    /// Rotates the 64 row lanes up as a whole (vertical scroll), the amount
    /// taken modulo 64.
    pub fn rotate_rows_up(&mut self, n: usize)
        ensures
            final(self)@ == rot_up_view(old(self)@, (n as int) % 64),
    {
        let k: usize = n % 64;
        let src = *self;
        let mut i: usize = 0;
        while i < 64
            invariant
                k < 64,
                i <= 64,
                forall|j: int| 0 <= j < i ==> self@[j] == rot_up_view(src@, k as int)[j],
            decreases 64 - i,
        {
            let v = if i + k < 64 {
                src.row_unchecked(i + k)
            } else {
                src.row_unchecked(i + k - 64)
            };
            self.set_row_unchecked(i, v);
            i += 1;
        }
        proof {
            assert(self@ =~= rot_up_view(src@, k as int));
        }
    }

    /// Rotates all 128 columns right (horizontal scroll), applied identically
    /// to every row, the amount taken modulo 128. Costlier than a row
    /// rotation: every row is touched individually.
    pub fn rotate_rows_right(&mut self, idx: u32)
        ensures
            final(self)@ == mat_rotr(old(self)@, idx % 128),
    {
        let k: u32 = idx % 128;
        let mut i: usize = 0;
        while i < 64
            invariant
                k < 128,
                i <= 64,
                forall|j: int| 0 <= j < i ==> self@[j] == rotr_row(old(self)@[j], k),
                forall|j: int| i <= j < 64 ==> self@[j] == old(self)@[j],
            decreases 64 - i,
        {
            let cur = self.row_unchecked(i);
            let v = if k == 0 {
                cur
            } else {
                (cur >> k) | (cur << (128 - k))
            };
            self.set_row_unchecked(i, v);
            i += 1;
        }
        proof {
            assert(self@ =~= mat_rotr(old(self)@, k));
        }
    }

    /// Rotates all 128 columns left (horizontal scroll), applied identically
    /// to every row, the amount taken modulo 128. Costlier than a row
    /// rotation: every row is touched individually.
    pub fn rotate_rows_left(&mut self, idx: u32)
        ensures
            final(self)@ == mat_rotl(old(self)@, idx % 128),
    {
        let k: u32 = idx % 128;
        let mut i: usize = 0;
        while i < 64
            invariant
                k < 128,
                i <= 64,
                forall|j: int| 0 <= j < i ==> self@[j] == rotl_row(old(self)@[j], k),
                forall|j: int| i <= j < 64 ==> self@[j] == old(self)@[j],
            decreases 64 - i,
        {
            let cur = self.row_unchecked(i);
            let v = if k == 0 {
                cur
            } else {
                (cur << k) | (cur >> (128 - k))
            };
            self.set_row_unchecked(i, v);
            i += 1;
        }
        proof {
            assert(self@ =~= mat_rotl(old(self)@, k));
        }
    }
}

impl PartialEq for DisplayArr {
    /// Two matrices are equal exactly when both banks of halves are equal
    /// element-wise, which is when their row views are equal.
    fn eq(&self, other: &Self) -> (r: bool) {
        let mut i: usize = 0;
        while i < 64
            invariant
                i <= 64,
                forall|j: int| 0 <= j < i ==> self@[j] == other@[j],
            decreases 64 - i,
        {
            if self.left[i] != other.left[i] || self.right[i] != other.right[i] {
                proof {
                    lemma_combine_split(self.left@[i as int], self.right@[i as int]);
                    lemma_combine_split(other.left@[i as int], other.right@[i as int]);
                    assert(self@[i as int] != other@[i as int]);
                }
                return false;
            }
            i += 1;
        }
        proof {
            assert(self@ =~= other@);
        }
        true
    }
}

impl Eq for DisplayArr {

}

impl vstd::std_specs::cmp::PartialEqSpecImpl for DisplayArr {
    open spec fn obeys_eq_spec() -> bool {
        true
    }

    open spec fn eq_spec(&self, other: &Self) -> bool {
        self@ == other@
    }
}

/// For every row index in bounds, the full matrix's row is all ones and the
/// empty matrix's row is all zeros.
pub proof fn lemma_full_empty_rows(r: int)
    requires
        0 <= r < 64,
    ensures
        full_view()[r] == u128::MAX,
        empty_view()[r] == 0,
{
}

/// XOR-ing any matrix with itself clears every pixel.
pub proof fn lemma_xor_self_is_empty(a: RowsView)
    requires
        a.len() == 64,
    ensures
        mat_xor(a, a) == empty_view(),
{
    assert forall|i: int| 0 <= i < 64 implies mat_xor(a, a)[i] == empty_view()[i] by {
        let x = a[i];
        assert(x ^ x == 0) by (bit_vector);
    }
    assert(mat_xor(a, a) =~= empty_view());
}

/// AND-ing any matrix with the empty matrix gives the empty matrix.
pub proof fn lemma_and_empty_is_empty(a: RowsView)
    requires
        a.len() == 64,
    ensures
        mat_and(a, empty_view()) == empty_view(),
{
    assert forall|i: int| 0 <= i < 64 implies mat_and(a, empty_view())[i] == empty_view()[i] by {
        let x = a[i];
        assert(x & 0 == 0) by (bit_vector);
    }
    assert(mat_and(a, empty_view()) =~= empty_view());
}

/// OR-ing any matrix with the full matrix gives the full matrix.
pub proof fn lemma_or_full_is_full(a: RowsView)
    requires
        a.len() == 64,
    ensures
        mat_or(a, full_view()) == full_view(),
{
    assert forall|i: int| 0 <= i < 64 implies mat_or(a, full_view())[i] == full_view()[i] by {
        let x = a[i];
        assert(x | 0xffff_ffff_ffff_ffff_ffff_ffff_ffff_ffff == u128::MAX) by (bit_vector);
    }
    assert(mat_or(a, full_view()) =~= full_view());
}

/// Rotating the rows down by any amount and then up by the same amount gives
/// the original matrix back.
pub proof fn lemma_rotate_rows_round_trip(s: RowsView, k: int)
    requires
        s.len() == 64,
        0 <= k < 64,
    ensures
        rot_up_view(rot_down_view(s, k), k) == s,
{
    let d = rot_down_view(s, k);
    assert forall|i: int| 0 <= i < 64 implies rot_up_view(d, k)[i] == s[i] by {
        if i + k < 64 {
            assert(d[i + k] == s[i]);
        } else {
            assert(d[i + k - 64] == s[i]);
        }
    }
    assert(rot_up_view(d, k) =~= s);
}

/// OR-ing the same value into the same row twice leaves the matrix exactly as
/// OR-ing it once does.
pub proof fn lemma_oreq_row_idempotent(s: RowsView, i: int, v: u128)
    requires
        0 <= i < s.len(),
    ensures
        or_row(or_row(s, i, v), i, v) == or_row(s, i, v),
{
    let s1 = or_row(s, i, v);
    let x = s[i];
    assert((x | v) | v == x | v) by (bit_vector);
    assert(or_row(s1, i, v) =~= s1);
}

} // verus!
