//! The 8x8 monochrome bitmap that every frame source produces and the
//! display driver serializes.

use vstd::prelude::*;

verus! {

/// Rows (and columns) of the matrix.
pub const SIDE: u8 = 8;

/// Every row of `rows` is zero: a blank frame.
pub open spec fn all_rows_zero(rows: Seq<u8>) -> bool {
    forall|i: int| 0 <= i < rows.len() ==> rows[i] == 0u8
}

/// The rows of a blank frame.
pub open spec fn blank_rows() -> Seq<u8> {
    Seq::new(SIDE as nat, |i: int| 0u8)
}

/// The bit mask of a single lit pixel in column `x`.
pub open spec fn dot_mask(x: u8) -> u8 {
    1u8 << x
}

/// The pixel at column `x` of row `y` is lit.
pub open spec fn pixel_lit(rows: Seq<u8>, x: u8, y: u8) -> bool {
    rows[y as int] & dot_mask(x) != 0
}

/// One 8x8 monochrome frame: index = row (top to bottom), bit `i` of a row
/// set means the pixel in column `i` of that row is lit.
pub struct Bitmap {
    rows: Vec<u8>,
}

impl View for Bitmap {
    type V = Seq<u8>;

    closed spec fn view(&self) -> Seq<u8> {
        self.rows@
    }
}

impl Bitmap {
    /// A bitmap always holds exactly one byte per row of the matrix.
    pub open spec fn wf(&self) -> bool {
        self@.len() == SIDE
    }

    /// A blank bitmap: all pixels off.
    pub fn new() -> (r: Bitmap)
        ensures
            r.wf(),
            all_rows_zero(r@),
    {
        let mut rows: Vec<u8> = Vec::new();
        let mut i: usize = 0;
        while i < 8
            invariant
                i <= 8,
                rows@.len() == i,
                all_rows_zero(rows@),
            decreases 8 - i,
        {
            rows.push(0);
            i += 1;
        }
        Bitmap { rows }
    }

    /// The column mask of row `y`.
    pub fn row(&self, y: u8) -> (r: u8)
        requires
            self.wf(),
            y < SIDE,
        ensures
            r == self@[y as int],
    {
        self.rows[y as usize]
    }

    /// Whether the pixel at column `x` of row `y` is lit.
    pub fn get(&self, x: u8, y: u8) -> (r: bool)
        requires
            self.wf(),
            x < SIDE,
            y < SIDE,
        ensures
            r == pixel_lit(self@, x, y),
    {
        (self.rows[y as usize] & (1u8 << x)) != 0
    }

    /// Replaces row `y` with the mask `v`.
    pub fn set_row(&mut self, y: u8, v: u8)
        requires
            old(self).wf(),
            y < SIDE,
        ensures
            final(self).wf(),
            final(self)@ == old(self)@.update(y as int, v),
    {
        self.rows[y as usize] = v;
    }

    /// Lights the pixel at column `x` of row `y`, leaving every other pixel
    /// as it was.
    pub fn plot(&mut self, x: u8, y: u8)
        requires
            old(self).wf(),
            x < SIDE,
            y < SIDE,
        ensures
            final(self).wf(),
            final(self)@ == old(self)@.update(y as int, old(self)@[y as int] | dot_mask(x)),
    {
        let row = self.rows[y as usize];
        self.rows[y as usize] = row | (1u8 << x);
    }

    /// Turns every pixel off.
    pub fn clear(&mut self)
        requires
            old(self).wf(),
        ensures
            final(self).wf(),
            all_rows_zero(final(self)@),
    {
        let mut i: usize = 0;
        while i < 8
            invariant
                i <= 8,
                self@.len() == SIDE,
                forall|j: int| 0 <= j < i ==> self@[j] == 0u8,
            decreases 8 - i,
        {
            self.rows[i] = 0;
            i += 1;
        }
    }
}

} // verus!
