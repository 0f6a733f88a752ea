//! Terminal dimensions in character cells.

use portable_pty::PtySize as NativeSize;
use vstd::prelude::*;

verus! {

#[verifier::external_type_specification]
pub struct ExNativeSize(NativeSize);

/// Rows and columns of a terminal.
#[derive(Clone, Copy, Debug, PartialEq, Eq, Structural)]
pub struct PtySize {
    pub rows: u16,
    pub cols: u16,
}

/// Rows of the size a terminal starts with when none is given.
pub const DEFAULT_ROWS: u16 = 24;

/// Columns of the size a terminal starts with when none is given.
pub const DEFAULT_COLS: u16 = 80;

impl Default for PtySize {
    fn default() -> (r: PtySize)
        ensures
            r.rows == 24,
            r.cols == 80,
    {
        PtySize { rows: DEFAULT_ROWS, cols: DEFAULT_COLS }
    }
}

impl PtySize {
    /// The same dimensions in the form the native terminal layer takes; the
    /// pixel dimensions are left unset (zero).
    pub fn to_native(self) -> (r: NativeSize)
        ensures
            r.rows == self.rows,
            r.cols == self.cols,
            r.pixel_width == 0,
            r.pixel_height == 0,
    {
        NativeSize { rows: self.rows, cols: self.cols, pixel_width: 0, pixel_height: 0 }
    }
}

} // verus!
