//! Window geometry: the terminal's visible size in rows and columns.

use vstd::prelude::*;

verus! {

/// Rows used when the terminal cannot report its size.
pub const DEFAULT_ROWS: u16 = 24;

/// Columns used when the terminal cannot report its size.
pub const DEFAULT_COLS: u16 = 80;

/// The visible size of the terminal window.
#[derive(Clone, Copy, Debug, PartialEq, Eq, Structural)]
pub struct Geometry {
    pub rows: u16,
    pub cols: u16,
}

impl Geometry {
    /// A geometry is usable when it has at least one row and one column.
    pub open spec fn wf(self) -> bool {
        self.rows >= 1 && self.cols >= 1
    }

    /// The fallback size, 80 columns by 24 rows.
    pub fn fallback() -> (r: Geometry)
        ensures
            r.rows == DEFAULT_ROWS,
            r.cols == DEFAULT_COLS,
            r.wf(),
    {
        Geometry { rows: DEFAULT_ROWS, cols: DEFAULT_COLS }
    }

    /// Geometry from the result of a size query: the reported size when the
    /// query succeeded with a usable size, the fallback otherwise.
    pub fn from_probe(probe: Option<(u16, u16)>) -> (r: Geometry)
        ensures
            r.wf(),
            match probe {
                Some((rows, cols)) => if rows >= 1 && cols >= 1 {
                    r.rows == rows && r.cols == cols
                } else {
                    r.rows == DEFAULT_ROWS && r.cols == DEFAULT_COLS
                },
                None => r.rows == DEFAULT_ROWS && r.cols == DEFAULT_COLS,
            },
    {
        match probe {
            Some((rows, cols)) => {
                if rows >= 1 && cols >= 1 {
                    Geometry { rows, cols }
                } else {
                    Geometry::fallback()
                }
            },
            None => Geometry::fallback(),
        }
    }
}

} // verus!
