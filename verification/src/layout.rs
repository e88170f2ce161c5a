use vstd::prelude::*;

verus! {

/// Physical storage description of a dense matrix: the logical row and column
/// counts together with the order in which the buffer stores them.
#[derive(Clone, Copy, Debug, PartialEq, Eq, Structural)]
pub enum MatrixLayout {
    RowMajor { rows: i32, cols: i32 },
    ColumnMajor { rows: i32, cols: i32 },
}

impl MatrixLayout {
    /// Logical row count.
    pub open spec fn rows_spec(self) -> int {
        match self {
            MatrixLayout::RowMajor { rows, .. } => rows as int,
            MatrixLayout::ColumnMajor { rows, .. } => rows as int,
        }
    }

    /// Logical column count.
    pub open spec fn cols_spec(self) -> int {
        match self {
            MatrixLayout::RowMajor { cols, .. } => cols as int,
            MatrixLayout::ColumnMajor { cols, .. } => cols as int,
        }
    }

    /// A layout is well formed when both dimensions are non-negative.
    pub open spec fn wf(self) -> bool {
        0 <= self.rows_spec() && 0 <= self.cols_spec()
    }

    /// The stride between consecutive columns when the buffer is read in
    /// column-major order: the row count for column-major storage, and the
    /// column count for row-major storage, because a row-major buffer reread
    /// as column-major holds the transposed matrix.
    pub open spec fn leading_dimension_spec(self) -> int {
        match self {
            MatrixLayout::RowMajor { cols, .. } => cols as int,
            MatrixLayout::ColumnMajor { rows, .. } => rows as int,
        }
    }

    /// The dimension that `leading_dimension_spec` does not cover.
    pub open spec fn other_dimension_spec(self) -> int {
        match self {
            MatrixLayout::RowMajor { rows, .. } => rows as int,
            MatrixLayout::ColumnMajor { cols, .. } => cols as int,
        }
    }

    pub fn rows(&self) -> (r: i32)
        ensures
            r == self.rows_spec(),
    {
        match self {
            MatrixLayout::RowMajor { rows, .. } => *rows,
            MatrixLayout::ColumnMajor { rows, .. } => *rows,
        }
    }

    pub fn cols(&self) -> (c: i32)
        ensures
            c == self.cols_spec(),
    {
        match self {
            MatrixLayout::RowMajor { cols, .. } => *cols,
            MatrixLayout::ColumnMajor { cols, .. } => *cols,
        }
    }

    pub fn leading_dimension(&self) -> (d: i32)
        ensures
            d == self.leading_dimension_spec(),
    {
        match self {
            MatrixLayout::RowMajor { cols, .. } => *cols,
            MatrixLayout::ColumnMajor { rows, .. } => *rows,
        }
    }

    pub fn other_dimension(&self) -> (d: i32)
        ensures
            d == self.other_dimension_spec(),
    {
        match self {
            MatrixLayout::RowMajor { rows, .. } => *rows,
            MatrixLayout::ColumnMajor { cols, .. } => *cols,
        }
    }
}

} // verus!
