use vstd::prelude::*;
use crate::error::OglError;

verus! {

/// Rows and columns of a transform matrix.
pub const MATRIX_SIDE: usize = 4;

/// Position of cell (`row`, `col`) in the row-major storage of a 4x4 matrix. Rows or
/// columns past 3 fail with `InvalidData`.
pub fn cell_index(row: usize, col: usize) -> (r: Result<usize, OglError>)
    ensures
        row < MATRIX_SIDE && col < MATRIX_SIDE ==> r == Ok::<usize, OglError>(
            (row * MATRIX_SIDE + col) as usize,
        ),
        !(row < MATRIX_SIDE && col < MATRIX_SIDE) ==> r == Err::<usize, OglError>(
            OglError::InvalidData,
        ),
{
    if row >= MATRIX_SIDE || col >= MATRIX_SIDE {
        return Err(OglError::InvalidData);
    }
    Ok(row * MATRIX_SIDE + col)
}

/// Every cell of a 4x4 matrix has its own place among the sixteen stored values.
pub proof fn lemma_cells_distinct(r1: int, c1: int, r2: int, c2: int)
    requires
        0 <= r1 < MATRIX_SIDE,
        0 <= c1 < MATRIX_SIDE,
        0 <= r2 < MATRIX_SIDE,
        0 <= c2 < MATRIX_SIDE,
    ensures
        0 <= r1 * MATRIX_SIDE + c1 < MATRIX_SIDE * MATRIX_SIDE,
        r1 * MATRIX_SIDE + c1 == r2 * MATRIX_SIDE + c2 ==> r1 == r2 && c1 == c2,
{
}

} // verus!
