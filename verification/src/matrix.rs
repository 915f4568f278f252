//! Four-by-four matrices in column-major order.

use vstd::prelude::*;

verus! {

/// Number of rows, and of columns, of a matrix.
pub const DIM: usize = 4;

/// Number of cells of a matrix.
pub const CELLS: usize = 16;

/// Position, in the flattened matrix, of the cell in column `col` and row `row`.
pub open spec fn cell_index(col: int, row: int) -> int {
    4 * col + row
}

/// Whether `col` and `row` name a cell of a matrix.
pub open spec fn in_matrix(col: int, row: int) -> bool {
    0 <= col < 4 && 0 <= row < 4
}

/// A matrix of four column vectors, kept flattened: the four scalars of the
/// first column, then those of the second, and so on.
#[derive(Debug)]
pub struct Matrix4<T> {
    pub cells: [T; 16],
}

impl<T: Copy> Clone for Matrix4<T> {
    fn clone(&self) -> (m: Self)
        ensures
            m == *self,
    {
        *self
    }
}

impl<T: Copy> Copy for Matrix4<T> {

}

impl<T> View for Matrix4<T> {
    type V = Seq<T>;

    /// The sixteen scalars, column after column.
    open spec fn view(&self) -> Seq<T> {
        self.cells@
    }
}

impl<T: Copy> Matrix4<T> {
    /// The scalar in column `col` and row `row`.
    pub open spec fn at(&self, col: int, row: int) -> T {
        self@[cell_index(col, row)]
    }

    /// Whether this matrix holds exactly the scalars of `columns`, each in its own cell.
    pub open spec fn holds_columns(&self, columns: [[T; 4]; 4]) -> bool {
        forall|col: int, row: int|
            in_matrix(col, row) ==> #[trigger] self.at(col, row) == columns@[col]@[row]
    }

    /// Whether this matrix has `one` in each cell of its diagonal and `zero` in every other.
    pub open spec fn is_identity(&self, zero: T, one: T) -> bool {
        forall|col: int, row: int|
            in_matrix(col, row) ==> #[trigger] self.at(col, row) == if col == row {
                one
            } else {
                zero
            }
    }

    /// Flattens four column vectors in column-major order.
    pub fn from_cols(columns: &[[T; 4]; 4]) -> (m: Self)
        ensures
            m.holds_columns(*columns),
    {
        let mut cells: [T; 16] = [columns[0][0];16];
        let mut i: usize = 0;
        let mut col: usize = 0;
        while col < 4
            invariant
                col <= 4,
                i == 4 * col,
                forall|c: int, r: int|
                    0 <= c < col && 0 <= r < 4 ==> cells@[#[trigger] cell_index(c, r)]
                        == columns@[c]@[r],
            decreases 4 - col,
        {
            let mut row: usize = 0;
            while row < 4
                invariant
                    col < 4,
                    row <= 4,
                    i == 4 * col + row,
                    forall|c: int, r: int|
                        0 <= c < col && 0 <= r < 4 ==> cells@[#[trigger] cell_index(c, r)]
                            == columns@[c]@[r],
                    forall|r: int|
                        0 <= r < row ==> cells@[#[trigger] cell_index(col as int, r)]
                            == columns@[col as int]@[r],
                decreases 4 - row,
            {
                cells[i] = columns[col][row];
                i += 1;
                row += 1;
            }
            col += 1;
        }
        Matrix4 { cells }
    }

    /// The identity matrix over a scalar type whose zero and unit are `zero` and `one`.
    pub fn identity(zero: T, one: T) -> (m: Self)
        ensures
            m.is_identity(zero, one),
    {
        let mut cells: [T; 16] = [zero;16];
        let mut col: usize = 0;
        while col < 4
            invariant
                col <= 4,
                forall|c: int, r: int|
                    in_matrix(c, r) ==> cells@[#[trigger] cell_index(c, r)] == if c == r && c
                        < col {
                        one
                    } else {
                        zero
                    },
            decreases 4 - col,
        {
            cells[5 * col] = one;
            col += 1;
        }
        Matrix4 { cells }
    }

    /// The scalar in column `col` and row `row`.
    pub fn get(&self, col: usize, row: usize) -> (x: T)
        requires
            in_matrix(col as int, row as int),
        ensures
            x == self.at(col as int, row as int),
    {
        self.cells[4 * col + row]
    }

    /// The sixteen scalars in column-major order, as a shader uniform takes them.
    pub fn as_slice(&self) -> (s: &[T])
        ensures
            s@ == self@,
    {
        &self.cells
    }

    /// A matrix is its sixteen cells: two matrices that agree in every column
    /// and row are the same matrix.
    pub proof fn lemma_cells_determine(self, other: Self)
        requires
            forall|col: int, row: int|
                in_matrix(col, row) ==> #[trigger] self.at(col, row) == other.at(col, row),
        ensures
            self == other,
    {
        assert forall|k: int| 0 <= k < 16 implies self.cells[k] == other.cells[k] by {
            lemma_cell_index_is_bijective(k);
            assert(self.at(k / 4, k % 4) == other.at(k / 4, k % 4));
        }
        assert(self.cells =~= other.cells);
    }
}

/// Every position of the flattened matrix is the cell of exactly one column and row.
pub proof fn lemma_cell_index_is_bijective(k: int)
    requires
        0 <= k < 16,
    ensures
        in_matrix(k / 4, k % 4),
        cell_index(k / 4, k % 4) == k,
        forall|col: int, row: int|
            in_matrix(col, row) && #[trigger] cell_index(col, row) == k ==> col == k / 4 && row
                == k % 4,
{
}

} // verus!
