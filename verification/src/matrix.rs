//! Square matrices of a fixed dimension.
//!
//! A matrix is seen as a sequence of rows, each a sequence of scalars. The
//! determinant is the expansion along the first row by cofactors, down to
//! the matrix of two rows and two columns; the inverse is the matrix of
//! cofactors, each divided by the determinant and put at the transposed
//! place.

use vstd::prelude::*;
use vstd::std_specs::ops::{AddSpec, SubSpec, MulSpec, DivSpec, NegSpec};
use std::ops::{Mul, Index};
use num::Float;
use crate::float_service::{
    Scalar, exact, lit, same, constant, close, close_defined, compare_floats, cosine, sine,
};
use crate::tuple::Tuple;

verus! {

/// Why an operation on a matrix gave no result.
#[derive(Debug, Clone, Copy, PartialEq, Eq)]
pub enum MatrixError {
    /// A row or a column lies outside the matrix.
    IndexOutOfBounds,
    /// The determinant is zero, so there is no inverse.
    NotInvertible,
}

/// `N` rows of `N` scalars.
#[derive(Debug, Clone, Copy)]
pub struct Matrix<T, const N: usize> {
    pub data: [[T; N]; N],
}

impl<T, const N: usize> View for Matrix<T, N> {
    type V = Seq<Seq<T>>;

    /// The rows from top to bottom, each from left to right.
    open spec fn view(&self) -> Seq<Seq<T>> {
        Seq::new(N as nat, |r: int| self.data[r]@)
    }
}

/// `s` has `n` rows of `n` scalars each.
pub open spec fn square<T>(s: Seq<Seq<T>>, n: nat) -> bool {
    &&& s.len() == n
    &&& forall|r: int| 0 <= r < n ==> (#[trigger] s[r]).len() == n
}

/// The entry of the identity matrix at `row` and `col`.
pub open spec fn identity_entry<T: Scalar>(row: int, col: int) -> T {
    if row == col {
        lit::<T>(1)
    } else {
        lit::<T>(0)
    }
}

/// The matrix of four rows and four columns whose entry at row `r` and
/// column `c` is `f(r, c)`.
pub open spec fn grid<T>(f: spec_fn(int, int) -> T) -> Seq<Seq<T>> {
    Seq::new(4, |r: int| Seq::new(4, |c: int| f(r, c)))
}

/// The entry of the translation by `x`, `y`, `z`: the identity with the
/// three offsets down the last column.
pub open spec fn translation_entry<T: Scalar>(x: T, y: T, z: T, row: int, col: int) -> T {
    if col == 3 && row == 0 {
        x
    } else if col == 3 && row == 1 {
        y
    } else if col == 3 && row == 2 {
        z
    } else {
        identity_entry::<T>(row, col)
    }
}

/// The entry of the scaling by `x`, `y`, `z`: the identity with the three
/// factors down the diagonal.
pub open spec fn scaling_entry<T: Scalar>(x: T, y: T, z: T, row: int, col: int) -> T {
    if row == 0 && col == 0 {
        x
    } else if row == 1 && col == 1 {
        y
    } else if row == 2 && col == 2 {
        z
    } else {
        identity_entry::<T>(row, col)
    }
}

/// The entry of the shear: the identity with, off the diagonal in the first
/// three rows, how much each axis moves in proportion to each other axis.
pub open spec fn shear_entry<T: Scalar>(
    xy: T,
    xz: T,
    yx: T,
    yz: T,
    zx: T,
    zy: T,
    row: int,
    col: int,
) -> T {
    if row == 0 && col == 1 {
        xy
    } else if row == 0 && col == 2 {
        xz
    } else if row == 1 && col == 0 {
        yx
    } else if row == 1 && col == 2 {
        yz
    } else if row == 2 && col == 0 {
        zx
    } else if row == 2 && col == 1 {
        zy
    } else {
        identity_entry::<T>(row, col)
    }
}

/// The entry of the rotation about the x axis with the cosine and the sine
/// given.
pub open spec fn rotation_x_entry<T: Scalar>(cos: T, sin: T, row: int, col: int) -> T {
    if row == 1 && col == 1 {
        cos
    } else if row == 1 && col == 2 {
        sin.neg_spec()
    } else if row == 2 && col == 1 {
        sin
    } else if row == 2 && col == 2 {
        cos
    } else {
        identity_entry::<T>(row, col)
    }
}

/// The entry of the rotation about the y axis with the cosine and the sine
/// given.
pub open spec fn rotation_y_entry<T: Scalar>(cos: T, sin: T, row: int, col: int) -> T {
    if row == 0 && col == 0 {
        cos
    } else if row == 0 && col == 2 {
        sin
    } else if row == 2 && col == 0 {
        sin.neg_spec()
    } else if row == 2 && col == 2 {
        cos
    } else {
        identity_entry::<T>(row, col)
    }
}

/// The entry of the rotation about the z axis with the cosine and the sine
/// given.
pub open spec fn rotation_z_entry<T: Scalar>(cos: T, sin: T, row: int, col: int) -> T {
    if row == 0 && col == 0 {
        cos
    } else if row == 0 && col == 1 {
        sin.neg_spec()
    } else if row == 1 && col == 0 {
        sin
    } else if row == 1 && col == 1 {
        cos
    } else {
        identity_entry::<T>(row, col)
    }
}

/// The rotation about the x axis as a matrix.
pub open spec fn rotation_x_view<T: Scalar>(cos: T, sin: T) -> Seq<Seq<T>> {
    grid(|r: int, c: int| rotation_x_entry(cos, sin, r, c))
}

/// The rotation about the y axis as a matrix.
pub open spec fn rotation_y_view<T: Scalar>(cos: T, sin: T) -> Seq<Seq<T>> {
    grid(|r: int, c: int| rotation_y_entry(cos, sin, r, c))
}

/// The rotation about the z axis as a matrix.
pub open spec fn rotation_z_view<T: Scalar>(cos: T, sin: T) -> Seq<Seq<T>> {
    grid(|r: int, c: int| rotation_z_entry(cos, sin, r, c))
}

/// The sum, taken from zero, of the first `k` products of an entry of row
/// `r` of `a` with the entry of column `c` of `b` that it meets.
pub open spec fn entry_sum<T: Scalar>(a: Seq<Seq<T>>, b: Seq<Seq<T>>, r: int, c: int, k: nat) -> T
    decreases k,
{
    if k == 0 {
        lit::<T>(0)
    } else {
        entry_sum(a, b, r, c, (k - 1) as nat).add_spec(a[r][k - 1].mul_spec(b[k - 1][c]))
    }
}

/// The operations of [`entry_sum`] may be applied.
pub open spec fn entry_defined<T: Scalar>(
    a: Seq<Seq<T>>,
    b: Seq<Seq<T>>,
    r: int,
    c: int,
    k: nat,
) -> bool
    decreases k,
{
    k == 0 || {
        &&& entry_defined(a, b, r, c, (k - 1) as nat)
        &&& a[r][k - 1].mul_req(b[k - 1][c])
        &&& entry_sum(a, b, r, c, (k - 1) as nat).add_req(a[r][k - 1].mul_spec(b[k - 1][c]))
    }
}

/// The matrix product: the entry at row `r` and column `c` is the sum of
/// the products along row `r` of `a` and column `c` of `b`.
pub open spec fn product<T: Scalar>(a: Seq<Seq<T>>, b: Seq<Seq<T>>) -> Seq<Seq<T>> {
    Seq::new(a.len(), |r: int| Seq::new(a.len(), |c: int| entry_sum(a, b, r, c, a.len())))
}

/// The operations of [`product`] may be applied.
pub open spec fn product_defined<T: Scalar>(a: Seq<Seq<T>>, b: Seq<Seq<T>>) -> bool {
    forall|r: int, c: int|
        0 <= r < a.len() && 0 <= c < a.len() ==> #[trigger] entry_defined(a, b, r, c, a.len())
}

/// One row of a matrix applied to a tuple: the sum, taken from zero, of the
/// products of the first four entries of the row with `x`, `y`, `z`, `w`.
pub open spec fn row_dot<T: Scalar>(row: Seq<T>, t: Tuple<T>) -> T {
    lit::<T>(0).add_spec(row[0].mul_spec(t.x)).add_spec(row[1].mul_spec(t.y)).add_spec(
        row[2].mul_spec(t.z),
    ).add_spec(row[3].mul_spec(t.w))
}

/// The operations of [`row_dot`] may be applied.
pub open spec fn row_dot_defined<T: Scalar>(row: Seq<T>, t: Tuple<T>) -> bool {
    &&& row[0].mul_req(t.x)
    &&& lit::<T>(0).add_req(row[0].mul_spec(t.x))
    &&& row[1].mul_req(t.y)
    &&& lit::<T>(0).add_spec(row[0].mul_spec(t.x)).add_req(row[1].mul_spec(t.y))
    &&& row[2].mul_req(t.z)
    &&& lit::<T>(0).add_spec(row[0].mul_spec(t.x)).add_spec(row[1].mul_spec(t.y)).add_req(
        row[2].mul_spec(t.z),
    )
    &&& row[3].mul_req(t.w)
    &&& lit::<T>(0).add_spec(row[0].mul_spec(t.x)).add_spec(row[1].mul_spec(t.y)).add_spec(
        row[2].mul_spec(t.z),
    ).add_req(row[3].mul_spec(t.w))
}

/// A matrix applied to a tuple: each of the first four rows meets the whole
/// tuple, the weight included.
pub open spec fn apply<T: Scalar>(s: Seq<Seq<T>>, t: Tuple<T>) -> Tuple<T> {
    Tuple { x: row_dot(s[0], t), y: row_dot(s[1], t), z: row_dot(s[2], t), w: row_dot(s[3], t) }
}

/// The operations of [`apply`] may be applied.
pub open spec fn apply_defined<T: Scalar>(s: Seq<Seq<T>>, t: Tuple<T>) -> bool {
    &&& row_dot_defined(s[0], t)
    &&& row_dot_defined(s[1], t)
    &&& row_dot_defined(s[2], t)
    &&& row_dot_defined(s[3], t)
}

/// `s` without row `row` and without column `col`.
pub open spec fn minor_of<T>(s: Seq<Seq<T>>, row: int, col: int) -> Seq<Seq<T>> {
    Seq::new(
        (s.len() - 1) as nat,
        |i: int|
            Seq::new(
                (s.len() - 1) as nat,
                |j: int|
                    s[if i < row {
                        i
                    } else {
                        i + 1
                    }][if j < col {
                        j
                    } else {
                        j + 1
                    }],
            ),
    )
}

/// A minor with the sign of its place: negated where `row + col` is odd.
pub open spec fn signed<T: Scalar>(row: int, col: int, minor: T) -> T {
    if (row + col) % 2 == 0 {
        minor
    } else {
        minor.neg_spec()
    }
}

/// The negation that [`signed`] may ask for may be applied.
pub open spec fn signed_defined<T: Scalar>(row: int, col: int, minor: T) -> bool {
    (row + col) % 2 != 0 ==> minor.neg_req()
}

/// The determinant. Of two rows and two columns it is the product of the
/// diagonal less the product of the other two entries; of more, the
/// expansion along the first row.
pub open spec fn det<T: Scalar>(s: Seq<Seq<T>>) -> T
    decreases s.len(), 1nat, 0nat,
{
    if s.len() <= 2 {
        s[0][0].mul_spec(s[1][1]).sub_spec(s[0][1].mul_spec(s[1][0]))
    } else {
        expansion(s, s.len())
    }
}

/// The sum, taken from zero, of the first `k` terms of the expansion along
/// the first row: each entry of the row times its cofactor.
pub open spec fn expansion<T: Scalar>(s: Seq<Seq<T>>, k: nat) -> T
    decreases s.len(), 0nat, k,
{
    if k == 0 || s.len() <= 2 {
        lit::<T>(0)
    } else {
        expansion(s, (k - 1) as nat).add_spec(
            s[0][k - 1].mul_spec(signed(0, k - 1, det(minor_of(s, 0, k - 1)))),
        )
    }
}

/// The operations of [`det`] may be applied.
pub open spec fn det_defined<T: Scalar>(s: Seq<Seq<T>>) -> bool
    decreases s.len(), 1nat, 0nat,
{
    if s.len() <= 2 {
        &&& s[0][0].mul_req(s[1][1])
        &&& s[0][1].mul_req(s[1][0])
        &&& s[0][0].mul_spec(s[1][1]).sub_req(s[0][1].mul_spec(s[1][0]))
    } else {
        expansion_defined(s, s.len())
    }
}

/// The operations of [`expansion`] may be applied.
pub open spec fn expansion_defined<T: Scalar>(s: Seq<Seq<T>>, k: nat) -> bool
    decreases s.len(), 0nat, k,
{
    k == 0 || s.len() <= 2 || {
        &&& expansion_defined(s, (k - 1) as nat)
        &&& det_defined(minor_of(s, 0, k - 1))
        &&& signed_defined(0, k - 1, det(minor_of(s, 0, k - 1)))
        &&& s[0][k - 1].mul_req(signed(0, k - 1, det(minor_of(s, 0, k - 1))))
        &&& expansion(s, (k - 1) as nat).add_req(
            s[0][k - 1].mul_spec(signed(0, k - 1, det(minor_of(s, 0, k - 1)))),
        )
    }
}

/// The cofactor at `row` and `col`: the determinant of the matrix without
/// that row and column, negated where `row + col` is odd.
pub open spec fn cofactor<T: Scalar>(s: Seq<Seq<T>>, row: int, col: int) -> T {
    signed(row, col, det(minor_of(s, row, col)))
}

/// The operations of [`cofactor`] may be applied.
pub open spec fn cofactor_defined<T: Scalar>(s: Seq<Seq<T>>, row: int, col: int) -> bool {
    &&& det_defined(minor_of(s, row, col))
    &&& signed_defined(row, col, det(minor_of(s, row, col)))
}

/// `s` has an inverse: its determinant is not zero.
pub open spec fn has_inverse<T: Scalar>(s: Seq<Seq<T>>) -> bool {
    !same(det(s), lit::<T>(0))
}

/// The entry of the inverse at `row` and `col`: the cofactor at the
/// transposed place, divided by the determinant.
pub open spec fn inverse_entry<T: Scalar>(s: Seq<Seq<T>>, row: int, col: int) -> T {
    cofactor(s, col, row).div_spec(det(s))
}

/// The operations that decide whether `s` has an inverse, and those that
/// compute it where it has one, may be applied.
pub open spec fn inverse_defined<T: Scalar>(s: Seq<Seq<T>>) -> bool {
    &&& det_defined(s)
    &&& has_inverse(s) ==> forall|row: int, col: int|
        0 <= row < s.len() && 0 <= col < s.len() ==> #[trigger] cofactor_defined(s, row, col)
            && cofactor(s, row, col).div_req(det(s))
}

/// The inverse of `s` as a matrix.
pub open spec fn inverse_view<T: Scalar>(s: Seq<Seq<T>>) -> Seq<Seq<T>> {
    Seq::new(s.len(), |r: int| Seq::new(s.len(), |c: int| inverse_entry(s, r, c)))
}

/// The matrix whose rows are those of [`product`].
pub open spec fn product_matrix<T: Scalar, const N: usize>(
    a: Matrix<T, N>,
    b: Matrix<T, N>,
) -> Matrix<T, N> {
    choose|m: Matrix<T, N>| m@ == product(a@, b@)
}

/// Two matrices with the same rows are the same matrix.
pub proof fn lemma_view_determines<T, const N: usize>(a: Matrix<T, N>, b: Matrix<T, N>)
    requires
        a@ == b@,
    ensures
        a == b,
{
    assert forall|r: int| 0 <= r < N implies a.data[r] == b.data[r] by {
        assert(a@[r] == b@[r]);
    }
    assert(a.data =~= b.data);
}

impl<T: Scalar, const N: usize> Matrix<T, N> {
    /// The matrix of zeros.
    pub fn new() -> (r: Self)
        ensures
            square(r@, N as nat),
            exact::<T>() ==> forall|i: int, j: int|
                0 <= i < N && 0 <= j < N ==> (#[trigger] r@[i][j]) == lit::<T>(0),
    {
        let zero: T = constant(0);
        Self { data: [[zero;N];N] }
    }

    /// The entry at row `i1` and column `i2`, or nothing where either lies
    /// outside the matrix.
    pub fn get(&self, i1: usize, i2: usize) -> (r: Option<&T>)
        ensures
            i1 < N && i2 < N ==> r == Some(&self@[i1 as int][i2 as int]),
            !(i1 < N && i2 < N) ==> r.is_none(),
    {
        if i1 < N && i2 < N {
            Some(&self.data[i1][i2])
        } else {
            None
        }
    }

    /// Writes `number` at row `i1` and column `i2`. Every other entry stays.
    pub fn set(&mut self, i1: usize, i2: usize, number: T)
        requires
            i1 < N,
            i2 < N,
        ensures
            final(self)@ == old(self)@.update(
                i1 as int,
                old(self)@[i1 as int].update(i2 as int, number),
            ),
    {
        let mut row = self.data[i1];
        row[i2] = number;
        self.data[i1] = row;
    }

    /// Writes `number` at row `i1` and column `i2`, or reports that the
    /// place lies outside the matrix and leaves the matrix as it was.
    pub fn insert(&mut self, i1: usize, i2: usize, number: T) -> (r: Result<(), MatrixError>)
        ensures
            i1 < N && i2 < N ==> r == Ok::<(), MatrixError>(()) && final(self)@ == old(self)@.update(
                i1 as int,
                old(self)@[i1 as int].update(i2 as int, number),
            ),
            !(i1 < N && i2 < N) ==> r == Err::<(), MatrixError>(MatrixError::IndexOutOfBounds)
                && *final(self) == *old(self),
    {
        if i1 < N && i2 < N {
            self.set(i1, i2, number);
            Ok(())
        } else {
            Err(MatrixError::IndexOutOfBounds)
        }
    }

    /// The transpose: the entry at row `r` and column `c` goes to row `c`
    /// and column `r`.
    pub fn transpose(&self) -> (t: Matrix<T, N>)
        ensures
            square(t@, N as nat),
            forall|r: int, c: int|
                0 <= r < N && 0 <= c < N ==> (#[trigger] t@[c][r]) == self@[r][c],
    {
        let mut new_matrix = *self;
        let mut row: usize = 0;
        while row < N
            invariant
                row <= N,
                square(new_matrix@, N as nat),
                forall|r: int, c: int|
                    0 <= r < row && 0 <= c < N ==> (#[trigger] new_matrix@[c][r]) == self@[r][c],
            decreases N - row,
        {
            let mut col: usize = 0;
            while col < N
                invariant
                    row < N,
                    col <= N,
                    square(new_matrix@, N as nat),
                    forall|r: int, c: int|
                        0 <= r < row && 0 <= c < N ==> (#[trigger] new_matrix@[c][r])
                            == self@[r][c],
                    forall|c: int|
                        0 <= c < col ==> (#[trigger] new_matrix@[c][row as int])
                            == self@[row as int][c],
                decreases N - col,
            {
                new_matrix.set(col, row, self.data[row][col]);
                col += 1;
            }
            row += 1;
        }
        new_matrix
    }

    /// The matrix of the first `N` entries of each of the `N` rows given.
    pub fn from(data: Vec<Vec<T>>) -> (r: Self)
        requires
            data.len() == N,
            forall|i: int| 0 <= i < N ==> (#[trigger] data[i]).len() >= N,
        ensures
            square(r@, N as nat),
            forall|i: int, j: int|
                0 <= i < N && 0 <= j < N ==> (#[trigger] r@[i][j]) == data[i][j],
    {
        let mut new_matrix = Matrix::<T, N>::new();
        let mut x: usize = 0;
        while x < N
            invariant
                x <= N,
                data.len() == N,
                forall|i: int| 0 <= i < N ==> (#[trigger] data[i]).len() >= N,
                square(new_matrix@, N as nat),
                forall|i: int, j: int|
                    0 <= i < x && 0 <= j < N ==> (#[trigger] new_matrix@[i][j]) == data[i][j],
            decreases N - x,
        {
            let mut y: usize = 0;
            while y < N
                invariant
                    x < N,
                    y <= N,
                    data.len() == N,
                    forall|i: int| 0 <= i < N ==> (#[trigger] data[i]).len() >= N,
                    square(new_matrix@, N as nat),
                    forall|i: int, j: int|
                        0 <= i < x && 0 <= j < N ==> (#[trigger] new_matrix@[i][j]) == data[i][j],
                    forall|j: int|
                        0 <= j < y ==> (#[trigger] new_matrix@[x as int][j]) == data[x as int][j],
                decreases N - y,
            {
                new_matrix.set(x, y, data[x][y]);
                y += 1;
            }
            x += 1;
        }
        new_matrix
    }

    /// The matrix that holds the rows given from its top left corner on, and
    /// zero wherever the rows give nothing.
    pub fn from_iter(rows: Vec<Vec<T>>) -> (r: Self)
        requires
            rows.len() <= N,
            forall|i: int| 0 <= i < rows.len() ==> (#[trigger] rows[i]).len() <= N,
        ensures
            square(r@, N as nat),
            forall|i: int, j: int|
                0 <= i < rows.len() && 0 <= j < rows[i].len() ==> (#[trigger] r@[i][j])
                    == rows[i][j],
            exact::<T>() ==> forall|i: int, j: int|
                0 <= i < N && 0 <= j < N && !(i < rows.len() && j < rows[i].len()) ==> (
                #[trigger] r@[i][j]) == lit::<T>(0),
    {
        let mut matrix = Matrix::<T, N>::new();
        let mut matrix_row: usize = 0;
        while matrix_row < rows.len()
            invariant
                matrix_row <= rows.len() <= N,
                forall|i: int| 0 <= i < rows.len() ==> (#[trigger] rows[i]).len() <= N,
                square(matrix@, N as nat),
                forall|i: int, j: int|
                    0 <= i < matrix_row && 0 <= j < rows[i].len() ==> (#[trigger] matrix@[i][j])
                        == rows[i][j],
                exact::<T>() ==> forall|i: int, j: int|
                    0 <= i < N && 0 <= j < N && !(i < matrix_row && j < rows[i].len()) ==> (
                    #[trigger] matrix@[i][j]) == lit::<T>(0),
            decreases rows.len() - matrix_row,
        {
            let row = &rows[matrix_row];
            let mut matrix_col: usize = 0;
            while matrix_col < row.len()
                invariant
                    matrix_row < rows.len() <= N,
                    row == rows[matrix_row as int],
                    matrix_col <= row.len() <= N,
                    forall|i: int| 0 <= i < rows.len() ==> (#[trigger] rows[i]).len() <= N,
                    square(matrix@, N as nat),
                    forall|i: int, j: int|
                        0 <= i < matrix_row && 0 <= j < rows[i].len() ==> (
                        #[trigger] matrix@[i][j]) == rows[i][j],
                    forall|j: int|
                        0 <= j < matrix_col ==> (#[trigger] matrix@[matrix_row as int][j])
                            == row[j],
                    exact::<T>() ==> forall|i: int, j: int|
                        0 <= i < N && 0 <= j < N && !(i < matrix_row && j < rows[i].len()) && !(i
                            == matrix_row && j < matrix_col) ==> (#[trigger] matrix@[i][j])
                            == lit::<T>(0),
                decreases row.len() - matrix_col,
            {
                matrix.set(matrix_row, matrix_col, row[matrix_col]);
                matrix_col += 1;
            }
            matrix_row += 1;
        }
        matrix
    }

    /// Every entry of the one matrix is close to the entry of the other at
    /// the same place.
    pub open spec fn approx(self, other: Self) -> bool {
        forall|r: int, c: int|
            0 <= r < N && 0 <= c < N ==> close(#[trigger] self@[r][c], #[trigger] other@[r][c])
    }

    /// The operations that decide [`Self::approx`] may be applied.
    pub open spec fn approx_defined(self, other: Self) -> bool {
        forall|r: int, c: int|
            0 <= r < N && 0 <= c < N ==> close_defined(
                #[trigger] self@[r][c],
                #[trigger] other@[r][c],
            )
    }

    /// Equality within the tolerance, entry by entry.
    pub fn eq(&self, other: &Self) -> (r: bool)
        requires
            exact::<T>(),
            self.approx_defined(*other),
        ensures
            r == self.approx(*other),
    {
        let mut row: usize = 0;
        while row < N
            invariant
                row <= N,
                exact::<T>(),
                self.approx_defined(*other),
                forall|r: int, c: int|
                    0 <= r < row && 0 <= c < N ==> close(
                        #[trigger] self@[r][c],
                        #[trigger] other@[r][c],
                    ),
            decreases N - row,
        {
            let mut col: usize = 0;
            while col < N
                invariant
                    row < N,
                    col <= N,
                    exact::<T>(),
                    self.approx_defined(*other),
                    forall|r: int, c: int|
                        0 <= r < row && 0 <= c < N ==> close(
                            #[trigger] self@[r][c],
                            #[trigger] other@[r][c],
                        ),
                    forall|c: int|
                        0 <= c < col ==> close(
                            #[trigger] self@[row as int][c],
                            other@[row as int][c],
                        ),
                decreases N - col,
            {
                assert(close_defined(
                    self@[row as int][col as int],
                    other@[row as int][col as int],
                ));
                if !compare_floats(self.data[row][col], other.data[row][col]) {
                    return false;
                }
                col += 1;
            }
            row += 1;
        }
        true
    }
}

impl<T: Scalar, const N: usize> Index<usize> for Matrix<T, N> {
    type Output = [T; N];

    /// The row at `index`.
    fn index(&self, index: usize) -> (r: &[T; N])
        ensures
            r@ == self@[index as int],
    {
        &self.data[index]
    }
}

impl<T: Scalar, const N: usize> vstd::std_specs::core::IndexSpecImpl<usize> for Matrix<T, N> {
    open spec fn index_req(&self, index: &usize) -> bool {
        *index < N
    }
}

/// The matrix `src` without row `row` and without column `col`.
fn strike<T: Scalar, const N: usize, const M: usize>(
    src: &Matrix<T, N>,
    row: usize,
    col: usize,
) -> (r: Matrix<T, M>)
    requires
        M + 1 == N,
        row < N,
        col < N,
    ensures
        r@ == minor_of(src@, row as int, col as int),
{
    let mut new_matrix = Matrix::<T, M>::new();
    let mut i: usize = 0;
    while i < M
        invariant
            M + 1 == N,
            i <= M,
            square(new_matrix@, M as nat),
            forall|a: int, b: int|
                0 <= a < i && 0 <= b < M ==> (#[trigger] new_matrix@[a][b]) == minor_of(
                    src@,
                    row as int,
                    col as int,
                )[a][b],
        decreases M - i,
    {
        let x: usize = if i < row {
            i
        } else {
            i + 1
        };
        let mut j: usize = 0;
        while j < M
            invariant
                M + 1 == N,
                i < M,
                j <= M,
                x == (if i < row {
                    i as int
                } else {
                    i + 1
                }),
                square(new_matrix@, M as nat),
                forall|a: int, b: int|
                    0 <= a < i && 0 <= b < M ==> (#[trigger] new_matrix@[a][b]) == minor_of(
                        src@,
                        row as int,
                        col as int,
                    )[a][b],
                forall|b: int|
                    0 <= b < j ==> (#[trigger] new_matrix@[i as int][b]) == minor_of(
                        src@,
                        row as int,
                        col as int,
                    )[i as int][b],
            decreases M - j,
        {
            let y: usize = if j < col {
                j
            } else {
                j + 1
            };
            new_matrix.set(i, j, src.data[x][y]);
            j += 1;
        }
        i += 1;
    }
    assert(new_matrix@ =~~= minor_of(src@, row as int, col as int));
    new_matrix
}

impl<T: Scalar> Matrix<T, 2> {
    /// The determinant: the product of the diagonal less the product of the
    /// other two entries.
    pub fn determinant(&self) -> (r: T)
        requires
            exact::<T>(),
            det_defined(self@),
        ensures
            r == det(self@),
    {
        self.data[0][0] * self.data[1][1] - self.data[0][1] * self.data[1][0]
    }
}

impl<T: Scalar> Matrix<T, 3> {
    /// The matrix of two rows and two columns that is left without row
    /// `row` and column `col`.
    pub fn sub_matrix(&self, row: usize, col: usize) -> (r: Matrix<T, 2>)
        requires
            row < 3,
            col < 3,
        ensures
            r@ == minor_of(self@, row as int, col as int),
    {
        strike(self, row, col)
    }

    /// The minor at `row` and `col`: the determinant of the matrix without
    /// them.
    pub fn minor(&self, row: usize, col: usize) -> (r: T)
        requires
            exact::<T>(),
            row < 3,
            col < 3,
            det_defined(minor_of(self@, row as int, col as int)),
        ensures
            r == det(minor_of(self@, row as int, col as int)),
    {
        self.sub_matrix(row, col).determinant()
    }

    /// The cofactor at `row` and `col`: the minor, negated where
    /// `row + col` is odd.
    pub fn cofactor(&self, row: usize, col: usize) -> (r: T)
        requires
            exact::<T>(),
            row < 3,
            col < 3,
            cofactor_defined(self@, row as int, col as int),
        ensures
            r == cofactor(self@, row as int, col as int),
    {
        let minor = self.minor(row, col);
        if (row + col) % 2 == 0 {
            minor
        } else {
            minor.neg()
        }
    }

    /// The determinant, by expansion along the first row.
    pub fn determinant(&self) -> (r: T)
        requires
            exact::<T>(),
            det_defined(self@),
        ensures
            r == det(self@),
    {
        let mut total: T = constant(0);
        let mut col: usize = 0;
        while col < 3
            invariant
                col <= 3,
                exact::<T>(),
                self@.len() == 3,
                expansion_defined(self@, 3),
                total == expansion(self@, col as nat),
            decreases 3 - col,
        {
            proof {
                lemma_expansion_prefix(self@, 3, (col + 1) as nat);
            }
            total = total + self.data[0][col] * self.cofactor(0, col);
            col += 1;
        }
        total
    }
}

impl<T: Scalar> Matrix<T, 4> {
    /// The identity: one on the diagonal, zero elsewhere.
    pub fn identity_matrix() -> (r: Self)
        ensures
            exact::<T>() ==> r@ == grid(|i: int, j: int| identity_entry::<T>(i, j)),
    {
        let zero: T = constant(0);
        let one: T = constant(1);
        let r = Self {
            data: [
                [one, zero, zero, zero],
                [zero, one, zero, zero],
                [zero, zero, one, zero],
                [zero, zero, zero, one],
            ],
        };
        assert(exact::<T>() ==> r@ =~~= grid(|i: int, j: int| identity_entry::<T>(i, j)));
        r
    }

    /// The matrix of three rows and three columns that is left without row
    /// `row` and column `col`.
    pub fn sub_matrix(&self, row: usize, col: usize) -> (r: Matrix<T, 3>)
        requires
            row < 4,
            col < 4,
        ensures
            r@ == minor_of(self@, row as int, col as int),
    {
        strike(self, row, col)
    }

    /// The minor at `row` and `col`: the determinant of the matrix without
    /// them.
    pub fn minor(&self, row: usize, col: usize) -> (r: T)
        requires
            exact::<T>(),
            row < 4,
            col < 4,
            det_defined(minor_of(self@, row as int, col as int)),
        ensures
            r == det(minor_of(self@, row as int, col as int)),
    {
        self.sub_matrix(row, col).determinant()
    }

    /// The cofactor at `row` and `col`: the minor, negated where
    /// `row + col` is odd.
    pub fn cofactor(&self, row: usize, col: usize) -> (r: T)
        requires
            exact::<T>(),
            row < 4,
            col < 4,
            cofactor_defined(self@, row as int, col as int),
        ensures
            r == cofactor(self@, row as int, col as int),
    {
        let minor = self.minor(row, col);
        if (row + col) % 2 == 0 {
            minor
        } else {
            minor.neg()
        }
    }

    /// The determinant, by expansion along the first row.
    pub fn determinant(&self) -> (r: T)
        requires
            exact::<T>(),
            det_defined(self@),
        ensures
            r == det(self@),
    {
        let mut total: T = constant(0);
        let mut col: usize = 0;
        while col < 4
            invariant
                col <= 4,
                exact::<T>(),
                self@.len() == 4,
                expansion_defined(self@, 4),
                total == expansion(self@, col as nat),
            decreases 4 - col,
        {
            proof {
                lemma_expansion_prefix(self@, 4, (col + 1) as nat);
            }
            total = total + self.data[0][col] * self.cofactor(0, col);
            col += 1;
        }
        total
    }

    /// Whether the matrix has an inverse: whether its determinant is not
    /// zero.
    pub fn invertible(&self) -> (r: bool)
        requires
            exact::<T>(),
            det_defined(self@),
        ensures
            r == has_inverse(self@),
    {
        let zero: T = constant(0);
        self.determinant() != zero
    }

    /// The inverse: every cofactor divided by the determinant, at the
    /// transposed place. Where the determinant is zero there is none.
    pub fn inverse(&self) -> (r: Result<Self, MatrixError>)
        requires
            exact::<T>(),
            inverse_defined(self@),
        ensures
            has_inverse(self@) ==> r.is_ok() && r.unwrap()@ == inverse_view(self@),
            !has_inverse(self@) ==> r == Err::<Self, MatrixError>(MatrixError::NotInvertible),
    {
        let zero: T = constant(0);
        let divisor = self.determinant();
        if divisor != zero {
            let mut new_matrix = Self::new();
            let mut row: usize = 0;
            while row < 4
                invariant
                    row <= 4,
                    exact::<T>(),
                    inverse_defined(self@),
                    has_inverse(self@),
                    self@.len() == 4,
                    divisor == det(self@),
                    square(new_matrix@, 4),
                    forall|i: int, j: int|
                        0 <= i < row && 0 <= j < 4 ==> (#[trigger] new_matrix@[j][i])
                            == inverse_entry(self@, j, i),
                decreases 4 - row,
            {
                let mut col: usize = 0;
                while col < 4
                    invariant
                        row < 4,
                        col <= 4,
                        exact::<T>(),
                        inverse_defined(self@),
                        has_inverse(self@),
                        self@.len() == 4,
                        divisor == det(self@),
                        square(new_matrix@, 4),
                        forall|i: int, j: int|
                            0 <= i < row && 0 <= j < 4 ==> (#[trigger] new_matrix@[j][i])
                                == inverse_entry(self@, j, i),
                        forall|j: int|
                            0 <= j < col ==> (#[trigger] new_matrix@[j][row as int])
                                == inverse_entry(self@, j, row as int),
                    decreases 4 - col,
                {
                    assert(cofactor_defined(self@, row as int, col as int));
                    let cofactor = self.cofactor(row, col);
                    new_matrix.set(col, row, cofactor / divisor);
                    col += 1;
                }
                row += 1;
            }
            assert(new_matrix@ =~~= inverse_view(self@));
            Ok(new_matrix)
        } else {
            Err(MatrixError::NotInvertible)
        }
    }

    /// The translation by `x`, `y`, `z`.
    pub fn translation(x: T, y: T, z: T) -> (r: Self)
        ensures
            exact::<T>() ==> r@ == grid(|i: int, j: int| translation_entry(x, y, z, i, j)),
    {
        let mut matrix = Self::identity_matrix();
        matrix.set(0, 3, x);
        matrix.set(1, 3, y);
        matrix.set(2, 3, z);
        assert(exact::<T>() ==> matrix@ =~~= grid(
            |i: int, j: int| translation_entry(x, y, z, i, j),
        ));
        matrix
    }

    /// The scaling by `x`, `y`, `z`.
    pub fn scaling(x: T, y: T, z: T) -> (r: Self)
        ensures
            exact::<T>() ==> r@ == grid(|i: int, j: int| scaling_entry(x, y, z, i, j)),
    {
        let mut matrix = Self::identity_matrix();
        matrix.set(0, 0, x);
        matrix.set(1, 1, y);
        matrix.set(2, 2, z);
        assert(exact::<T>() ==> matrix@ =~~= grid(|i: int, j: int| scaling_entry(x, y, z, i, j)));
        matrix
    }

    /// The shear that moves each axis in proportion to each other axis.
    pub fn sheering(xy: T, xz: T, yx: T, yz: T, zx: T, zy: T) -> (r: Self)
        ensures
            exact::<T>() ==> r@ == grid(
                |i: int, j: int| shear_entry(xy, xz, yx, yz, zx, zy, i, j),
            ),
    {
        let mut matrix = Self::identity_matrix();
        matrix.set(0, 1, xy);
        matrix.set(0, 2, xz);
        matrix.set(1, 0, yx);
        matrix.set(1, 2, yz);
        matrix.set(2, 0, zx);
        matrix.set(2, 1, zy);
        assert(exact::<T>() ==> matrix@ =~~= grid(
            |i: int, j: int| shear_entry(xy, xz, yx, yz, zx, zy, i, j),
        ));
        matrix
    }

    /// The rotation about the x axis with the cosine and the sine given.
    pub fn rotation_x(cos: T, sin: T) -> (r: Self)
        requires
            exact::<T>(),
            sin.neg_req(),
        ensures
            r@ == rotation_x_view(cos, sin),
    {
        let mut matrix = Self::identity_matrix();
        matrix.set(1, 1, cos);
        matrix.set(1, 2, sin.neg());
        matrix.set(2, 1, sin);
        matrix.set(2, 2, cos);
        assert(matrix@ =~~= rotation_x_view(cos, sin));
        matrix
    }

    /// The rotation about the y axis with the cosine and the sine given.
    pub fn rotation_y(cos: T, sin: T) -> (r: Self)
        requires
            exact::<T>(),
            sin.neg_req(),
        ensures
            r@ == rotation_y_view(cos, sin),
    {
        let mut matrix = Self::identity_matrix();
        matrix.set(0, 0, cos);
        matrix.set(0, 2, sin);
        matrix.set(2, 0, sin.neg());
        matrix.set(2, 2, cos);
        assert(matrix@ =~~= rotation_y_view(cos, sin));
        matrix
    }

    /// The rotation about the z axis with the cosine and the sine given.
    pub fn rotation_z(cos: T, sin: T) -> (r: Self)
        requires
            exact::<T>(),
            sin.neg_req(),
        ensures
            r@ == rotation_z_view(cos, sin),
    {
        let mut matrix = Self::identity_matrix();
        matrix.set(0, 0, cos);
        matrix.set(0, 1, sin.neg());
        matrix.set(1, 0, sin);
        matrix.set(1, 1, cos);
        assert(matrix@ =~~= rotation_z_view(cos, sin));
        matrix
    }
}

impl<T: Scalar + Float> Matrix<T, 4> {
    /// The rotation about the x axis by an angle in radians. The cosine and
    /// the sine of the angle are taken outside this crate: the result is
    /// [`Self::rotation_x`] of the two scalars that came back.
    pub fn rotate_x(radians: T) -> (r: Self)
        requires
            exact::<T>(),
            forall|s: T| s.neg_req(),
        ensures
            exists|cos: T, sin: T| r@ == #[trigger] rotation_x_view(cos, sin),
    {
        let cos = cosine(radians);
        let sin = sine(radians);
        let r = Self::rotation_x(cos, sin);
        r
    }

    /// The rotation about the y axis by an angle in radians. The cosine and
    /// the sine of the angle are taken outside this crate: the result is
    /// [`Self::rotation_y`] of the two scalars that came back.
    pub fn rotate_y(radians: T) -> (r: Self)
        requires
            exact::<T>(),
            forall|s: T| s.neg_req(),
        ensures
            exists|cos: T, sin: T| r@ == #[trigger] rotation_y_view(cos, sin),
    {
        let cos = cosine(radians);
        let sin = sine(radians);
        let r = Self::rotation_y(cos, sin);
        r
    }

    /// The rotation about the z axis by an angle in radians. The cosine and
    /// the sine of the angle are taken outside this crate: the result is
    /// [`Self::rotation_z`] of the two scalars that came back.
    pub fn rotate_z(radians: T) -> (r: Self)
        requires
            exact::<T>(),
            forall|s: T| s.neg_req(),
        ensures
            exists|cos: T, sin: T| r@ == #[trigger] rotation_z_view(cos, sin),
    {
        let cos = cosine(radians);
        let sin = sine(radians);
        let r = Self::rotation_z(cos, sin);
        r
    }
}

/// One step of the expansion: where the first `n` terms may be computed, so
/// may the first `k` of them, for `k` from one to `n`, and the term `k` is
/// what [`expansion`] adds.
proof fn lemma_expansion_prefix<T: Scalar>(s: Seq<Seq<T>>, n: nat, k: nat)
    requires
        s.len() > 2,
        1 <= k <= n,
        expansion_defined(s, n),
    ensures
        expansion_defined(s, k),
        expansion_defined(s, (k - 1) as nat),
        cofactor_defined(s, 0, k - 1),
        s[0][k - 1].mul_req(cofactor(s, 0, k - 1)),
        expansion(s, (k - 1) as nat).add_req(s[0][k - 1].mul_spec(cofactor(s, 0, k - 1))),
        expansion(s, k) == expansion(s, (k - 1) as nat).add_spec(
            s[0][k - 1].mul_spec(cofactor(s, 0, k - 1)),
        ),
    decreases n,
{
    if k < n {
        lemma_expansion_prefix(s, (n - 1) as nat, k);
    }
}

impl<T: Scalar, const N: usize> Mul for Matrix<T, N> {
    type Output = Matrix<T, N>;

    /// The matrix product.
    fn mul(self, rhs: Self) -> (r: Self::Output)
        ensures
            r@ == product(self@, rhs@),
    {
        let mut new_matrix: Matrix<T, N> = Matrix::new();
        let mut row: usize = 0;
        while row < N
            invariant
                row <= N,
                exact::<T>(),
                self@.len() == N,
                product_defined(self@, rhs@),
                square(new_matrix@, N as nat),
                forall|i: int, j: int|
                    0 <= i < row && 0 <= j < N ==> (#[trigger] new_matrix@[i][j]) == entry_sum(
                        self@,
                        rhs@,
                        i,
                        j,
                        N as nat,
                    ),
            decreases N - row,
        {
            let mut col: usize = 0;
            while col < N
                invariant
                    row < N,
                    col <= N,
                    exact::<T>(),
                    self@.len() == N,
                    product_defined(self@, rhs@),
                    square(new_matrix@, N as nat),
                    forall|i: int, j: int|
                        0 <= i < row && 0 <= j < N ==> (#[trigger] new_matrix@[i][j])
                            == entry_sum(self@, rhs@, i, j, N as nat),
                    forall|j: int|
                        0 <= j < col ==> (#[trigger] new_matrix@[row as int][j]) == entry_sum(
                            self@,
                            rhs@,
                            row as int,
                            j,
                            N as nat,
                        ),
                decreases N - col,
            {
                let mut sum: T = constant(0);
                let mut index: usize = 0;
                while index < N
                    invariant
                        row < N,
                        col < N,
                        index <= N,
                        exact::<T>(),
                        entry_defined(self@, rhs@, row as int, col as int, N as nat),
                        sum == entry_sum(self@, rhs@, row as int, col as int, index as nat),
                    decreases N - index,
                {
                    proof {
                        lemma_entry_prefix(
                            self@,
                            rhs@,
                            row as int,
                            col as int,
                            N as nat,
                            (index + 1) as nat,
                        );
                    }
                    sum = sum + self.data[row][index] * rhs.data[index][col];
                    index += 1;
                }
                new_matrix.set(row, col, sum);
                col += 1;
            }
            row += 1;
        }
        assert(new_matrix@ =~~= product(self@, rhs@));
        proof {
            lemma_view_determines(new_matrix, product_matrix(self, rhs));
        }
        new_matrix
    }
}

impl<T: Scalar, const N: usize> vstd::std_specs::ops::MulSpecImpl for Matrix<T, N> {
    open spec fn obeys_mul_spec() -> bool {
        exact::<T>()
    }

    open spec fn mul_req(self, rhs: Self) -> bool {
        &&& exact::<T>()
        &&& product_defined(self@, rhs@)
    }

    open spec fn mul_spec(self, rhs: Self) -> Self {
        product_matrix(self, rhs)
    }
}

impl<T: Scalar, const N: usize> Mul<Tuple<T>> for Matrix<T, N> {
    type Output = Tuple<T>;

    /// The matrix applied to a tuple: each of the first four rows meets the
    /// whole tuple, the weight included.
    fn mul(self, rhs: Tuple<T>) -> (r: Tuple<T>) {
        Tuple {
            x: self.row_times(0, &rhs),
            y: self.row_times(1, &rhs),
            z: self.row_times(2, &rhs),
            w: self.row_times(3, &rhs),
        }
    }
}

impl<T: Scalar, const N: usize> vstd::std_specs::ops::MulSpecImpl<Tuple<T>> for Matrix<T, N> {
    open spec fn obeys_mul_spec() -> bool {
        exact::<T>()
    }

    open spec fn mul_req(self, rhs: Tuple<T>) -> bool {
        &&& exact::<T>()
        &&& N >= 4
        &&& apply_defined(self@, rhs)
    }

    open spec fn mul_spec(self, rhs: Tuple<T>) -> Tuple<T> {
        apply(self@, rhs)
    }
}

impl<T: Scalar, const N: usize> Matrix<T, N> {
    /// Row `i` applied to a tuple.
    fn row_times(&self, i: usize, t: &Tuple<T>) -> (r: T)
        requires
            exact::<T>(),
            N >= 4,
            i < 4,
            row_dot_defined(self@[i as int], *t),
        ensures
            r == row_dot(self@[i as int], *t),
    {
        let zero: T = constant(0);
        zero + self.data[i][0] * t.x + self.data[i][1] * t.y + self.data[i][2] * t.z
            + self.data[i][3] * t.w
    }
}

/// One step of the sum along a row and a column: where the first `n`
/// products may be added, so may the first `k`, for `k` from one to `n`.
proof fn lemma_entry_prefix<T: Scalar>(
    a: Seq<Seq<T>>,
    b: Seq<Seq<T>>,
    r: int,
    c: int,
    n: nat,
    k: nat,
)
    requires
        1 <= k <= n,
        entry_defined(a, b, r, c, n),
    ensures
        entry_defined(a, b, r, c, k),
        entry_defined(a, b, r, c, (k - 1) as nat),
        a[r][k - 1].mul_req(b[k - 1][c]),
        entry_sum(a, b, r, c, (k - 1) as nat).add_req(a[r][k - 1].mul_spec(b[k - 1][c])),
    decreases n,
{
    if k < n {
        lemma_entry_prefix(a, b, r, c, (n - 1) as nat, k);
    }
}

/// Zero and one act in `T` as they do in a ring: zero added to a scalar, on
/// either side, gives the scalar; one times a scalar, on either side, gives
/// the scalar; zero times a scalar, on either side, gives zero.
pub open spec fn neutral_elements<T: Scalar>() -> bool {
    &&& forall|a: T| #[trigger] lit::<T>(0).add_spec(a) == a
    &&& forall|a: T| #[trigger] a.add_spec(lit::<T>(0)) == a
    &&& forall|a: T| #[trigger] lit::<T>(1).mul_spec(a) == a
    &&& forall|a: T| #[trigger] a.mul_spec(lit::<T>(1)) == a
    &&& forall|a: T| #[trigger] lit::<T>(0).mul_spec(a) == lit::<T>(0)
    &&& forall|a: T| #[trigger] a.mul_spec(lit::<T>(0)) == lit::<T>(0)
}

/// A translation moves a point by its offsets and keeps it a point.
pub proof fn lemma_translation_moves_points<T: Scalar>(x: T, y: T, z: T, px: T, py: T, pz: T)
    requires
        neutral_elements::<T>(),
    ensures
        apply(
            grid(|i: int, j: int| translation_entry(x, y, z, i, j)),
            Tuple { x: px, y: py, z: pz, w: lit::<T>(1) },
        ) == (Tuple {
            x: px.add_spec(x),
            y: py.add_spec(y),
            z: pz.add_spec(z),
            w: lit::<T>(1),
        }),
{
}

/// A translation leaves every vector as it is.
pub proof fn lemma_translation_keeps_vectors<T: Scalar>(x: T, y: T, z: T, vx: T, vy: T, vz: T)
    requires
        neutral_elements::<T>(),
    ensures
        apply(
            grid(|i: int, j: int| translation_entry(x, y, z, i, j)),
            Tuple { x: vx, y: vy, z: vz, w: lit::<T>(0) },
        ) == (Tuple { x: vx, y: vy, z: vz, w: lit::<T>(0) }),
{
}

/// A scaling multiplies each coordinate of a tuple by its factor and keeps
/// the weight.
pub proof fn lemma_scaling_scales<T: Scalar>(x: T, y: T, z: T, t: Tuple<T>)
    requires
        neutral_elements::<T>(),
    ensures
        apply(grid(|i: int, j: int| scaling_entry(x, y, z, i, j)), t) == (Tuple {
            x: x.mul_spec(t.x),
            y: y.mul_spec(t.y),
            z: z.mul_spec(t.z),
            w: t.w,
        }),
{
}

} // verus!
