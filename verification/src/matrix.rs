//! Square matrices of scalars, stored row by row, and the operations on them
//! that move entries without computing with them.

use vstd::prelude::*;
use vstd::arithmetic::div_mod::lemma_fundamental_div_mod_converse;
use crate::scalar::Scalar;

verus! {

/// What a matrix is: its dimension and its entries, row by row.
pub struct MatrixView {
    pub dim: nat,
    pub entries: Seq<Scalar>,
}

/// The dimension that a matrix built from `len` entries gets: 4, 3 or 2 for
/// 16, 9 or 4 entries, and 0 for any other number.
pub open spec fn dim_for_len(len: nat) -> nat {
    if len == 16 {
        4
    } else if len == 9 {
        3
    } else if len == 4 {
        2
    } else {
        0
    }
}

/// The index in the full matrix of the `a`-th row (or column) that is left
/// when row (or column) `removed` is deleted.
pub open spec fn skip_over(a: int, removed: int) -> int {
    if a < removed {
        a
    } else {
        a + 1
    }
}

impl MatrixView {
    /// The matrix is square: it has `dim * dim` entries.
    pub open spec fn wf(self) -> bool {
        self.entries.len() == self.dim * self.dim
    }

    /// The entry in row `row` and column `col`.
    pub open spec fn at(self, row: int, col: int) -> Scalar {
        self.entries[row * self.dim + col]
    }

    /// The matrix with rows and columns exchanged.
    pub open spec fn transposed(self) -> MatrixView {
        MatrixView {
            dim: self.dim,
            entries: Seq::new(
                self.dim * self.dim,
                |k: int| self.at(k % (self.dim as int), k / (self.dim as int)),
            ),
        }
    }

    /// The entries that are left when row `i` and column `j` are deleted,
    /// row by row.
    pub open spec fn entries_without(self, i: int, j: int) -> Seq<Scalar> {
        let n = (self.dim - 1) as nat;
        Seq::new(n * n, |k: int| self.at(skip_over(k / (n as int), i), skip_over(k % (n as int), j)))
    }

    /// The matrix built from the entries that are left when row `i` and
    /// column `j` are deleted.
    pub open spec fn without(self, i: int, j: int) -> MatrixView {
        let entries = self.entries_without(i, j);
        MatrixView { dim: dim_for_len(entries.len()), entries }
    }

    /// The `dim` by `dim` matrix of zeros.
    pub open spec fn zeros(dim: nat) -> MatrixView {
        MatrixView { dim, entries: Seq::new(dim * dim, |k: int| Scalar::zero()) }
    }

    /// The 4 by 4 identity.
    pub open spec fn identity() -> MatrixView {
        let o = Scalar::zero();
        let i = Scalar::one();
        MatrixView { dim: 4, entries: seq![i, o, o, o, o, i, o, o, o, o, i, o, o, o, o, i] }
    }

    /// The translation by `(x, y, z)`.
    pub open spec fn translation(x: Scalar, y: Scalar, z: Scalar) -> MatrixView {
        let o = Scalar::zero();
        let i = Scalar::one();
        MatrixView { dim: 4, entries: seq![i, o, o, x, o, i, o, y, o, o, i, z, o, o, o, i] }
    }

    /// The scaling by `(x, y, z)`.
    pub open spec fn scaling(x: Scalar, y: Scalar, z: Scalar) -> MatrixView {
        let o = Scalar::zero();
        let i = Scalar::one();
        MatrixView { dim: 4, entries: seq![x, o, o, o, o, y, o, o, o, o, z, o, o, o, o, i] }
    }

    /// The rotation about the x axis by the angle with cosine `c` and sine `s`.
    pub open spec fn rotation_x(c: Scalar, s: Scalar) -> MatrixView {
        let o = Scalar::zero();
        let i = Scalar::one();
        let m = s.spec_neg();
        MatrixView { dim: 4, entries: seq![i, o, o, o, o, c, m, o, o, s, c, o, o, o, o, i] }
    }

    /// The rotation about the y axis by the angle with cosine `c` and sine `s`.
    pub open spec fn rotation_y(c: Scalar, s: Scalar) -> MatrixView {
        let o = Scalar::zero();
        let i = Scalar::one();
        let m = s.spec_neg();
        MatrixView { dim: 4, entries: seq![c, o, s, o, o, i, o, o, m, o, c, o, o, o, o, i] }
    }

    /// The rotation about the z axis by the angle with cosine `c` and sine `s`.
    pub open spec fn rotation_z(c: Scalar, s: Scalar) -> MatrixView {
        let o = Scalar::zero();
        let i = Scalar::one();
        let m = s.spec_neg();
        MatrixView { dim: 4, entries: seq![c, m, o, o, s, c, o, o, o, o, i, o, o, o, o, i] }
    }

    /// The shear that moves each coordinate in proportion to the two others.
    pub open spec fn shearing(
        xy: Scalar,
        xz: Scalar,
        yx: Scalar,
        yz: Scalar,
        zx: Scalar,
        zy: Scalar,
    ) -> MatrixView {
        let o = Scalar::zero();
        let i = Scalar::one();
        MatrixView { dim: 4, entries: seq![i, xy, xz, o, yx, i, yz, o, zx, zy, i, o, o, o, o, i] }
    }
}

/// The cofactor that belongs to a minor: the minor itself where `i + j` is
/// even, the negated minor where it is odd.
pub open spec fn cofactor_of(minor: Scalar, i: nat, j: nat) -> Scalar {
    if (i + j) % 2 == 0 {
        minor
    } else {
        minor.spec_neg()
    }
}

/// How many of the indices below `a` are left when index `removed` is deleted.
pub open spec fn kept_below(a: int, removed: int) -> int {
    if a <= removed {
        a
    } else {
        a - 1
    }
}

/// A row-major position inside a square matrix lies inside its store.
pub proof fn lemma_position_in_range(row: int, col: int, dim: int)
    by (nonlinear_arith)
    requires
        0 <= row < dim,
        0 <= col < dim,
    ensures
        0 <= row * dim <= row * dim + col < dim * dim,
{
}

/// A square matrix of scalars in row-major order.
#[derive(Debug)]
pub struct Matrix {
    dim: usize,
    matrix: Vec<Scalar>,
}

impl View for Matrix {
    type V = MatrixView;

    closed spec fn view(&self) -> MatrixView {
        MatrixView { dim: self.dim as nat, entries: self.matrix@ }
    }
}

impl Clone for Matrix {
    fn clone(&self) -> (r: Self)
        ensures
            r@ == self@,
    {
        let mut matrix: Vec<Scalar> = Vec::new();
        let mut k: usize = 0;
        while k < self.matrix.len()
            invariant
                k <= self.matrix.len(),
                matrix@ == self.matrix@.subrange(0, k as int),
            decreases self.matrix.len() - k,
        {
            matrix.push(self.matrix[k]);
            k += 1;
            assert(matrix@ =~= self.matrix@.subrange(0, k as int));
        }
        assert(matrix@ =~= self.matrix@);
        Matrix { dim: self.dim, matrix }
    }
}

impl Matrix {
    /// The `dim` by `dim` matrix of zeros.
    pub fn with_dim(dim: usize) -> (r: Matrix)
        requires
            dim * dim <= usize::MAX,
        ensures
            r@ == MatrixView::zeros(dim as nat),
            r@.wf(),
    {
        let n: usize = dim * dim;
        let mut matrix: Vec<Scalar> = Vec::new();
        let mut k: usize = 0;
        while k < n
            invariant
                k <= n,
                matrix@.len() == k,
                forall|a: int| 0 <= a < k ==> matrix@[a] == Scalar::zero(),
            decreases n - k,
        {
            matrix.push(Scalar::zero());
            k += 1;
        }
        assert(matrix@ =~= MatrixView::zeros(dim as nat).entries);
        Matrix { dim, matrix }
    }

    /// The matrix with the given entries, row by row. Its dimension is 4, 3
    /// or 2 for 16, 9 or 4 entries, and 0 for any other number of them.
    pub fn with_vec(matrix: Vec<Scalar>) -> (r: Matrix)
        ensures
            r@.entries == matrix@,
            r@.dim == dim_for_len(matrix@.len()),
            r@.wf() <==> (matrix@.len() == 16 || matrix@.len() == 9 || matrix@.len() == 4
                || matrix@.len() == 0),
    {
        let len: usize = matrix.len();
        let dim: usize = if len == 16 {
            4
        } else if len == 9 {
            3
        } else if len == 4 {
            2
        } else {
            0
        };
        Matrix { dim, matrix }
    }

    /// The 4 by 4 matrix with the given sixteen entries.
    fn four_by_four(matrix: Vec<Scalar>) -> (r: Matrix)
        requires
            matrix@.len() == 16,
        ensures
            r@ == (MatrixView { dim: 4, entries: matrix@ }),
            r@.wf(),
    {
        let r = Matrix { dim: 4, matrix };
        assert(r@.dim * r@.dim == 16) by (nonlinear_arith)
            requires
                r@.dim == 4,
        ;
        r
    }

    /// The dimension.
    pub fn dim(&self) -> (r: usize)
        ensures
            r == self@.dim,
    {
        self.dim
    }

    /// The entries, row by row.
    pub fn entries(&self) -> (r: &Vec<Scalar>)
        ensures
            r@ == self@.entries,
    {
        &self.matrix
    }

    /// The entry in row `row` and column `col`.
    pub fn get(&self, row: usize, col: usize) -> (r: Scalar)
        requires
            self@.wf(),
            row < self@.dim,
            col < self@.dim,
        ensures
            r == self@.at(row as int, col as int),
    {
        proof {
            lemma_position_in_range(row as int, col as int, self.dim as int);
            assert(self.matrix.len() == self.dim * self.dim);
        }
        self.matrix[row * self.dim + col]
    }

    /// Replaces the entry in row `row` and column `col` by `val`.
    pub fn set(&mut self, row: usize, col: usize, val: Scalar)
        requires
            old(self)@.wf(),
            row < old(self)@.dim,
            col < old(self)@.dim,
        ensures
            final(self)@.dim == old(self)@.dim,
            final(self)@.entries == old(self)@.entries.update(row * old(self)@.dim + col, val),
            final(self)@.wf(),
    {
        proof {
            lemma_position_in_range(row as int, col as int, self.dim as int);
            assert(self.matrix.len() == self.dim * self.dim);
        }
        self.matrix.set(row * self.dim + col, val);
    }

    /// The 4 by 4 identity.
    pub fn identity() -> (r: Matrix)
        ensures
            r@ == MatrixView::identity(),
            r@.wf(),
    {
        let o = Scalar::zero();
        let i = Scalar::one();
        let matrix = vec![i, o, o, o, o, i, o, o, o, o, i, o, o, o, o, i];
        assert(matrix@ =~= MatrixView::identity().entries);
        Matrix::four_by_four(matrix)
    }

    /// The transpose of a 4 by 4 matrix.
    pub fn transpose(&self) -> (r: Matrix)
        requires
            self@.wf(),
            self@.dim == 4,
        ensures
            r@ == self@.transposed(),
            r@.wf(),
    {
        let mut ret = Matrix::with_dim(4);
        let mut row: usize = 0;
        while row < 4
            invariant
                row <= 4,
                self@.wf(),
                self@.dim == 4,
                ret@.dim == 4,
                ret@.entries.len() == 16,
                forall|a: int, b: int|
                    0 <= a < row && 0 <= b < 4 ==> #[trigger] ret@.at(b, a) == self@.at(a, b),
            decreases 4 - row,
        {
            let mut col: usize = 0;
            while col < 4
                invariant
                    row < 4,
                    col <= 4,
                    self@.wf(),
                    self@.dim == 4,
                    ret@.dim == 4,
                    ret@.entries.len() == 16,
                    forall|a: int, b: int|
                        0 <= a < row && 0 <= b < 4 ==> #[trigger] ret@.at(b, a) == self@.at(a, b),
                    forall|b: int|
                        0 <= b < col ==> #[trigger] ret@.at(b, row as int) == self@.at(
                            row as int,
                            b,
                        ),
                decreases 4 - col,
            {
                let val = self.get(row, col);
                let ghost before = ret@;
                ret.set(col, row, val);
                assert(ret@.entries == before.entries.update(col * 4 + row, val));
                assert forall|a: int, b: int| 0 <= a < row && 0 <= b < 4 implies #[trigger] ret@.at(
                    b,
                    a,
                ) == self@.at(a, b) by {
                    assert(before.at(b, a) == self@.at(a, b));
                }
                assert forall|b: int| 0 <= b < col + 1 implies #[trigger] ret@.at(b, row as int)
                    == self@.at(row as int, b) by {
                    if b < col {
                        assert(before.at(b, row as int) == self@.at(row as int, b));
                    }
                }
                col += 1;
            }
            row += 1;
        }
        proof {
            let want = self@.transposed();
            assert forall|k: int| 0 <= k < 16 implies ret@.entries[k] == want.entries[k] by {
                let a = k % 4;
                let b = k / 4;
                assert(k == b * 4 + a);
                assert(ret@.at(b, a) == self@.at(a, b));
            }
            assert(ret@.entries =~= want.entries);
        }
        ret
    }

    /// The matrix that is left when row `i` and column `j` are deleted.
    ///
    /// The entries that are left keep their order. The dimension follows from
    /// their number as in [`Matrix::with_vec`]: a 4 by 4 matrix gives a 3 by 3
    /// one, a 3 by 3 matrix a 2 by 2 one.
    pub fn sub(&self, i: usize, j: usize) -> (r: Matrix)
        requires
            self@.wf(),
            i < self@.dim,
            j < self@.dim,
        ensures
            r@ == self@.without(i as int, j as int),
            3 <= self@.dim <= 5 ==> r@.wf() && r@.dim == self@.dim - 1,
    {
        let dim: usize = self.dim;
        let n: usize = dim - 1;
        let ghost target = self@.entries_without(i as int, j as int);
        let mut vec: Vec<Scalar> = Vec::new();
        let mut row: usize = 0;
        assert(0 * n == 0);
        while row < dim
            invariant
                self@.wf(),
                dim == self@.dim,
                n == dim - 1,
                i < dim,
                j < dim,
                row <= dim,
                target == self@.entries_without(i as int, j as int),
                target.len() == n * n,
                vec@.len() == kept_below(row as int, i as int) * n,
                vec@.len() <= target.len(),
                forall|k: int| 0 <= k < vec@.len() ==> vec@[k] == target[k],
            decreases dim - row,
        {
            let ghost base = kept_below(row as int, i as int) * n;
            let mut col: usize = 0;
            while col < dim
                invariant
                    self@.wf(),
                    dim == self@.dim,
                    n == dim - 1,
                    i < dim,
                    j < dim,
                    row < dim,
                    col <= dim,
                    target == self@.entries_without(i as int, j as int),
                    base == kept_below(row as int, i as int) * n,
                    target.len() == n * n,
                    vec@.len() == base + (if row == i {
                        0
                    } else {
                        kept_below(col as int, j as int)
                    }),
                    vec@.len() <= target.len(),
                    forall|k: int| 0 <= k < vec@.len() ==> vec@[k] == target[k],
                decreases dim - col,
            {
                if row != i && col != j {
                    let val = self.get(row, col);
                    proof {
                        let a = kept_below(row as int, i as int);
                        let b = kept_below(col as int, j as int);
                        let k = a * n + b;
                        assert(0 <= a < n && 0 <= b < n);
                        lemma_position_in_range(a, b, n as int);
                        lemma_fundamental_div_mod_converse(k, n as int, a, b);
                        assert(skip_over(a, i as int) == row);
                        assert(skip_over(b, j as int) == col);
                        assert(target.len() == n * n);
                        assert(target[k] == val);
                    }
                    vec.push(val);
                }
                col += 1;
            }
            proof {
                let a = kept_below(row as int, i as int);
                assert((a + 1) * n == a * n + n) by (nonlinear_arith);
            }
            row += 1;
        }
        assert(vec@ =~= target);
        assert(3 <= dim <= 5 ==> n * n == dim_for_len((n * n) as nat) * dim_for_len(
            (n * n) as nat,
        ) && dim_for_len((n * n) as nat) == n) by (nonlinear_arith)
            requires
                n == dim - 1,
        ;
        Matrix::with_vec(vec)
    }

    /// The translation by `(x, y, z)`.
    pub fn translate(x: Scalar, y: Scalar, z: Scalar) -> (r: Matrix)
        ensures
            r@ == MatrixView::translation(x, y, z),
            r@.wf(),
    {
        let o = Scalar::zero();
        let i = Scalar::one();
        let matrix = vec![i, o, o, x, o, i, o, y, o, o, i, z, o, o, o, i];
        assert(matrix@ =~= MatrixView::translation(x, y, z).entries);
        Matrix::four_by_four(matrix)
    }

    /// The scaling by `(x, y, z)`.
    pub fn scale(x: Scalar, y: Scalar, z: Scalar) -> (r: Matrix)
        ensures
            r@ == MatrixView::scaling(x, y, z),
            r@.wf(),
    {
        let o = Scalar::zero();
        let i = Scalar::one();
        let matrix = vec![x, o, o, o, o, y, o, o, o, o, z, o, o, o, o, i];
        assert(matrix@ =~= MatrixView::scaling(x, y, z).entries);
        Matrix::four_by_four(matrix)
    }

    /// The rotation about the x axis by the angle whose cosine is `cos` and
    /// whose sine is `sin`.
    pub fn rotate_x(cos: Scalar, sin: Scalar) -> (r: Matrix)
        ensures
            r@ == MatrixView::rotation_x(cos, sin),
            r@.wf(),
    {
        let o = Scalar::zero();
        let i = Scalar::one();
        let m = sin.neg();
        let matrix = vec![i, o, o, o, o, cos, m, o, o, sin, cos, o, o, o, o, i];
        assert(matrix@ =~= MatrixView::rotation_x(cos, sin).entries);
        Matrix::four_by_four(matrix)
    }

    /// The rotation about the y axis by the angle whose cosine is `cos` and
    /// whose sine is `sin`.
    pub fn rotate_y(cos: Scalar, sin: Scalar) -> (r: Matrix)
        ensures
            r@ == MatrixView::rotation_y(cos, sin),
            r@.wf(),
    {
        let o = Scalar::zero();
        let i = Scalar::one();
        let m = sin.neg();
        let matrix = vec![cos, o, sin, o, o, i, o, o, m, o, cos, o, o, o, o, i];
        assert(matrix@ =~= MatrixView::rotation_y(cos, sin).entries);
        Matrix::four_by_four(matrix)
    }

    /// The rotation about the z axis by the angle whose cosine is `cos` and
    /// whose sine is `sin`.
    pub fn rotate_z(cos: Scalar, sin: Scalar) -> (r: Matrix)
        ensures
            r@ == MatrixView::rotation_z(cos, sin),
            r@.wf(),
    {
        let o = Scalar::zero();
        let i = Scalar::one();
        let m = sin.neg();
        let matrix = vec![cos, m, o, o, sin, cos, o, o, o, o, i, o, o, o, o, i];
        assert(matrix@ =~= MatrixView::rotation_z(cos, sin).entries);
        Matrix::four_by_four(matrix)
    }

    /// The shear that moves x in proportion to y and z, y in proportion to x
    /// and z, and z in proportion to x and y.
    pub fn shear(xy: Scalar, xz: Scalar, yx: Scalar, yz: Scalar, zx: Scalar, zy: Scalar) -> (r:
        Matrix)
        ensures
            r@ == MatrixView::shearing(xy, xz, yx, yz, zx, zy),
            r@.wf(),
    {
        let o = Scalar::zero();
        let i = Scalar::one();
        let matrix = vec![i, xy, xz, o, yx, i, yz, o, zx, zy, i, o, o, o, o, i];
        assert(matrix@ =~= MatrixView::shearing(xy, xz, yx, yz, zx, zy).entries);
        Matrix::four_by_four(matrix)
    }

    /// The cofactor for row `i` and column `j`, given the minor there: the
    /// minor itself where `i + j` is even, its negation where it is odd.
    pub fn cofactor(minor: Scalar, i: usize, j: usize) -> (r: Scalar)
        ensures
            r == cofactor_of(minor, i as nat, j as nat),
    {
        if i % 2 == j % 2 {
            minor
        } else {
            minor.neg()
        }
    }
}

/// The identity is its own transpose.
pub proof fn lemma_identity_is_symmetric()
    ensures
        MatrixView::identity().transposed() == MatrixView::identity(),
{
    let id = MatrixView::identity();
    assert forall|k: int| 0 <= k < 16 implies id.transposed().entries[k] == id.entries[k] by {
        let a = k % 4;
        let b = k / 4;
        assert(k == b * 4 + a);
        assert(id.transposed().entries[k] == id.entries[a * 4 + b]);
        assert((a == 0 || a == 1 || a == 2 || a == 3) && (b == 0 || b == 1 || b == 2 || b == 3));
    }
    assert(id.transposed().entries =~= id.entries);
}

/// Transposing a 4 by 4 matrix twice gives it back.
pub proof fn lemma_transpose_involutive(m: MatrixView)
    requires
        m.wf(),
        m.dim == 4,
    ensures
        m.transposed().transposed() == m,
{
    let t = m.transposed();
    assert forall|k: int| 0 <= k < 16 implies t.transposed().entries[k] == m.entries[k] by {
        let a = k % 4;
        let b = k / 4;
        assert(t.at(a, b) == t.entries[a * 4 + b]);
        assert((a * 4 + b) % 4 == b);
        assert((a * 4 + b) / 4 == a);
    }
    assert(t.transposed().entries =~= m.entries);
}

/// Transposition exchanges rows and columns: the entry of the transpose in
/// row `row` and column `col` is the entry of the matrix in row `col` and
/// column `row`.
pub proof fn lemma_transpose_exchanges(m: MatrixView, row: int, col: int)
    requires
        m.wf(),
        m.dim == 4,
        0 <= row < 4,
        0 <= col < 4,
    ensures
        m.transposed().at(row, col) == m.at(col, row),
{
}

/// Deleting a row and a column leaves, at row `a` and column `b`, the entry
/// that stood at the `a`-th remaining row and the `b`-th remaining column.
pub proof fn lemma_without_entry(m: MatrixView, i: int, j: int, a: int, b: int)
    requires
        m.wf(),
        0 <= i < m.dim,
        0 <= j < m.dim,
        0 <= a < m.dim - 1,
        0 <= b < m.dim - 1,
    ensures
        m.entries_without(i, j).len() == (m.dim - 1) * (m.dim - 1),
        0 <= a * (m.dim - 1) + b < (m.dim - 1) * (m.dim - 1),
        m.entries_without(i, j)[a * (m.dim - 1) + b] == m.at(skip_over(a, i), skip_over(b, j)),
{
    let n = m.dim - 1;
    lemma_position_in_range(a, b, n);
    lemma_fundamental_div_mod_converse(a * n + b, n, a, b);
}

} // verus!
