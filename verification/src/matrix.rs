//! Rectangular matrices of fixed-point numbers.
//!
//! The determinant is computed by cofactor expansion along the first row,
//! the inverse as the adjugate over the determinant; both are specified by
//! recursive spec functions over the matrix's sequence-of-rows view.
use crate::number::{num_add, num_div, num_mul, num_neg, num_sub, Number, EPSILON, SCALE};
use crate::Error;
use vstd::prelude::*;

verus! {

/// A matrix with `n` rows and `m` columns.
#[derive(Debug)]
pub struct Matrix {
    pub n: usize,
    pub m: usize,
    pub elements: Vec<Vec<Number>>,
}

/// The raw value stored at row `r`, column `c`.
pub open spec fn mat_at(mx: Matrix, r: int, c: int) -> int {
    mx.elements@[r]@[c]@
}

/// Well-formedness: at least one row and one column, every row of width `m`.
pub open spec fn mat_wf(mx: Matrix) -> bool {
    &&& mx.n >= 1
    &&& mx.m >= 1
    &&& mx.elements@.len() == mx.n
    &&& forall|i: int| 0 <= i < mx.n ==> mx.elements@[i]@.len() == mx.m
}

/// The matrix as a sequence of rows of raw values.
pub open spec fn mat_seq(mx: Matrix) -> Seq<Seq<int>> {
    Seq::new(mx.n as nat, |i: int| Seq::new(mx.m as nat, |j: int| mat_at(mx, i, j)))
}

/// The sequence view with row `r` and column `c` removed.
pub open spec fn seq_sub(s: Seq<Seq<int>>, r: int, c: int) -> Seq<Seq<int>> {
    Seq::new(
        (s.len() - 1) as nat,
        |i: int|
            Seq::new(
                (s[0].len() - 1) as nat,
                |j: int|
                    s[if i < r {
                        i
                    } else {
                        i + 1
                    }][if j < c {
                        j
                    } else {
                        j + 1
                    }],
            ),
    )
}

/// The determinant of the leading `n x n` view of `s`, by cofactor
/// expansion along row zero, in fixed-point arithmetic. The empty
/// determinant is one, so that a minor of a one-by-one matrix is one.
pub open spec fn seq_det(s: Seq<Seq<int>>, n: nat) -> int
    decreases n, 1nat, 0nat,
{
    if n == 0 {
        SCALE as int
    } else if n == 1 {
        s[0][0]
    } else {
        seq_det_sum(s, n, n)
    }
}

/// The partial cofactor sum over the first `col` columns of row zero.
pub open spec fn seq_det_sum(s: Seq<Seq<int>>, n: nat, col: nat) -> int
    decreases n, 0nat, col,
{
    if col == 0 || n == 0 {
        0
    } else {
        let c = (col - 1) as nat;
        let term = num_mul(s[0][c as int], seq_det(seq_sub(s, 0, c as int), (n - 1) as nat));
        let prev = seq_det_sum(s, n, c);
        if c % 2 == 0 {
            num_add(prev, term)
        } else {
            num_sub(prev, term)
        }
    }
}

/// One entry of the inverse: the signed minor at the transposed position,
/// divided by the determinant.
pub open spec fn seq_inv_entry(s: Seq<Seq<int>>, n: nat, det: int, r: int, c: int) -> int {
    let minor = seq_det(seq_sub(s, c, r), (n - 1) as nat);
    if (r + c) % 2 == 0 {
        num_div(minor, det)
    } else {
        num_div(num_neg(minor), det)
    }
}


/// The inverse as a sequence view: every entry is `seq_inv_entry`.
pub open spec fn seq_inverse(s: Seq<Seq<int>>, n: nat) -> Seq<Seq<int>> {
    Seq::new(n, |i: int| Seq::new(n, |j: int| seq_inv_entry(s, n, seq_det(s, n), i, j)))
}

/// The transposed sequence view.
pub open spec fn seq_transpose(s: Seq<Seq<int>>, n: nat, m: nat) -> Seq<Seq<int>> {
    Seq::new(m, |i: int| Seq::new(n, |j: int| s[j][i]))
}

/// The fixed-point dot product of row `i` of `a` with column `j` of `b`,
/// over the first `k` terms, summed left to right.
pub open spec fn seq_row_dot(a: Seq<Seq<int>>, b: Seq<Seq<int>>, i: int, j: int, k: nat) -> int
    decreases k,
{
    if k <= 1 {
        num_mul(a[i][0], b[0][j])
    } else {
        num_add(
            seq_row_dot(a, b, i, j, (k - 1) as nat),
            num_mul(a[i][k - 1], b[k - 1][j]),
        )
    }
}

impl Matrix {
    /// A zero-filled matrix with `n` rows and `m` columns.
    pub fn new(n: usize, m: usize) -> (r: Matrix)
        requires
            n >= 1,
            m >= 1,
        ensures
            mat_wf(r),
            r.n == n,
            r.m == m,
            forall|i: int, j: int| 0 <= i < n && 0 <= j < m ==> mat_at(r, i, j) == 0,
    {
        let mut elements: Vec<Vec<Number>> = Vec::new();
        let mut i: usize = 0;
        while i < n
            invariant
                0 <= i <= n,
                elements@.len() == i,
                forall|a: int| 0 <= a < i ==> elements@[a]@.len() == m,
                forall|a: int, b: int|
                    0 <= a < i && 0 <= b < m ==> elements@[a]@[b]@ == 0,
            decreases n - i,
        {
            let mut row: Vec<Number> = Vec::new();
            let mut j: usize = 0;
            while j < m
                invariant
                    0 <= j <= m,
                    row@.len() == j,
                    forall|b: int| 0 <= b < j ==> row@[b]@ == 0,
                decreases m - j,
            {
                row.push(Number::zero());
                j = j + 1;
            }
            elements.push(row);
            i = i + 1;
        }
        Matrix { n, m, elements }
    }

    /// Copies the given rows into a matrix; rejected when there is no row,
    /// no column, or a row of a different width than the first.
    pub fn from_elements(elements: &Vec<Vec<Number>>) -> (r: Result<Matrix, Error>)
        ensures
            r is Ok <==> (elements@.len() >= 1 && elements@[0]@.len() >= 1 && forall|i: int|
                0 <= i < elements@.len() ==> #[trigger] elements@[i]@.len()
                    == elements@[0]@.len()),
            r matches Ok(mx) ==> {
                &&& mat_wf(mx)
                &&& mx.n == elements@.len()
                &&& mx.m == elements@[0]@.len()
                &&& forall|i: int, j: int|
                    0 <= i < mx.n && 0 <= j < mx.m ==> mat_at(mx, i, j) == elements@[i]@[j]@
            },
    {
        let n = elements.len();
        if n == 0 {
            return Err(Error::new("Number of rows must be positive"));
        }
        let m = elements[0].len();
        if m == 0 {
            return Err(Error::new("Number of columns must be positive"));
        }
        let mut new_elements: Vec<Vec<Number>> = Vec::new();
        let mut i: usize = 0;
        while i < n
            invariant
                0 <= i <= n,
                n == elements@.len(),
                m == elements@[0]@.len(),
                m >= 1,
                new_elements@.len() == i,
                forall|a: int| 0 <= a < i ==> elements@[a]@.len() == m,
                forall|a: int| 0 <= a < i ==> new_elements@[a]@.len() == m,
                forall|a: int, b: int|
                    0 <= a < i && 0 <= b < m ==> new_elements@[a]@[b]@ == elements@[a]@[b]@,
            decreases n - i,
        {
            let src = &elements[i];
            if src.len() != m {
                return Err(Error::new("All rows must have the same number of columns"));
            }
            let mut row: Vec<Number> = Vec::new();
            let mut j: usize = 0;
            while j < m
                invariant
                    0 <= j <= m,
                    m == src@.len(),
                    row@.len() == j,
                    forall|b: int| 0 <= b < j ==> row@[b]@ == src@[b]@,
                decreases m - j,
            {
                row.push(src[j]);
                j = j + 1;
            }
            new_elements.push(row);
            i = i + 1;
        }
        Ok(Matrix { n, m, elements: new_elements })
    }

    /// The identity matrix of size `n`.
    pub fn identity(n: usize) -> (r: Matrix)
        requires
            n >= 1,
        ensures
            mat_wf(r),
            r.n == n,
            r.m == n,
            forall|i: int, j: int|
                0 <= i < n && 0 <= j < n ==> mat_at(r, i, j) == if i == j {
                    SCALE as int
                } else {
                    0
                },
    {
        let mut ret = Matrix::new(n, n);
        let mut i: usize = 0;
        while i < n
            invariant
                0 <= i <= n,
                mat_wf(ret),
                ret.n == n,
                ret.m == n,
                forall|a: int, b: int|
                    0 <= a < n && 0 <= b < n ==> mat_at(ret, a, b) == if a == b && a < i {
                        SCALE as int
                    } else {
                        0
                    },
            decreases n - i,
        {
            ret.set(i, i, Number::one());
            i = i + 1;
        }
        ret
    }

    /// The pair (rows, columns).
    pub fn size(&self) -> (r: (usize, usize))
        ensures
            r.0 == self.n,
            r.1 == self.m,
    {
        (self.n, self.m)
    }

    /// The number of rows.
    pub fn num_rows(&self) -> (r: usize)
        ensures
            r == self.n,
    {
        self.n
    }

    /// The number of columns.
    pub fn num_cols(&self) -> (r: usize)
        ensures
            r == self.m,
    {
        self.m
    }

    /// The entry at `row`, `col`.
    pub fn get(&self, row: usize, col: usize) -> (r: Number)
        requires
            mat_wf(*self),
            row < self.n,
            col < self.m,
        ensures
            r@ == mat_at(*self, row as int, col as int),
    {
        self.elements[row][col]
    }

    /// Replaces the entry at `row`, `col`.
    pub fn set(&mut self, row: usize, col: usize, value: Number)
        requires
            mat_wf(*old(self)),
            row < old(self).n,
            col < old(self).m,
        ensures
            mat_wf(*final(self)),
            final(self).n == old(self).n,
            final(self).m == old(self).m,
            mat_at(*final(self), row as int, col as int) == value@,
            forall|i: int, j: int|
                0 <= i < old(self).n && 0 <= j < old(self).m && !(i == row && j == col)
                    ==> mat_at(*final(self), i, j) == mat_at(*old(self), i, j),
    {
        let mut the_row = self.elements.remove(row);
        the_row[col] = value;
        self.elements.insert(row, the_row);
        proof {
            assert(forall|i: int|
                0 <= i < old(self).n ==> final(self).elements@[i]@.len() == old(self).m);
        }
    }

    /// A deep copy of the matrix.
    pub fn duplicate(&self) -> (r: Matrix)
        requires
            mat_wf(*self),
        ensures
            mat_wf(r),
            r.n == self.n,
            r.m == self.m,
            forall|i: int, j: int|
                0 <= i < self.n && 0 <= j < self.m ==> mat_at(r, i, j) == mat_at(*self, i, j),
            mat_seq(r) == mat_seq(*self),
    {
        let ret = match Matrix::from_elements(&self.elements) {
            Ok(mx) => mx,
            Err(_) => {
                proof {
                    assert(false);
                }
                Matrix::new(1, 1)
            },
        };
        proof {
            lemma_mat_seq_pointwise(ret, *self);
        }
        ret
    }

    /// Multiplies each entry by `factor`.
    pub fn scale(&self, factor: Number) -> (r: Matrix)
        requires
            mat_wf(*self),
        ensures
            mat_wf(r),
            r.n == self.n,
            r.m == self.m,
            forall|i: int, j: int|
                0 <= i < self.n && 0 <= j < self.m ==> mat_at(r, i, j) == num_mul(
                    mat_at(*self, i, j),
                    factor@,
                ),
    {
        let mut ret = Matrix::new(self.n, self.m);
        let mut i: usize = 0;
        while i < self.n
            invariant
                0 <= i <= self.n,
                mat_wf(*self),
                mat_wf(ret),
                ret.n == self.n,
                ret.m == self.m,
                forall|a: int, b: int|
                    0 <= a < i && 0 <= b < self.m ==> mat_at(ret, a, b) == num_mul(
                        mat_at(*self, a, b),
                        factor@,
                    ),
            decreases self.n - i,
        {
            let mut j: usize = 0;
            while j < self.m
                invariant
                    0 <= i < self.n,
                    0 <= j <= self.m,
                    mat_wf(*self),
                    mat_wf(ret),
                    ret.n == self.n,
                    ret.m == self.m,
                    forall|a: int, b: int|
                        0 <= a < i && 0 <= b < self.m ==> mat_at(ret, a, b) == num_mul(
                            mat_at(*self, a, b),
                            factor@,
                        ),
                    forall|b: int|
                        0 <= b < j ==> mat_at(ret, i as int, b) == num_mul(
                            mat_at(*self, i as int, b),
                            factor@,
                        ),
                decreases self.m - j,
            {
                let v = self.get(i, j);
                ret.set(i, j, v.mul(factor));
                j = j + 1;
            }
            i = i + 1;
        }
        ret
    }

    /// The transposed matrix.
    pub fn transpose(&self) -> (r: Matrix)
        requires
            mat_wf(*self),
        ensures
            mat_wf(r),
            r.n == self.m,
            r.m == self.n,
            forall|i: int, j: int|
                0 <= i < self.m && 0 <= j < self.n ==> mat_at(r, i, j) == mat_at(*self, j, i),
            mat_seq(r) == seq_transpose(mat_seq(*self), self.n as nat, self.m as nat),
    {
        let mut ret = Matrix::new(self.m, self.n);
        let mut i: usize = 0;
        while i < self.m
            invariant
                0 <= i <= self.m,
                mat_wf(*self),
                mat_wf(ret),
                ret.n == self.m,
                ret.m == self.n,
                forall|a: int, b: int|
                    0 <= a < i && 0 <= b < self.n ==> mat_at(ret, a, b) == mat_at(*self, b, a),
            decreases self.m - i,
        {
            let mut j: usize = 0;
            while j < self.n
                invariant
                    0 <= i < self.m,
                    0 <= j <= self.n,
                    mat_wf(*self),
                    mat_wf(ret),
                    ret.n == self.m,
                    ret.m == self.n,
                    forall|a: int, b: int|
                        0 <= a < i && 0 <= b < self.n ==> mat_at(ret, a, b) == mat_at(*self, b, a),
                    forall|b: int|
                        0 <= b < j ==> mat_at(ret, i as int, b) == mat_at(*self, b, i as int),
                decreases self.n - j,
            {
                let v = self.get(j, i);
                ret.set(i, j, v);
                j = j + 1;
            }
            i = i + 1;
        }
        proof {
            assert(mat_seq(ret) =~~= seq_transpose(mat_seq(*self), self.n as nat, self.m as nat));
        }
        ret
    }

    /// Whether the two matrices have the same shape and entries.
    pub fn equals(&self, other: &Matrix) -> (r: bool)
        requires
            mat_wf(*self),
            mat_wf(*other),
        ensures
            r == (self.n == other.n && self.m == other.m && forall|i: int, j: int|
                0 <= i < self.n && 0 <= j < self.m ==> mat_at(*self, i, j) == mat_at(
                    *other,
                    i,
                    j,
                )),
    {
        if self.n != other.n || self.m != other.m {
            return false;
        }
        let mut i: usize = 0;
        while i < self.n
            invariant
                0 <= i <= self.n,
                mat_wf(*self),
                mat_wf(*other),
                self.n == other.n,
                self.m == other.m,
                forall|a: int, b: int|
                    0 <= a < i && 0 <= b < self.m ==> mat_at(*self, a, b) == mat_at(*other, a, b),
            decreases self.n - i,
        {
            let mut j: usize = 0;
            while j < self.m
                invariant
                    0 <= i < self.n,
                    0 <= j <= self.m,
                    mat_wf(*self),
                    mat_wf(*other),
                    self.n == other.n,
                    self.m == other.m,
                    forall|a: int, b: int|
                        0 <= a < i && 0 <= b < self.m ==> mat_at(*self, a, b) == mat_at(
                            *other,
                            a,
                            b,
                        ),
                    forall|b: int|
                        0 <= b < j ==> mat_at(*self, i as int, b) == mat_at(*other, i as int, b),
                decreases self.m - j,
            {
                if self.get(i, j).raw() != other.get(i, j).raw() {
                    return false;
                }
                j = j + 1;
            }
            i = i + 1;
        }
        true
    }

    /// Whether the two matrices agree entrywise within `tolerance`.
    pub fn within(&self, other: &Matrix, tolerance: Number) -> (r: bool)
        requires
            mat_wf(*self),
            mat_wf(*other),
        ensures
            r == (self.n == other.n && self.m == other.m && forall|i: int, j: int|
                0 <= i < self.n && 0 <= j < self.m ==> crate::number::num_abs(
                    mat_at(*self, i, j) - mat_at(*other, i, j),
                ) <= tolerance@),
    {
        if self.n != other.n || self.m != other.m {
            return false;
        }
        let mut i: usize = 0;
        while i < self.n
            invariant
                0 <= i <= self.n,
                mat_wf(*self),
                mat_wf(*other),
                self.n == other.n,
                self.m == other.m,
                forall|a: int, b: int|
                    0 <= a < i && 0 <= b < self.m ==> crate::number::num_abs(
                        mat_at(*self, a, b) - mat_at(*other, a, b),
                    ) <= tolerance@,
            decreases self.n - i,
        {
            let mut j: usize = 0;
            while j < self.m
                invariant
                    0 <= i < self.n,
                    0 <= j <= self.m,
                    mat_wf(*self),
                    mat_wf(*other),
                    self.n == other.n,
                    self.m == other.m,
                    forall|a: int, b: int|
                        0 <= a < i && 0 <= b < self.m ==> crate::number::num_abs(
                            mat_at(*self, a, b) - mat_at(*other, a, b),
                        ) <= tolerance@,
                    forall|b: int|
                        0 <= b < j ==> crate::number::num_abs(
                            mat_at(*self, i as int, b) - mat_at(*other, i as int, b),
                        ) <= tolerance@,
                decreases self.m - j,
            {
                if !self.get(i, j).within(other.get(i, j), tolerance) {
                    return false;
                }
                j = j + 1;
            }
            i = i + 1;
        }
        true
    }

    /// The matrix product; rejected when the inner dimensions differ.
    pub fn multiply(&self, other: &Matrix) -> (r: Result<Matrix, Error>)
        requires
            mat_wf(*self),
            mat_wf(*other),
        ensures
            r is Ok <==> self.m == other.n,
            r matches Ok(mx) ==> {
                &&& mat_wf(mx)
                &&& mx.n == self.n
                &&& mx.m == other.m
                &&& forall|i: int, j: int|
                    0 <= i < self.n && 0 <= j < other.m ==> mat_at(mx, i, j) == seq_row_dot(
                        mat_seq(*self),
                        mat_seq(*other),
                        i,
                        j,
                        self.m as nat,
                    )
            },
    {
        if self.m != other.n {
            return Err(Error::new("Matrix sizes do not match for multiplication"));
        }
        let mut ret = Matrix::new(self.n, other.m);
        let mut i: usize = 0;
        while i < self.n
            invariant
                0 <= i <= self.n,
                mat_wf(*self),
                mat_wf(*other),
                self.m == other.n,
                mat_wf(ret),
                ret.n == self.n,
                ret.m == other.m,
                forall|a: int, b: int|
                    0 <= a < i && 0 <= b < other.m ==> mat_at(ret, a, b) == seq_row_dot(
                        mat_seq(*self),
                        mat_seq(*other),
                        a,
                        b,
                        self.m as nat,
                    ),
            decreases self.n - i,
        {
            let mut j: usize = 0;
            while j < other.m
                invariant
                    0 <= i < self.n,
                    0 <= j <= other.m,
                    mat_wf(*self),
                    mat_wf(*other),
                    self.m == other.n,
                    mat_wf(ret),
                    ret.n == self.n,
                    ret.m == other.m,
                    forall|a: int, b: int|
                        0 <= a < i && 0 <= b < other.m ==> mat_at(ret, a, b) == seq_row_dot(
                            mat_seq(*self),
                            mat_seq(*other),
                            a,
                            b,
                            self.m as nat,
                        ),
                    forall|b: int|
                        0 <= b < j ==> mat_at(ret, i as int, b) == seq_row_dot(
                            mat_seq(*self),
                            mat_seq(*other),
                            i as int,
                            b,
                            self.m as nat,
                        ),
                decreases other.m - j,
            {
                let mut sum = self.get(i, 0).mul(other.get(0, j));
                let mut k: usize = 1;
                while k < self.m
                    invariant
                        0 <= i < self.n,
                        0 <= j < other.m,
                        1 <= k <= self.m,
                        mat_wf(*self),
                        mat_wf(*other),
                        self.m == other.n,
                        sum@ == seq_row_dot(
                            mat_seq(*self),
                            mat_seq(*other),
                            i as int,
                            j as int,
                            k as nat,
                        ),
                    decreases self.m - k,
                {
                    sum = sum.add(self.get(i, k).mul(other.get(k, j)));
                    k = k + 1;
                }
                ret.set(i, j, sum);
                j = j + 1;
            }
            i = i + 1;
        }
        Ok(ret)
    }

    /// The matrix with row `row_idx` and column `col_idx` removed.
    pub fn sub_matrix(&self, row_idx: usize, col_idx: usize) -> (r: Matrix)
        requires
            mat_wf(*self),
            self.n >= 2,
            self.m >= 2,
            row_idx < self.n,
            col_idx < self.m,
        ensures
            mat_wf(r),
            r.n == self.n - 1,
            r.m == self.m - 1,
            mat_seq(r) == seq_sub(mat_seq(*self), row_idx as int, col_idx as int),
            forall|i: int, j: int|
                0 <= i < r.n && 0 <= j < r.m ==> mat_at(r, i, j) == mat_at(
                    *self,
                    if i < row_idx {
                        i
                    } else {
                        i + 1
                    },
                    if j < col_idx {
                        j
                    } else {
                        j + 1
                    },
                ),
    {
        let mut data: Vec<Vec<Number>> = Vec::new();
        let mut r: usize = 0;
        while r < self.n
            invariant
                0 <= r <= self.n,
                mat_wf(*self),
                row_idx < self.n,
                col_idx < self.m,
                data@.len() == if r <= row_idx {
                    r as int
                } else {
                    r - 1
                },
                forall|a: int| 0 <= a < data@.len() ==> data@[a]@.len() == self.m - 1,
                forall|a: int, b: int|
                    0 <= a < data@.len() && 0 <= b < self.m - 1 ==> data@[a]@[b]@ == mat_at(
                        *self,
                        if a < row_idx {
                            a
                        } else {
                            a + 1
                        },
                        if b < col_idx {
                            b
                        } else {
                            b + 1
                        },
                    ),
            decreases self.n - r,
        {
            if r != row_idx {
                let mut row: Vec<Number> = Vec::new();
                let mut c: usize = 0;
                while c < self.m
                    invariant
                        0 <= c <= self.m,
                        0 <= r < self.n,
                        mat_wf(*self),
                        col_idx < self.m,
                        row@.len() == if c <= col_idx {
                            c as int
                        } else {
                            c - 1
                        },
                        forall|b: int|
                            0 <= b < row@.len() ==> row@[b]@ == mat_at(
                                *self,
                                r as int,
                                if b < col_idx {
                                    b
                                } else {
                                    b + 1
                                },
                            ),
                    decreases self.m - c,
                {
                    if c != col_idx {
                        row.push(self.get(r, c));
                    }
                    c = c + 1;
                }
                data.push(row);
            }
            r = r + 1;
        }
        let ret = Matrix { n: self.n - 1, m: self.m - 1, elements: data };
        proof {
            assert(mat_seq(ret) =~~= seq_sub(mat_seq(*self), row_idx as int, col_idx as int));
        }
        ret
    }

    /// The determinant, by cofactor expansion along row zero; rejected for
    /// a non-square matrix.
    pub fn determinant(&self) -> (r: Result<Number, Error>)
        requires
            mat_wf(*self),
        ensures
            r is Ok <==> self.n == self.m,
            r matches Ok(d) ==> d@ == seq_det(mat_seq(*self), self.n as nat),
        decreases self.n,
    {
        if self.n != self.m {
            return Err(Error::new("Determinant can not be calculated for non-square matrices"));
        }
        if self.n == 1 {
            return Ok(self.get(0, 0));
        }
        let mut ret = Number::zero();
        let mut col: usize = 0;
        while col < self.m
            invariant
                0 <= col <= self.m,
                mat_wf(*self),
                self.n == self.m,
                self.n >= 2,
                ret@ == seq_det_sum(mat_seq(*self), self.n as nat, col as nat),
            decreases self.m - col,
        {
            let sub = self.sub_matrix(0, col);
            let sub_det = match sub.determinant() {
                Ok(d) => d,
                Err(_) => {
                    proof {
                        assert(false);
                    }
                    Number::zero()
                },
            };
            let term = self.get(0, col).mul(sub_det);
            if col % 2 == 0 {
                ret = ret.add(term);
            } else {
                ret = ret.sub(term);
            }
            col = col + 1;
        }
        Ok(ret)
    }

    /// The inverse, as the adjugate over the determinant; rejected for a
    /// non-square matrix and for a determinant within `EPSILON` of zero.
    pub fn invert(&self) -> (r: Result<Matrix, Error>)
        requires
            mat_wf(*self),
        ensures
            r is Ok <==> (self.n == self.m && crate::number::num_abs(
                seq_det(mat_seq(*self), self.n as nat),
            ) >= EPSILON as int),
            r matches Ok(mx) ==> {
                &&& mat_wf(mx)
                &&& mx.n == self.n
                &&& mx.m == self.n
                &&& forall|i: int, j: int|
                    0 <= i < self.n && 0 <= j < self.n ==> mat_at(mx, i, j) == seq_inv_entry(
                        mat_seq(*self),
                        self.n as nat,
                        seq_det(mat_seq(*self), self.n as nat),
                        i,
                        j,
                    )
                &&& mat_seq(mx) == seq_inverse(mat_seq(*self), self.n as nat)
            },
    {
        if self.n != self.m {
            return Err(Error::new("Non-square matrices can not be inverted"));
        }
        let det = match self.determinant() {
            Ok(d) => d,
            Err(_) => {
                proof {
                    assert(false);
                }
                Number::zero()
            },
        };
        if det.raw() == 0 {
            return Err(Error::new("Cannot invert matrix with zero determinant"));
        }
        if self.n == 1 {
            let mut inv = Matrix::new(1, 1);
            inv.set(0, 0, Number::one().div(det));
            proof {
                assert(mat_seq(inv) =~~= seq_inverse(mat_seq(*self), self.n as nat));
            }
            return Ok(inv);
        }
        let mut inv = Matrix::new(self.n, self.n);
        let mut i: usize = 0;
        while i < self.n
            invariant
                0 <= i <= self.n,
                mat_wf(*self),
                self.n == self.m,
                self.n >= 2,
                det@ == seq_det(mat_seq(*self), self.n as nat),
                det@ != 0,
                mat_wf(inv),
                inv.n == self.n,
                inv.m == self.n,
                forall|a: int, b: int|
                    0 <= a < i && 0 <= b < self.n ==> mat_at(inv, a, b) == seq_inv_entry(
                        mat_seq(*self),
                        self.n as nat,
                        det@,
                        a,
                        b,
                    ),
            decreases self.n - i,
        {
            let mut j: usize = 0;
            while j < self.n
                invariant
                    0 <= i < self.n,
                    0 <= j <= self.n,
                    mat_wf(*self),
                    self.n == self.m,
                    self.n >= 2,
                    det@ == seq_det(mat_seq(*self), self.n as nat),
                    det@ != 0,
                    mat_wf(inv),
                    inv.n == self.n,
                    inv.m == self.n,
                    forall|a: int, b: int|
                        0 <= a < i && 0 <= b < self.n ==> mat_at(inv, a, b) == seq_inv_entry(
                            mat_seq(*self),
                            self.n as nat,
                            det@,
                            a,
                            b,
                        ),
                    forall|b: int|
                        0 <= b < j ==> mat_at(inv, i as int, b) == seq_inv_entry(
                            mat_seq(*self),
                            self.n as nat,
                            det@,
                            i as int,
                            b,
                        ),
                decreases self.n - j,
            {
                let sub = self.sub_matrix(j, i);
                let minor = match sub.determinant() {
                    Ok(d) => d,
                    Err(_) => {
                        proof {
                            assert(false);
                        }
                        Number::zero()
                    },
                };
                let even = (i % 2) == (j % 2);
                proof {
                    assert(((i as int) + (j as int)) % 2 == 0 <==> (i as int) % 2 == (j as int)
                        % 2);
                }
                let value = if even {
                    minor.div(det)
                } else {
                    minor.neg().div(det)
                };
                inv.set(i, j, value);
                j = j + 1;
            }
            i = i + 1;
        }
        proof {
            assert(mat_seq(inv) =~~= seq_inverse(mat_seq(*self), self.n as nat));
        }
        Ok(inv)
    }
}

/// Two matrices with equal shape and entries have the same sequence view.
proof fn lemma_mat_seq_pointwise(a: Matrix, b: Matrix)
    requires
        a.n == b.n,
        a.m == b.m,
        forall|i: int, j: int| 0 <= i < a.n && 0 <= j < a.m ==> mat_at(a, i, j) == mat_at(b, i, j),
    ensures
        mat_seq(a) == mat_seq(b),
{
    assert(mat_seq(a) =~~= mat_seq(b));
}

} // verus!

verus! {

/// A four-by-four matrix as a plain value: the pose type stored by scene
/// objects, patterns and the camera. Unlike `Matrix` it is `Copy`, so
/// intersection records can carry the owning object by value.
#[derive(Clone, Copy, Debug, PartialEq, Eq, Structural)]
pub struct Mat4 {
    pub e00: Number,
    pub e01: Number,
    pub e02: Number,
    pub e03: Number,
    pub e10: Number,
    pub e11: Number,
    pub e12: Number,
    pub e13: Number,
    pub e20: Number,
    pub e21: Number,
    pub e22: Number,
    pub e23: Number,
    pub e30: Number,
    pub e31: Number,
    pub e32: Number,
    pub e33: Number,
}

/// The raw value at row `i`, column `j` of a `Mat4`.
pub open spec fn mat4_at(m: Mat4, i: int, j: int) -> int {
    if i == 0 {
        if j == 0 { m.e00@ } else if j == 1 { m.e01@ } else if j == 2 { m.e02@ } else { m.e03@ }
    } else if i == 1 {
        if j == 0 { m.e10@ } else if j == 1 { m.e11@ } else if j == 2 { m.e12@ } else { m.e13@ }
    } else if i == 2 {
        if j == 0 { m.e20@ } else if j == 1 { m.e21@ } else if j == 2 { m.e22@ } else { m.e23@ }
    } else {
        if j == 0 { m.e30@ } else if j == 1 { m.e31@ } else if j == 2 { m.e32@ } else { m.e33@ }
    }
}

/// The sequence view of a `Mat4`.
pub open spec fn mat4_seq(m: Mat4) -> Seq<Seq<int>> {
    Seq::new(4, |i: int| Seq::new(4, |j: int| mat4_at(m, i, j)))
}

/// The identity pose.
pub open spec fn mat4_identity_spec() -> Mat4 {
    Mat4 {
        e00: Number { raw: SCALE },
        e01: Number { raw: 0 },
        e02: Number { raw: 0 },
        e03: Number { raw: 0 },
        e10: Number { raw: 0 },
        e11: Number { raw: SCALE },
        e12: Number { raw: 0 },
        e13: Number { raw: 0 },
        e20: Number { raw: 0 },
        e21: Number { raw: 0 },
        e22: Number { raw: SCALE },
        e23: Number { raw: 0 },
        e30: Number { raw: 0 },
        e31: Number { raw: 0 },
        e32: Number { raw: 0 },
        e33: Number { raw: SCALE },
    }
}

impl Mat4 {
    /// The identity pose.
    pub fn identity() -> (r: Mat4)
        ensures
            r == mat4_identity_spec(),
    {
        Mat4 {
            e00: Number::one(),
            e01: Number::zero(),
            e02: Number::zero(),
            e03: Number::zero(),
            e10: Number::zero(),
            e11: Number::one(),
            e12: Number::zero(),
            e13: Number::zero(),
            e20: Number::zero(),
            e21: Number::zero(),
            e22: Number::one(),
            e23: Number::zero(),
            e30: Number::zero(),
            e31: Number::zero(),
            e32: Number::zero(),
            e33: Number::one(),
        }
    }

    /// Captures a four-by-four `Matrix`; rejected for any other shape.
    pub fn from_matrix(m: &Matrix) -> (r: Result<Mat4, Error>)
        requires
            mat_wf(*m),
        ensures
            r is Ok <==> (m.n == 4 && m.m == 4),
            r matches Ok(m4) ==> mat4_seq(m4) == mat_seq(*m),
    {
        if m.num_rows() != 4 || m.num_cols() != 4 {
            return Err(Error::new("Matrix sizes do not match for multiplication"));
        }
        let r = Mat4 {
            e00: m.get(0, 0),
            e01: m.get(0, 1),
            e02: m.get(0, 2),
            e03: m.get(0, 3),
            e10: m.get(1, 0),
            e11: m.get(1, 1),
            e12: m.get(1, 2),
            e13: m.get(1, 3),
            e20: m.get(2, 0),
            e21: m.get(2, 1),
            e22: m.get(2, 2),
            e23: m.get(2, 3),
            e30: m.get(3, 0),
            e31: m.get(3, 1),
            e32: m.get(3, 2),
            e33: m.get(3, 3),
        };
        proof {
            assert(mat4_seq(r) =~~= mat_seq(*m));
        }
        Ok(r)
    }

    /// The pose as a general `Matrix`.
    pub fn to_matrix(&self) -> (r: Matrix)
        ensures
            mat_wf(r),
            r.n == 4,
            r.m == 4,
            mat_seq(r) == mat4_seq(*self),
    {
        let mut ret = Matrix::new(4, 4);
        ret.set(0, 0, self.e00);
        ret.set(0, 1, self.e01);
        ret.set(0, 2, self.e02);
        ret.set(0, 3, self.e03);
        ret.set(1, 0, self.e10);
        ret.set(1, 1, self.e11);
        ret.set(1, 2, self.e12);
        ret.set(1, 3, self.e13);
        ret.set(2, 0, self.e20);
        ret.set(2, 1, self.e21);
        ret.set(2, 2, self.e22);
        ret.set(2, 3, self.e23);
        ret.set(3, 0, self.e30);
        ret.set(3, 1, self.e31);
        ret.set(3, 2, self.e32);
        ret.set(3, 3, self.e33);
        proof {
            assert(mat_seq(ret) =~~= mat4_seq(*self));
        }
        ret
    }
}

} // verus!
