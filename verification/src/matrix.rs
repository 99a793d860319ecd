//! Dense vectors and matrices of single-precision bit patterns, with the
//! handful of linear-algebra operations the engine needs.  Every operation is
//! pinned, element by element and in accumulation order, to a spec-level
//! counterpart built from the named scalar operations.
use vstd::prelude::*;

use crate::scalar::{spec_sum, spec_prod, add_bits, mul_bits, random_unit_bits, ONE_BITS, ZERO_BITS};

verus! {

/// The elementwise sum of two equally long vectors.
pub open spec fn vec_sum(a: Seq<u32>, b: Seq<u32>) -> Seq<u32> {
    Seq::new(a.len(), |i: int| spec_sum(a[i], b[i]))
}

/// The elementwise (Hadamard) product of two equally long vectors.
pub open spec fn vec_hadamard(a: Seq<u32>, b: Seq<u32>) -> Seq<u32> {
    Seq::new(a.len(), |i: int| spec_prod(a[i], b[i]))
}

/// The running left-to-right dot product of the first `n` coordinates:
/// each product is rounded, then added to the accumulator, which starts at
/// positive zero.
pub open spec fn dot_prefix(r: Seq<u32>, v: Seq<u32>, n: int) -> u32
    decreases n,
{
    if n <= 0 {
        ZERO_BITS
    } else {
        spec_sum(dot_prefix(r, v, n - 1), spec_prod(r[n - 1], v[n - 1]))
    }
}

/// The dot product of two equally long vectors, accumulated left to right.
pub open spec fn dot(r: Seq<u32>, v: Seq<u32>) -> u32 {
    dot_prefix(r, v, r.len() as int)
}

/// Matrix-vector product: one dot product per row.
pub open spec fn mat_vec(m: Seq<Seq<u32>>, v: Seq<u32>) -> Seq<u32> {
    Seq::new(m.len(), |i: int| dot(m[i], v))
}

/// The running dot product of column `j` of `m` with `v`, over the first `n`
/// rows, accumulated top to bottom from positive zero.
pub open spec fn col_dot_prefix(m: Seq<Seq<u32>>, v: Seq<u32>, j: int, n: int) -> u32
    decreases n,
{
    if n <= 0 {
        ZERO_BITS
    } else {
        spec_sum(col_dot_prefix(m, v, j, n - 1), spec_prod(m[n - 1][j], v[n - 1]))
    }
}

/// Transposed matrix-vector product: coordinate `j` of the result is the dot
/// product of column `j` of `m` with `v`.
pub open spec fn tmat_vec(m: Seq<Seq<u32>>, v: Seq<u32>, cols: int) -> Seq<u32> {
    Seq::new(cols as nat, |j: int| col_dot_prefix(m, v, j, m.len() as int))
}

/// The outer product of a column vector and a row vector.
pub open spec fn outer(e: Seq<u32>, a: Seq<u32>) -> Seq<Seq<u32>> {
    Seq::new(e.len(), |i: int| Seq::new(a.len(), |j: int| spec_prod(e[i], a[j])))
}

/// The elementwise sum of two matrices of equal shape.
pub open spec fn mat_sum(a: Seq<Seq<u32>>, b: Seq<Seq<u32>>) -> Seq<Seq<u32>> {
    Seq::new(a.len(), |i: int| vec_sum(a[i], b[i]))
}

/// The all-zero vector of the given length.
pub open spec fn zero_vec(n: int) -> Seq<u32> {
    Seq::new(n as nat, |i: int| ZERO_BITS)
}

/// The all-zero matrix of the given shape.
pub open spec fn zero_mat(r: int, c: int) -> Seq<Seq<u32>> {
    Seq::new(r as nat, |i: int| zero_vec(c))
}

/// A dense matrix, stored row-major; entry (i, j) is `rows[i][j]`.
pub struct Matrix {
    pub rows: Vec<Vec<u32>>,
}

impl View for Matrix {
    type V = Seq<Seq<u32>>;

    open spec fn view(&self) -> Seq<Seq<u32>> {
        self.rows@.map_values(|r: Vec<u32>| r@)
    }
}

impl Matrix {
    /// A well-formed matrix has at least one row and rectangular rows.
    pub open spec fn wf(&self) -> bool {
        &&& self@.len() > 0
        &&& forall|i: int| 0 <= i < self@.len() ==> (#[trigger] self@[i]).len() == self@[0].len()
    }

    /// The column count of a well-formed matrix.
    pub open spec fn cols(&self) -> int {
        self@[0].len() as int
    }

    /// The number of rows.
    pub fn nrows(&self) -> (n: usize)
        ensures
            n == self@.len(),
    {
        self.rows.len()
    }

    /// The number of columns.
    pub fn ncols(&self) -> (n: usize)
        requires
            self.wf(),
        ensures
            n == self.cols(),
    {
        self.rows[0].len()
    }

    /// The all-zero matrix of the given shape.
    pub fn zeros(r: usize, c: usize) -> (m: Matrix)
        requires
            r >= 1,
        ensures
            m.wf(),
            m@ == zero_mat(r as int, c as int),
            m@.len() == r,
            m.cols() == c,
    {
        let mut rows: Vec<Vec<u32>> = Vec::new();
        for i in 0..r
            invariant
                rows@.len() == i,
                forall|k: int| 0 <= k < i ==> (#[trigger] rows@[k])@ == zero_vec(c as int),
        {
            let mut row: Vec<u32> = Vec::new();
            for j in 0..c
                invariant
                    row@.len() == j,
                    forall|k: int| 0 <= k < j ==> row@[k] == ZERO_BITS,
            {
                row.push(ZERO_BITS);
            }
            proof {
                assert(row@ =~= zero_vec(c as int));
            }
            rows.push(row);
        }
        let m = Matrix { rows };
        proof {
            assert(m@ =~= zero_mat(r as int, c as int));
        }
        m
    }

    /// A matrix of the given shape filled with fresh random values, each in
    /// [0, 1) — as bit patterns, strictly below the pattern of one.
    pub fn random(r: usize, c: usize) -> (m: Matrix)
        requires
            r >= 1,
        ensures
            m.wf(),
            m@.len() == r,
            m.cols() == c,
            forall|i: int, j: int| 0 <= i < r && 0 <= j < c ==> #[trigger] m@[i][j] < ONE_BITS,
    {
        let mut rows: Vec<Vec<u32>> = Vec::new();
        for i in 0..r
            invariant
                rows@.len() == i,
                forall|k: int| 0 <= k < i ==> (#[trigger] rows@[k])@.len() == c,
                forall|k: int, j: int|
                    0 <= k < i && 0 <= j < c ==> #[trigger] rows@[k]@[j] < ONE_BITS,
        {
            let mut row: Vec<u32> = Vec::new();
            for j in 0..c
                invariant
                    row@.len() == j,
                    forall|q: int| 0 <= q < j ==> #[trigger] row@[q] < ONE_BITS,
            {
                row.push(random_unit_bits());
            }
            rows.push(row);
        }
        let m = Matrix { rows };
        proof {
            assert(forall|i: int| 0 <= i < m@.len() ==> (#[trigger] m@[i]).len() == c);
            assert(forall|i: int, j: int|
                0 <= i < r && 0 <= j < c ==> #[trigger] m@[i][j] == rows@[i]@[j]);
        }
        m
    }

    /// Matrix-vector product, each row folded left to right.
    pub fn mul_vec(&self, v: &Vec<u32>) -> (out: Vec<u32>)
        requires
            self.wf(),
            v@.len() == self.cols(),
        ensures
            out@ == mat_vec(self@, v@),
            out@.len() == self@.len(),
    {
        let n = self.rows.len();
        let mut out: Vec<u32> = Vec::new();
        for i in 0..n
            invariant
                self.wf(),
                v@.len() == self.cols(),
                n == self@.len(),
                out@.len() == i,
                forall|k: int| 0 <= k < i ==> out@[k] == dot(self@[k], v@),
        {
            let row = &self.rows[i];
            let c = row.len();
            let mut acc: u32 = ZERO_BITS;
            for j in 0..c
                invariant
                    self.wf(),
                    v@.len() == self.cols(),
                    0 <= i < self@.len(),
                    row@ == self@[i as int],
                    c == row@.len(),
                    acc == dot_prefix(self@[i as int], v@, j as int),
            {
                acc = add_bits(acc, mul_bits(row[j], v[j]));
            }
            out.push(acc);
        }
        proof {
            assert(out@ =~= mat_vec(self@, v@));
        }
        out
    }

    /// Transposed matrix-vector product, each column folded top to bottom.
    pub fn transpose_mul_vec(&self, v: &Vec<u32>) -> (out: Vec<u32>)
        requires
            self.wf(),
            v@.len() == self@.len(),
        ensures
            out@ == tmat_vec(self@, v@, self.cols()),
            out@.len() == self.cols(),
    {
        let n = self.rows.len();
        let c = self.rows[0].len();
        let mut out: Vec<u32> = Vec::new();
        for j in 0..c
            invariant
                self.wf(),
                v@.len() == self@.len(),
                n == self@.len(),
                c == self.cols(),
                out@.len() == j,
                forall|k: int| 0 <= k < j ==> out@[k] == col_dot_prefix(self@, v@, k, self@.len() as int),
        {
            let mut acc: u32 = ZERO_BITS;
            for i in 0..n
                invariant
                    self.wf(),
                    v@.len() == self@.len(),
                    n == self@.len(),
                    c == self.cols(),
                    0 <= j < c,
                    acc == col_dot_prefix(self@, v@, j as int, i as int),
            {
                proof {
                    assert(self.rows@[i as int]@ == self@[i as int]);
                    assert(self@[i as int].len() == self.cols());
                }
                acc = add_bits(acc, mul_bits(self.rows[i][j], v[i]));
            }
            out.push(acc);
        }
        proof {
            assert(out@ =~= tmat_vec(self@, v@, self.cols()));
        }
        out
    }

    /// The elementwise sum of two matrices of equal shape.
    pub fn plus(&self, other: &Matrix) -> (out: Matrix)
        requires
            self.wf(),
            other.wf(),
            other@.len() == self@.len(),
            other.cols() == self.cols(),
        ensures
            out.wf(),
            out@ == mat_sum(self@, other@),
            out@.len() == self@.len(),
            out.cols() == self.cols(),
    {
        let n = self.rows.len();
        let mut rows: Vec<Vec<u32>> = Vec::new();
        for i in 0..n
            invariant
                self.wf(),
                other.wf(),
                other@.len() == self@.len(),
                other.cols() == self.cols(),
                n == self@.len(),
                rows@.len() == i,
                forall|k: int| 0 <= k < i ==> (#[trigger] rows@[k])@ == vec_sum(self@[k], other@[k]),
        {
            proof {
                assert(self.rows@[i as int]@ == self@[i as int]);
                assert(other.rows@[i as int]@ == other@[i as int]);
                assert(self@[i as int].len() == self.cols());
                assert(other@[i as int].len() == other.cols());
            }
            rows.push(vec_plus(&self.rows[i], &other.rows[i]));
        }
        let out = Matrix { rows };
        proof {
            assert(out@ =~= mat_sum(self@, other@));
            assert(out@[0].len() == self@[0].len());
        }
        out
    }
}

/// The elementwise sum of two equally long vectors.
pub fn vec_plus(a: &Vec<u32>, b: &Vec<u32>) -> (out: Vec<u32>)
    requires
        a@.len() == b@.len(),
    ensures
        out@ == vec_sum(a@, b@),
        out@.len() == a@.len(),
{
    let n = a.len();
    let mut out: Vec<u32> = Vec::new();
    for i in 0..n
        invariant
            a@.len() == b@.len(),
            n == a@.len(),
            out@.len() == i,
            forall|k: int| 0 <= k < i ==> out@[k] == spec_sum(a@[k], b@[k]),
    {
        out.push(add_bits(a[i], b[i]));
    }
    proof {
        assert(out@ =~= vec_sum(a@, b@));
    }
    out
}

/// The elementwise product of two equally long vectors.
pub fn vec_hadamard_mul(a: &Vec<u32>, b: &Vec<u32>) -> (out: Vec<u32>)
    requires
        a@.len() == b@.len(),
    ensures
        out@ == vec_hadamard(a@, b@),
        out@.len() == a@.len(),
{
    let n = a.len();
    let mut out: Vec<u32> = Vec::new();
    for i in 0..n
        invariant
            a@.len() == b@.len(),
            n == a@.len(),
            out@.len() == i,
            forall|k: int| 0 <= k < i ==> out@[k] == spec_prod(a@[k], b@[k]),
    {
        out.push(mul_bits(a[i], b[i]));
    }
    proof {
        assert(out@ =~= vec_hadamard(a@, b@));
    }
    out
}

/// The outer product of a column vector and a row vector.
pub fn outer_product(e: &Vec<u32>, a: &Vec<u32>) -> (out: Matrix)
    requires
        e@.len() > 0,
    ensures
        out.wf(),
        out@ == outer(e@, a@),
        out@.len() == e@.len(),
        out.cols() == a@.len(),
{
    let n = e.len();
    let c = a.len();
    let mut rows: Vec<Vec<u32>> = Vec::new();
    for i in 0..n
        invariant
            n == e@.len(),
            c == a@.len(),
            rows@.len() == i,
            forall|k: int| 0 <= k < i ==> (#[trigger] rows@[k])@ == Seq::new(a@.len(), |j: int| spec_prod(e@[k], a@[j])),
    {
        let mut row: Vec<u32> = Vec::new();
        for j in 0..c
            invariant
                n == e@.len(),
                c == a@.len(),
                0 <= i < e@.len(),
                row@.len() == j,
                forall|k: int| 0 <= k < j ==> row@[k] == spec_prod(e@[i as int], a@[k]),
        {
            row.push(mul_bits(e[i], a[j]));
        }
        proof {
            assert(row@ =~= Seq::new(a@.len(), |j: int| spec_prod(e@[i as int], a@[j])));
        }
        rows.push(row);
    }
    let out = Matrix { rows };
    proof {
        assert(out@ =~= outer(e@, a@));
    }
    out
}

/// The all-zero vector of the given length.
pub fn zero_vector(n: usize) -> (out: Vec<u32>)
    ensures
        out@ == zero_vec(n as int),
        out@.len() == n,
{
    let mut out: Vec<u32> = Vec::new();
    for i in 0..n
        invariant
            out@.len() == i,
            forall|k: int| 0 <= k < i ==> out@[k] == ZERO_BITS,
    {
        out.push(ZERO_BITS);
    }
    proof {
        assert(out@ =~= zero_vec(n as int));
    }
    out
}

} // verus!
