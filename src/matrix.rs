use vstd::prelude::*;

verus! {

/// Shapes of the two operands of an operation that does not accept them.
#[derive(Clone, Copy, Debug, PartialEq, Eq, Structural)]
pub struct DimensionMismatch {
    pub left_rows: usize,
    pub left_cols: usize,
    pub right_rows: usize,
    pub right_cols: usize,
}

/// A dense rectangular matrix, stored row by row. The element arithmetic
/// is supplied by the caller, so the type fixes only shapes and positions.
#[derive(Clone)]
pub struct Matrix<T> {
    data: Vec<Vec<T>>,
    rows: usize,
    cols: usize,
}

/// Column `j` of the rows `m`.
pub open spec fn column<T>(m: Seq<Seq<T>>, j: int) -> Seq<T> {
    Seq::new(m.len(), |k: int| m[k][j])
}

/// `acc` is the sequence of running values of folding `f` from `zero` over
/// the pairs of `a` and `b`.
pub open spec fn folds<T, F: Fn(T, T, T) -> T>(f: F, zero: T, a: Seq<T>, b: Seq<T>, acc: Seq<T>) -> bool {
    &&& a.len() == b.len()
    &&& acc.len() == a.len() + 1
    &&& acc[0] == zero
    &&& forall|k: int| 0 <= k < a.len() ==> #[trigger] f.ensures((acc[k], a[k], b[k]), acc[k + 1])
}

/// `v` is what folding `f` from `zero` over the pairs of `a` and `b` gives.
pub open spec fn folds_to<T, F: Fn(T, T, T) -> T>(f: F, zero: T, a: Seq<T>, b: Seq<T>, v: T) -> bool {
    exists|acc: Seq<T>| folds(f, zero, a, b, acc) && acc.last() == v
}

impl<T> View for Matrix<T> {
    type V = Seq<Seq<T>>;

    closed spec fn view(&self) -> Seq<Seq<T>> {
        self.data@.map_values(|row: Vec<T>| row@)
    }
}

impl<T: Copy> Matrix<T> {
    pub closed spec fn num_rows(&self) -> nat {
        self.rows as nat
    }

    pub closed spec fn num_cols(&self) -> nat {
        self.cols as nat
    }

    /// Every row holds exactly `num_cols` entries.
    pub open spec fn wf(&self) -> bool {
        &&& self@.len() == self.num_rows()
        &&& forall|i: int| 0 <= i < self@.len() ==> (#[trigger] self@[i]).len() == self.num_cols()
    }

    pub open spec fn same_shape(&self, other: &Matrix<T>) -> bool {
        self.num_rows() == other.num_rows() && self.num_cols() == other.num_cols()
    }

    pub open spec fn mismatch_of(&self, other: &Matrix<T>) -> DimensionMismatch {
        DimensionMismatch {
            left_rows: self.num_rows() as usize,
            left_cols: self.num_cols() as usize,
            right_rows: other.num_rows() as usize,
            right_cols: other.num_cols() as usize,
        }
    }

    proof fn lemma_shape(&self)
        requires
            self.wf(),
        ensures
            self.num_rows() == self.data@.len(),
            self.num_rows() <= usize::MAX,
            self.num_cols() <= usize::MAX,
            forall|i: int| 0 <= i < self.data@.len() ==> (#[trigger] self.data@[i])@.len() == self.num_cols(),
            forall|i: int| 0 <= i < self.data@.len() ==> #[trigger] self@[i] == self.data@[i]@,
    {
        assert forall|i: int| 0 <= i < self.data@.len() implies (#[trigger] self.data@[i])@.len() == self.num_cols() by {
            assert(self@[i] == self.data@[i]@);
        }
    }

    /// A `rows` by `cols` matrix with every entry `zero`.
    pub fn new(rows: usize, cols: usize, zero: T) -> (r: Matrix<T>)
        ensures
            r.wf(),
            r.num_rows() == rows,
            r.num_cols() == cols,
            forall|i: int, j: int| 0 <= i < rows && 0 <= j < cols ==> r@[i][j] == zero,
    {
        let mut data: Vec<Vec<T>> = Vec::new();
        let mut i: usize = 0;
        while i < rows
            invariant
                i <= rows,
                data@.len() == i,
                forall|k: int| 0 <= k < i ==> (#[trigger] data@[k])@ == Seq::new(cols as nat, |_j: int| zero),
            decreases rows - i,
        {
            let mut row: Vec<T> = Vec::new();
            let mut j: usize = 0;
            while j < cols
                invariant
                    j <= cols,
                    row@ == Seq::new(j as nat, |_j: int| zero),
                decreases cols - j,
            {
                row.push(zero);
                j += 1;
                assert(row@ =~= Seq::new(j as nat, |_j: int| zero));
            }
            data.push(row);
            i += 1;
        }
        let r = Matrix { data, rows, cols };
        assert forall|k: int| 0 <= k < r@.len() implies (#[trigger] r@[k]).len() == r.num_cols() by {
            assert(r@[k] == r.data@[k]@);
        }
        r
    }

    pub fn rows(&self) -> (r: usize)
        ensures
            r == self.num_rows(),
    {
        self.rows
    }

    pub fn cols(&self) -> (r: usize)
        ensures
            r == self.num_cols(),
    {
        self.cols
    }

    /// A `1 × n` matrix holding `values`.
    pub fn from_array_to_row(values: &[T]) -> (r: Matrix<T>)
        ensures
            r.wf(),
            r.num_rows() == 1,
            r.num_cols() == values@.len(),
            r@ == seq![values@],
    {
        let row = copy_slice(values);
        let mut data: Vec<Vec<T>> = Vec::new();
        data.push(row);
        let r = Matrix { data, rows: 1, cols: values.len() };
        assert(r@ =~= seq![values@]);
        r
    }

    /// An `n × 1` matrix holding `values`.
    pub fn from_array_to_column(values: &[T]) -> (r: Matrix<T>)
        ensures
            r.wf(),
            r.num_rows() == values@.len(),
            r.num_cols() == 1,
            forall|i: int| 0 <= i < values@.len() ==> #[trigger] r@[i] == seq![values@[i]],
    {
        let mut data: Vec<Vec<T>> = Vec::new();
        let mut i: usize = 0;
        while i < values.len()
            invariant
                i <= values@.len(),
                data@.len() == i,
                forall|k: int| 0 <= k < i ==> (#[trigger] data@[k])@ == seq![values@[k]],
            decreases values@.len() - i,
        {
            let mut row: Vec<T> = Vec::new();
            row.push(values[i]);
            assert(row@ =~= seq![values@[i as int]]);
            data.push(row);
            i += 1;
        }
        let r = Matrix { data, rows: values.len(), cols: 1 };
        assert forall|k: int| 0 <= k < r@.len() implies (#[trigger] r@[k]).len() == r.num_cols() && r@[k] == seq![values@[k]] by {
            assert(r@[k] == r.data@[k]@);
        }
        r
    }

    /// The matrix whose rows are `rows`, each of which must hold `cols`
    /// entries; `None` when one does not.
    pub fn from_rows(rows: Vec<Vec<T>>, cols: usize) -> (r: Option<Matrix<T>>)
        ensures
            r is Some <==> forall|i: int| 0 <= i < rows@.len() ==> (#[trigger] rows@[i])@.len() == cols,
            r matches Some(m) ==> {
                &&& m.wf()
                &&& m.num_rows() == rows@.len()
                &&& m.num_cols() == cols
                &&& m@ == rows@.map_values(|row: Vec<T>| row@)
            },
    {
        let mut i: usize = 0;
        while i < rows.len()
            invariant
                i <= rows@.len(),
                forall|k: int| 0 <= k < i ==> (#[trigger] rows@[k])@.len() == cols,
            decreases rows@.len() - i,
        {
            if rows[i].len() != cols {
                return None;
            }
            i += 1;
        }
        let n = rows.len();
        let r = Matrix { data: rows, rows: n, cols };
        assert forall|k: int| 0 <= k < r@.len() implies (#[trigger] r@[k]).len() == r.num_cols() by {
            assert(r@[k] == r.data@[k]@);
        }
        Some(r)
    }

    /// Rows and columns swapped.
    pub fn transpose(&self) -> (r: Matrix<T>)
        requires
            self.wf(),
        ensures
            r.wf(),
            r.num_rows() == self.num_cols(),
            r.num_cols() == self.num_rows(),
            forall|i: int, j: int| 0 <= i < r.num_rows() && 0 <= j < r.num_cols() ==> r@[i][j] == self@[j][i],
    {
        proof {
            self.lemma_shape();
        }
        let mut data: Vec<Vec<T>> = Vec::new();
        let mut j: usize = 0;
        while j < self.cols
            invariant
                self.wf(),
                self.num_rows() == self.data@.len(),
                forall|i: int| 0 <= i < self.data@.len() ==> (#[trigger] self.data@[i])@.len() == self.num_cols(),
                forall|i: int| 0 <= i < self.data@.len() ==> #[trigger] self@[i] == self.data@[i]@,
                j <= self.cols,
                data@.len() == j,
                forall|k: int| 0 <= k < j ==> (#[trigger] data@[k])@ == column(self@, k),
            decreases self.cols - j,
        {
            let mut row: Vec<T> = Vec::new();
            let mut i: usize = 0;
            while i < self.rows
                invariant
                    self.num_rows() == self.data@.len(),
                    forall|i: int| 0 <= i < self.data@.len() ==> (#[trigger] self.data@[i])@.len() == self.num_cols(),
                    forall|i: int| 0 <= i < self.data@.len() ==> #[trigger] self@[i] == self.data@[i]@,
                    j < self.cols,
                    i <= self.rows,
                    row@ =~= column(self@, j as int).take(i as int),
                decreases self.rows - i,
            {
                row.push(self.data[i][j]);
                i += 1;
                assert(row@ =~= column(self@, j as int).take(i as int));
            }
            assert(row@ =~= column(self@, j as int));
            data.push(row);
            j += 1;
        }
        let r = Matrix { data, rows: self.cols, cols: self.rows };
        assert forall|k: int| 0 <= k < r@.len() implies (#[trigger] r@[k]).len() == r.num_cols() && r@[k] == column(self@, k) by {
            assert(r@[k] == r.data@[k]@);
        }
        r
    }

    /// `f` applied to every entry.
    pub fn apply<F: Fn(T) -> T>(&self, f: F) -> (r: Matrix<T>)
        requires
            self.wf(),
            forall|x: T| f.requires((x,)),
        ensures
            r.wf(),
            r.same_shape(self),
            forall|i: int, j: int| 0 <= i < r.num_rows() && 0 <= j < r.num_cols()
                ==> f.ensures((self@[i][j],), #[trigger] r@[i][j]),
    {
        proof {
            self.lemma_shape();
        }
        let mut data: Vec<Vec<T>> = Vec::new();
        let mut i: usize = 0;
        while i < self.rows
            invariant
                self.num_rows() == self.data@.len(),
                forall|i: int| 0 <= i < self.data@.len() ==> (#[trigger] self.data@[i])@.len() == self.num_cols(),
                forall|i: int| 0 <= i < self.data@.len() ==> #[trigger] self@[i] == self.data@[i]@,
                forall|x: T| f.requires((x,)),
                i <= self.rows,
                data@.len() == i,
                forall|k: int| 0 <= k < i ==> (#[trigger] data@[k])@.len() == self.cols,
                forall|k: int, j: int| 0 <= k < i && 0 <= j < self.cols
                    ==> f.ensures((self@[k][j],), #[trigger] data@[k]@[j]),
            decreases self.rows - i,
        {
            let mut row: Vec<T> = Vec::new();
            let mut j: usize = 0;
            while j < self.cols
                invariant
                    self.num_rows() == self.data@.len(),
                    forall|i: int| 0 <= i < self.data@.len() ==> (#[trigger] self.data@[i])@.len() == self.num_cols(),
                    forall|i: int| 0 <= i < self.data@.len() ==> #[trigger] self@[i] == self.data@[i]@,
                    forall|x: T| f.requires((x,)),
                    i < self.rows,
                    j <= self.cols,
                    row@.len() == j,
                    forall|l: int| 0 <= l < j ==> f.ensures((self@[i as int][l],), #[trigger] row@[l]),
                decreases self.cols - j,
            {
                let v = f(self.data[i][j]);
                row.push(v);
                j += 1;
            }
            data.push(row);
            i += 1;
        }
        let r = Matrix { data, rows: self.rows, cols: self.cols };
        assert forall|k: int| 0 <= k < r@.len() implies (#[trigger] r@[k]).len() == r.num_cols() && r@[k] == r.data@[k]@ by {
            assert(r@[k] == r.data@[k]@);
        }
        r
    }

    /// `f` applied to the entries at equal positions of two matrices of one
    /// shape: the element-wise sum, difference and product are of this form.
    pub fn zip_with<F: Fn(T, T) -> T>(&self, other: &Matrix<T>, f: F) -> (r: Result<Matrix<T>, DimensionMismatch>)
        requires
            self.wf(),
            other.wf(),
            forall|x: T, y: T| f.requires((x, y)),
        ensures
            r is Err <==> !self.same_shape(other),
            r matches Err(e) ==> e == self.mismatch_of(other),
            r matches Ok(m) ==> {
                &&& m.wf()
                &&& m.same_shape(self)
                &&& forall|i: int, j: int| 0 <= i < m.num_rows() && 0 <= j < m.num_cols()
                    ==> f.ensures((self@[i][j], other@[i][j]), #[trigger] m@[i][j])
            },
    {
        if self.rows != other.rows || self.cols != other.cols {
            return Err(DimensionMismatch {
                left_rows: self.rows,
                left_cols: self.cols,
                right_rows: other.rows,
                right_cols: other.cols,
            });
        }
        proof {
            self.lemma_shape();
            other.lemma_shape();
        }
        let mut data: Vec<Vec<T>> = Vec::new();
        let mut i: usize = 0;
        while i < self.rows
            invariant
                self.same_shape(other),
                self.num_rows() == self.data@.len(),
                forall|i: int| 0 <= i < self.data@.len() ==> (#[trigger] self.data@[i])@.len() == self.num_cols(),
                forall|i: int| 0 <= i < self.data@.len() ==> #[trigger] self@[i] == self.data@[i]@,
                other.num_rows() == other.data@.len(),
                forall|i: int| 0 <= i < other.data@.len() ==> (#[trigger] other.data@[i])@.len() == other.num_cols(),
                forall|i: int| 0 <= i < other.data@.len() ==> #[trigger] other@[i] == other.data@[i]@,
                forall|x: T, y: T| f.requires((x, y)),
                i <= self.rows,
                data@.len() == i,
                forall|k: int| 0 <= k < i ==> (#[trigger] data@[k])@.len() == self.cols,
                forall|k: int, j: int| 0 <= k < i && 0 <= j < self.cols
                    ==> f.ensures((self@[k][j], other@[k][j]), #[trigger] data@[k]@[j]),
            decreases self.rows - i,
        {
            let mut row: Vec<T> = Vec::new();
            let mut j: usize = 0;
            while j < self.cols
                invariant
                    self.same_shape(other),
                    self.num_rows() == self.data@.len(),
                    forall|i: int| 0 <= i < self.data@.len() ==> (#[trigger] self.data@[i])@.len() == self.num_cols(),
                    forall|i: int| 0 <= i < self.data@.len() ==> #[trigger] self@[i] == self.data@[i]@,
                    other.num_rows() == other.data@.len(),
                    forall|i: int| 0 <= i < other.data@.len() ==> (#[trigger] other.data@[i])@.len() == other.num_cols(),
                    forall|i: int| 0 <= i < other.data@.len() ==> #[trigger] other@[i] == other.data@[i]@,
                    forall|x: T, y: T| f.requires((x, y)),
                    i < self.rows,
                    j <= self.cols,
                    row@.len() == j,
                    forall|l: int| 0 <= l < j ==> f.ensures((self@[i as int][l], other@[i as int][l]), #[trigger] row@[l]),
                decreases self.cols - j,
            {
                let v = f(self.data[i][j], other.data[i][j]);
                row.push(v);
                j += 1;
            }
            data.push(row);
            i += 1;
        }
        let r = Matrix { data, rows: self.rows, cols: self.cols };
        assert forall|k: int| 0 <= k < r@.len() implies (#[trigger] r@[k]).len() == r.num_cols() && r@[k] == r.data@[k]@ by {
            assert(r@[k] == r.data@[k]@);
        }
        Ok(r)
    }

    /// Entry `(i, j)` of the product: `mul_add` folded from `zero` over row
    /// `i` of `self` and column `j` of `other`.
    fn dot<F: Fn(T, T, T) -> T>(&self, i: usize, other: &Matrix<T>, j: usize, zero: T, mul_add: &F) -> (r: T)
        requires
            self.wf(),
            other.wf(),
            self.num_cols() == other.num_rows(),
            i < self.num_rows(),
            j < other.num_cols(),
            forall|a: T, x: T, y: T| mul_add.requires((a, x, y)),
        ensures
            folds_to(*mul_add, zero, self@[i as int], column(other@, j as int), r),
    {
        proof {
            self.lemma_shape();
            other.lemma_shape();
        }
        let ghost a = self@[i as int];
        let ghost b = column(other@, j as int);
        let mut acc = zero;
        let ghost mut accs: Seq<T> = seq![zero];
        let mut k: usize = 0;
        while k < self.cols
            invariant
                self.num_rows() == self.data@.len(),
                forall|i: int| 0 <= i < self.data@.len() ==> (#[trigger] self.data@[i])@.len() == self.num_cols(),
                forall|i: int| 0 <= i < self.data@.len() ==> #[trigger] self@[i] == self.data@[i]@,
                other.num_rows() == other.data@.len(),
                forall|i: int| 0 <= i < other.data@.len() ==> (#[trigger] other.data@[i])@.len() == other.num_cols(),
                forall|i: int| 0 <= i < other.data@.len() ==> #[trigger] other@[i] == other.data@[i]@,
                self.num_cols() == other.num_rows(),
                i < self.num_rows(),
                j < other.num_cols(),
                forall|a: T, x: T, y: T| mul_add.requires((a, x, y)),
                a == self@[i as int],
                b == column(other@, j as int),
                k <= self.cols,
                accs.len() == k + 1,
                accs[0] == zero,
                accs.last() == acc,
                forall|l: int| 0 <= l < k ==> #[trigger] mul_add.ensures((accs[l], a[l], b[l]), accs[l + 1]),
            decreases self.cols - k,
        {
            let next = mul_add(acc, self.data[i][k], other.data[k][j]);
            proof {
                accs = accs.push(next);
            }
            acc = next;
            k += 1;
        }
        assert(folds(*mul_add, zero, a, b, accs));
        acc
    }

    /// The matrix product `self · other`, where `mul_add(acc, x, y)` adds
    /// the term `x · y` to the running sum `acc`, started at `zero`.
    pub fn multiply_with<F: Fn(T, T, T) -> T>(&self, other: &Matrix<T>, zero: T, mul_add: F) -> (r: Result<Matrix<T>, DimensionMismatch>)
        requires
            self.wf(),
            other.wf(),
            forall|a: T, x: T, y: T| mul_add.requires((a, x, y)),
        ensures
            r is Err <==> self.num_cols() != other.num_rows(),
            r matches Err(e) ==> e == self.mismatch_of(other),
            r matches Ok(m) ==> {
                &&& m.wf()
                &&& m.num_rows() == self.num_rows()
                &&& m.num_cols() == other.num_cols()
                &&& forall|i: int, j: int| 0 <= i < m.num_rows() && 0 <= j < m.num_cols()
                    ==> folds_to(mul_add, zero, self@[i], column(other@, j), #[trigger] m@[i][j])
            },
    {
        if self.cols != other.rows {
            return Err(DimensionMismatch {
                left_rows: self.rows,
                left_cols: self.cols,
                right_rows: other.rows,
                right_cols: other.cols,
            });
        }
        let mut data: Vec<Vec<T>> = Vec::new();
        let mut i: usize = 0;
        while i < self.rows
            invariant
                self.wf(),
                other.wf(),
                self.num_cols() == other.num_rows(),
                forall|a: T, x: T, y: T| mul_add.requires((a, x, y)),
                i <= self.rows,
                data@.len() == i,
                forall|k: int| 0 <= k < i ==> (#[trigger] data@[k])@.len() == other.cols,
                forall|k: int, j: int| 0 <= k < i && 0 <= j < other.cols
                    ==> folds_to(mul_add, zero, self@[k], column(other@, j), #[trigger] data@[k]@[j]),
            decreases self.rows - i,
        {
            let mut row: Vec<T> = Vec::new();
            let mut j: usize = 0;
            while j < other.cols
                invariant
                    self.wf(),
                    other.wf(),
                    self.num_cols() == other.num_rows(),
                    forall|a: T, x: T, y: T| mul_add.requires((a, x, y)),
                    i < self.rows,
                    j <= other.cols,
                    row@.len() == j,
                    forall|l: int| 0 <= l < j ==> folds_to(mul_add, zero, self@[i as int], column(other@, l), #[trigger] row@[l]),
                decreases other.cols - j,
            {
                let v = self.dot(i, other, j, zero, &mul_add);
                row.push(v);
                j += 1;
            }
            data.push(row);
            i += 1;
        }
        let r = Matrix { data, rows: self.rows, cols: other.cols };
        assert forall|k: int| 0 <= k < r@.len() implies (#[trigger] r@[k]).len() == r.num_cols() && r@[k] == r.data@[k]@ by {
            assert(r@[k] == r.data@[k]@);
        }
        Ok(r)
    }

    /// The entry in row `i`, column `j`.
    pub fn get(&self, i: usize, j: usize) -> (r: T)
        requires
            self.wf(),
            i < self.num_rows(),
            j < self.num_cols(),
        ensures
            r == self@[i as int][j as int],
    {
        proof {
            self.lemma_shape();
        }
        self.data[i][j]
    }
}

/// A copy of `values` as a vector.
fn copy_slice<T: Copy>(values: &[T]) -> (r: Vec<T>)
    ensures
        r@ == values@,
{
    let mut out: Vec<T> = Vec::new();
    let mut i: usize = 0;
    while i < values.len()
        invariant
            i <= values@.len(),
            out@ == values@.take(i as int),
        decreases values@.len() - i,
    {
        out.push(values[i]);
        i += 1;
        assert(out@ =~= values@.take(i as int));
    }
    assert(values@.take(i as int) =~= values@);
    out
}

} // verus!
