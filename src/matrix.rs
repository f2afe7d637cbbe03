use vstd::prelude::*;

verus! {

/// Row-major storage of a `rows` × `cols` table, kept in one vector.
pub struct Matrix<P> {
    rows: usize,
    cols: usize,
    data: Vec<P>,
}

/// Entry `(i, j)` of a row-major table with `cols` columns sits at this position.
pub open spec fn flat_index(i: int, j: int, cols: int) -> int {
    i * cols + j
}

pub(crate) proof fn lemma_flat_index_bound(i: int, j: int, rows: int, cols: int)
    requires
        0 <= i < rows,
        0 <= j < cols,
    ensures
        0 <= i * cols <= flat_index(i, j, cols) < rows * cols,
{
    assert(0 <= i * cols + j < rows * cols) by (nonlinear_arith)
        requires
            0 <= i < rows,
            0 <= j < cols,
    ;
}

pub(crate) proof fn lemma_flat_index_unique(i1: int, j1: int, i2: int, j2: int, cols: int)
    requires
        0 <= i1,
        0 <= i2,
        0 <= j1 < cols,
        0 <= j2 < cols,
        flat_index(i1, j1, cols) == flat_index(i2, j2, cols),
    ensures
        i1 == i2,
        j1 == j2,
{
    if i1 < i2 {
        assert(i1 * cols + j1 < i2 * cols + j2) by (nonlinear_arith)
            requires
                i1 < i2,
                0 <= j1 < cols,
                0 <= j2,
        ;
    } else if i2 < i1 {
        assert(i2 * cols + j2 < i1 * cols + j1) by (nonlinear_arith)
            requires
                i2 < i1,
                0 <= j2 < cols,
                0 <= j1,
        ;
    }
}

impl<P> View for Matrix<P> {
    type V = Seq<Seq<P>>;

    closed spec fn view(&self) -> Seq<Seq<P>> {
        Seq::new(
            self.rows as nat,
            |i: int| Seq::new(self.cols as nat, |j: int| self.data@[flat_index(i, j, self.cols as int)]),
        )
    }
}

impl<P: Copy> Matrix<P> {
    /// The number of columns, which the view cannot show when there are no rows.
    pub closed spec fn width(&self) -> nat {
        self.cols as nat
    }

    /// The storage holds exactly one entry per cell.
    pub closed spec fn wf(&self) -> bool {
        self.data@.len() == self.rows * self.cols <= usize::MAX
    }

    /// Every row of the view has `width()` entries.
    pub proof fn lemma_rows_have_width(&self)
        ensures
            forall|i: int| 0 <= i < self@.len() ==> #[trigger] self@[i].len() == self.width(),
    {
    }

    /// A table of the given size with every entry equal to `fill`.
    pub fn new(rows: usize, cols: usize, fill: P) -> (r: Self)
        requires
            rows * cols <= usize::MAX,
        ensures
            r.wf(),
            r.width() == cols,
            r@ == Seq::new(rows as nat, |i: int| Seq::new(cols as nat, |j: int| fill)),
    {
        let size: usize = rows * cols;
        let mut data: Vec<P> = Vec::new();
        while data.len() < size
            invariant
                data@.len() <= size,
                forall|k: int| 0 <= k < data@.len() ==> data@[k] == fill,
            decreases size - data@.len(),
        {
            data.push(fill);
        }
        let r = Matrix { rows, cols, data };
        assert forall|i: int, j: int| 0 <= i < rows && 0 <= j < cols implies r@[i][j] == fill by {
            lemma_flat_index_bound(i, j, rows as int, cols as int);
        }
        assert(r@ =~~= Seq::new(rows as nat, |i: int| Seq::new(cols as nat, |j: int| fill)));
        r
    }

    /// The number of rows.
    pub fn rows(&self) -> (r: usize)
        ensures
            r == self@.len(),
    {
        self.rows
    }

    /// The number of columns.
    pub fn cols(&self) -> (r: usize)
        ensures
            r == self.width(),
    {
        self.cols
    }

    /// Entry `(i, j)`.
    pub fn get(&self, i: usize, j: usize) -> (r: P)
        requires
            self.wf(),
            i < self@.len(),
            j < self.width(),
        ensures
            r == self@[i as int][j as int],
    {
        proof {
            lemma_flat_index_bound(i as int, j as int, self.rows as int, self.cols as int);
        }
        self.data[i * self.cols + j]
    }

    /// Replaces entry `(i, j)` by `v` and leaves every other entry as it was.
    pub fn set(&mut self, i: usize, j: usize, v: P)
        requires
            old(self).wf(),
            i < old(self)@.len(),
            j < old(self).width(),
        ensures
            final(self).wf(),
            final(self).width() == old(self).width(),
            final(self)@ == old(self)@.update(i as int, old(self)@[i as int].update(j as int, v)),
    {
        proof {
            lemma_flat_index_bound(i as int, j as int, self.rows as int, self.cols as int);
        }
        let k: usize = i * self.cols + j;
        self.data.set(k, v);
        proof {
            let cols = self.cols as int;
            assert forall|i2: int, j2: int| 0 <= i2 < self.rows && 0 <= j2 < cols implies
                #[trigger] self.data@[flat_index(i2, j2, cols)] == (if i2 == i && j2 == j { v } else {
                    old(self).data@[flat_index(i2, j2, cols)]
                }) by {
                lemma_flat_index_bound(i2, j2, self.rows as int, cols);
                if flat_index(i2, j2, cols) == k {
                    lemma_flat_index_unique(i2, j2, i as int, j as int, cols);
                }
            }
            assert(self@ =~~= old(self)@.update(i as int, old(self)@[i as int].update(j as int, v)));
        }
    }
}

} // verus!
