use crate::float::Float32;
use vstd::prelude::*;

verus! {

/// One observed cell of a sparse matrix, laid out as the engine reads it.
#[derive(Clone, Copy, Debug)]
pub struct MfNode {
    /// Row index.
    pub u: i32,
    /// Column index.
    pub v: i32,
    /// Observed value.
    pub r: Float32,
}

/// The dimensions of a sparse matrix, as handed to the engine beside its
/// entries.
#[derive(Clone, Copy, Debug, PartialEq, Eq, Structural)]
pub struct MfProblem {
    /// Number of rows.
    pub m: i32,
    /// Number of columns.
    pub n: i32,
    /// Number of entries.
    pub nnz: usize,
}

/// The number of rows that the entries span: one more than the largest row
/// index, and zero when there is no entry.
pub open spec fn row_count(s: Seq<MfNode>) -> int
    decreases s.len(),
{
    if s.len() == 0 {
        0
    } else {
        let rest = row_count(s.drop_last());
        if s.last().u + 1 > rest {
            s.last().u + 1
        } else {
            rest
        }
    }
}

/// The number of columns that the entries span: one more than the largest
/// column index, and zero when there is no entry.
pub open spec fn col_count(s: Seq<MfNode>) -> int
    decreases s.len(),
{
    if s.len() == 0 {
        0
    } else {
        let rest = col_count(s.drop_last());
        if s.last().v + 1 > rest {
            s.last().v + 1
        } else {
            rest
        }
    }
}

/// An index that a matrix accepts: non-negative, and small enough that the
/// dimension derived from it fits the engine's 32-bit counts.
pub open spec fn valid_index(i: i32) -> bool {
    0 <= i < i32::MAX
}

/// Every entry has valid row and column indices.
pub open spec fn valid_entries(s: Seq<MfNode>) -> bool {
    forall|i: int| 0 <= i < s.len() ==> valid_index(#[trigger] s[i].u) && valid_index(s[i].v)
}

/// The derived dimensions of any entries with valid indices are exactly one
/// more than the largest row and column index, and zero when there is no
/// entry: every index lies below them, and some entry reaches each of them.
pub proof fn lemma_dimensions_are_max_plus_one(s: Seq<MfNode>)
    requires
        valid_entries(s),
    ensures
        s.len() == 0 ==> row_count(s) == 0 && col_count(s) == 0,
        forall|i: int| 0 <= i < s.len() ==> #[trigger] s[i].u < row_count(s) && s[i].v < col_count(s),
        s.len() > 0 ==> exists|i: int| 0 <= i < s.len() && row_count(s) == #[trigger] s[i].u + 1,
        s.len() > 0 ==> exists|i: int| 0 <= i < s.len() && col_count(s) == #[trigger] s[i].v + 1,
    decreases s.len(),
{
    if s.len() > 0 {
        let rest = s.drop_last();
        let last = s.len() - 1;
        assert(valid_entries(rest)) by {
            assert forall|i: int| 0 <= i < rest.len() implies valid_index(#[trigger] rest[i].u)
                && valid_index(rest[i].v) by {
                assert(rest[i] == s[i]);
            }
        }
        lemma_dimensions_are_max_plus_one(rest);
        assert forall|i: int| 0 <= i < s.len() implies #[trigger] s[i].u < row_count(s) && s[i].v
            < col_count(s) by {
            if i < last {
                assert(rest[i] == s[i]);
            }
        }
        if row_count(s) == s[last].u + 1 {
        } else {
            let j = choose|j: int| 0 <= j < rest.len() && row_count(rest) == #[trigger] rest[j].u + 1;
            assert(rest[j] == s[j]);
        }
        if col_count(s) == s[last].v + 1 {
        } else {
            let j = choose|j: int| 0 <= j < rest.len() && col_count(rest) == #[trigger] rest[j].v + 1;
            assert(rest[j] == s[j]);
        }
    }
}

/// A sparse matrix: the observed entries in the order they were pushed.
pub struct Matrix {
    data: Vec<MfNode>,
}

impl View for Matrix {
    type V = Seq<MfNode>;

    closed spec fn view(&self) -> Seq<MfNode> {
        self.data@
    }
}

impl Matrix {
    /// The matrix holds only entries with valid indices. The constructors
    /// establish it and `push` keeps it.
    pub open spec fn wf(&self) -> bool {
        valid_entries(self@)
    }

    /// Creates a new matrix.
    pub fn new() -> (r: Matrix)
        ensures
            r@ == Seq::<MfNode>::empty(),
            r.wf(),
    {
        Matrix { data: Vec::new() }
    }

    /// Creates a new matrix with room for `capacity` entries.
    pub fn with_capacity(capacity: usize) -> (r: Matrix)
        ensures
            r@ == Seq::<MfNode>::empty(),
            r.wf(),
    {
        Matrix { data: Vec::with_capacity(capacity) }
    }

    /// Adds a value to the matrix.
    pub fn push(&mut self, row_index: i32, column_index: i32, value: Float32)
        requires
            old(self).wf(),
            valid_index(row_index),
            valid_index(column_index),
        ensures
            final(self)@ == old(self)@.push(MfNode { u: row_index, v: column_index, r: value }),
            final(self).wf(),
    {
        self.data.push(MfNode { u: row_index, v: column_index, r: value });
        proof {
            assert forall|i: int| 0 <= i < self.data@.len() implies valid_index(
                #[trigger] self.data@[i].u,
            ) && valid_index(self.data@[i].v) by {
                if i < self.data@.len() - 1 {
                    assert(self.data@[i] == old(self).data@[i]);
                }
            }
        }
    }

    /// Returns the entries, in the order they were pushed.
    pub fn entries(&self) -> (r: &[MfNode])
        ensures
            r@ == self@,
    {
        self.data.as_slice()
    }

    /// Derives the dimensions that the engine is given with the entries.
    pub fn to_problem(&self) -> (r: MfProblem)
        requires
            self.wf(),
        ensures
            r.m == row_count(self@),
            r.n == col_count(self@),
            r.nnz == self@.len(),
    {
        let mut m: i32 = 0;
        let mut n: i32 = 0;
        let mut i: usize = 0;
        while i < self.data.len()
            invariant
                i <= self.data@.len(),
                valid_entries(self.data@),
                m == row_count(self.data@.subrange(0, i as int)),
                n == col_count(self.data@.subrange(0, i as int)),
            decreases self.data@.len() - i,
        {
            let node = self.data[i];
            proof {
                let s = self.data@.subrange(0, i as int + 1);
                assert(s.drop_last() =~= self.data@.subrange(0, i as int));
                assert(s.last() == node);
            }
            if node.u + 1 > m {
                m = node.u + 1;
            }
            if node.v + 1 > n {
                n = node.v + 1;
            }
            i = i + 1;
        }
        proof {
            assert(self.data@.subrange(0, i as int) =~= self.data@);
        }
        MfProblem { m, n, nnz: self.data.len() }
    }
}

impl Default for Matrix {
    fn default() -> (r: Matrix)
        ensures
            r@ == Seq::<MfNode>::empty(),
            r.wf(),
    {
        Matrix::new()
    }
}

} // verus!
