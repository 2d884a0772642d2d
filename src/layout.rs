use vstd::prelude::*;

verus! {

/// The consecutive chunks of `size` values that `s` falls into, the last one
/// shorter when `size` does not divide the length; none when `size` is zero.
pub open spec fn chunks<T>(s: Seq<T>, size: nat) -> Seq<Seq<T>>
    decreases s.len(),
{
    if s.len() == 0 || size == 0 {
        Seq::empty()
    } else if s.len() <= size {
        seq![s]
    } else {
        seq![s.take(size as int)] + chunks(s.skip(size as int), size)
    }
}

/// A buffer of `count * size` values, with `size` at least one, falls into
/// exactly `count` chunks, the one numbered `i` holding the values from
/// `i * size` up to `(i + 1) * size`; put back together, they give the buffer.
pub proof fn lemma_chunks_tile<T>(s: Seq<T>, count: nat, size: nat)
    requires
        size >= 1,
        s.len() == count * size,
    ensures
        chunks(s, size).len() == count,
        forall|i: int|
            0 <= i < count ==> #[trigger] chunks(s, size)[i] == s.subrange(
                i * size,
                (i + 1) * size,
            ),
        chunks(s, size).flatten() == s,
    decreases count,
{
    let c = chunks(s, size);
    if count == 0 {
        assert(s.len() == 0);
        assert(c.flatten() =~= s);
    } else if count == 1 {
        assert(s.len() == size);
        assert(c == seq![s]);
        assert(s.subrange(0, size as int) =~= s);
        assert(c.drop_first() =~= Seq::<Seq<T>>::empty());
        assert(Seq::<Seq<T>>::empty().flatten() == Seq::<T>::empty());
        assert(c.flatten() =~= s);
    } else {
        assert(count * size == (count - 1) * size + size) by (nonlinear_arith);
        assert((count - 1) * size >= size) by (nonlinear_arith)
            requires
                count >= 2,
                size >= 1,
        ;
        let rest = s.skip(size as int);
        lemma_chunks_tile(rest, (count - 1) as nat, size);
        let cr = chunks(rest, size);
        assert(c == seq![s.take(size as int)] + cr);
        assert forall|i: int| 0 <= i < count implies #[trigger] c[i] == s.subrange(
            i * size,
            (i + 1) * size,
        ) by {
            assert((i + 1) * size <= count * size) by (nonlinear_arith)
                requires
                    i + 1 <= count,
            ;
            assert(0 <= i * size) by (nonlinear_arith)
                requires
                    0 <= i,
            ;
            if i == 0 {
                assert(c[0] =~= s.subrange(0, size as int));
            } else {
                assert(c[i] == cr[i - 1]);
                assert(i * (size as int) <= (count - 1) * (size as int)) by (nonlinear_arith)
                    requires
                        i <= count - 1,
                ;
                assert((i - 1) * size + size == i * size) by (nonlinear_arith);
                assert(i * size + size == (i + 1) * size) by (nonlinear_arith);
                assert(cr[i - 1] =~= s.subrange(i * size, (i + 1) * size));
            }
        }
        assert(c.drop_first() =~= cr);
        assert(c.flatten() =~= s.take(size as int) + rest);
        assert(s.take(size as int) + rest =~= s);
    }
}

/// The bounds that `p_range` and `q_range` give for item `index`, among
/// `count` items of `factors` values each, select the chunk that iteration
/// over the buffer in steps of `factors` yields for that item.
pub proof fn lemma_range_selects_chunk<T>(s: Seq<T>, count: nat, factors: nat, index: int)
    requires
        factors >= 1,
        s.len() == count * factors,
        0 <= index < count,
    ensures
        chunks(s, factors)[index] == s.subrange(index * factors, (index + 1) * factors),
        chunks(s, factors)[index].len() == factors,
{
    lemma_chunks_tile(s, count, factors);
    assert((index + 1) * factors == index * factors + factors) by (nonlinear_arith);
    assert((index + 1) * factors <= count * factors) by (nonlinear_arith)
        requires
            index + 1 <= count,
    ;
    assert(0 <= index * factors) by (nonlinear_arith)
        requires
            0 <= index,
    ;
    assert(chunks(s, factors)[index] == s.subrange(index * factors, (index + 1) * factors));
}

/// Counts that describe factor buffers the wrapper can address: none is
/// negative, and each buffer's length fits in `usize`.
pub open spec fn layout_fits(rows: int, columns: int, factors: int) -> bool {
    &&& 0 <= rows
    &&& 0 <= columns
    &&& 0 <= factors
    &&& rows * factors <= usize::MAX
    &&& columns * factors <= usize::MAX
}

/// The shape of a trained model's latent-factor buffers: `factors` values for
/// each of `rows` rows in P, and for each of `columns` columns in Q, row after
/// row.
#[derive(Clone, Copy, Debug)]
pub struct FactorLayout {
    rows: i32,
    columns: i32,
    factors: i32,
}

impl FactorLayout {
    #[verifier::type_invariant]
    spec fn inv(&self) -> bool {
        layout_fits(self.rows as int, self.columns as int, self.factors as int)
    }

    /// Number of rows.
    pub closed spec fn spec_rows(&self) -> int {
        self.rows as int
    }

    /// Number of columns.
    pub closed spec fn spec_columns(&self) -> int {
        self.columns as int
    }

    /// Number of factors per row or column.
    pub closed spec fn spec_factors(&self) -> int {
        self.factors as int
    }

    /// Accepts the counts that the engine reports for a model, when they
    /// describe buffers that can be addressed.
    pub fn new(rows: i32, columns: i32, factors: i32) -> (r: Option<FactorLayout>)
        ensures
            r is Some <==> layout_fits(rows as int, columns as int, factors as int),
            r matches Some(l) ==> l.spec_rows() == rows && l.spec_columns() == columns
                && l.spec_factors() == factors,
    {
        if rows < 0 || columns < 0 || factors < 0 {
            return None;
        }
        let k = factors as usize;
        match (rows as usize).checked_mul(k) {
            None => None,
            Some(_) => match (columns as usize).checked_mul(k) {
                None => None,
                Some(_) => Some(FactorLayout { rows, columns, factors }),
            },
        }
    }

    /// Returns the number of rows.
    pub fn rows(&self) -> (r: i32)
        ensures
            r == self.spec_rows(),
    {
        self.rows
    }

    /// Returns the number of columns.
    pub fn columns(&self) -> (r: i32)
        ensures
            r == self.spec_columns(),
    {
        self.columns
    }

    /// Returns the number of factors.
    pub fn factors(&self) -> (r: i32)
        ensures
            r == self.spec_factors(),
    {
        self.factors
    }

    /// Returns the length of P, the row-factor buffer.
    pub fn p_len(&self) -> (r: usize)
        ensures
            r == self.spec_rows() * self.spec_factors(),
    {
        proof {
            use_type_invariant(self);
        }
        self.rows as usize * self.factors as usize
    }

    /// Returns the length of Q, the column-factor buffer.
    pub fn q_len(&self) -> (r: usize)
        ensures
            r == self.spec_columns() * self.spec_factors(),
    {
        proof {
            use_type_invariant(self);
        }
        self.columns as usize * self.factors as usize
    }

    /// The bounds of the factors of item `index` among `count` items.
    fn chunk_range(&self, count: i32, index: i32) -> (r: Option<(usize, usize)>)
        requires
            0 <= count,
            count * self.spec_factors() <= usize::MAX,
            0 <= self.spec_factors(),
        ensures
            r is Some <==> 0 <= index < count,
            r matches Some(b) ==> b.0 == index * self.spec_factors() && b.1 == (index + 1)
                * self.spec_factors() && b.1 <= count * self.spec_factors(),
    {
        if index < 0 || index >= count {
            return None;
        }
        let k = self.factors as usize;
        let i = index as usize;
        proof {
            let kk = self.factors as int;
            assert((i + 1) * kk <= count * kk) by (nonlinear_arith)
                requires
                    i + 1 <= count,
                    kk >= 0,
            ;
            assert(i * kk <= (i + 1) * kk) by (nonlinear_arith)
                requires
                    kk >= 0,
            ;
        }
        Some((i * k, (i + 1) * k))
    }

    /// Returns the bounds in P of the factors of row `row_index`, or `None`
    /// when the model has no such row.
    pub fn p_range(&self, row_index: i32) -> (r: Option<(usize, usize)>)
        ensures
            r is Some <==> 0 <= row_index < self.spec_rows(),
            r matches Some(b) ==> b.0 == row_index * self.spec_factors() && b.1 == (row_index + 1)
                * self.spec_factors() && b.1 <= self.spec_rows() * self.spec_factors(),
    {
        proof {
            use_type_invariant(self);
        }
        self.chunk_range(self.rows, row_index)
    }

    /// Returns the bounds in Q of the factors of column `column_index`, or
    /// `None` when the model has no such column.
    pub fn q_range(&self, column_index: i32) -> (r: Option<(usize, usize)>)
        ensures
            r is Some <==> 0 <= column_index < self.spec_columns(),
            r matches Some(b) ==> b.0 == column_index * self.spec_factors() && b.1 == (column_index
                + 1) * self.spec_factors() && b.1 <= self.spec_columns() * self.spec_factors(),
    {
        proof {
            use_type_invariant(self);
        }
        self.chunk_range(self.columns, column_index)
    }
}

} // verus!
