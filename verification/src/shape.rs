use vstd::prelude::*;

verus! {

/// Product of the extents, folded from the front as `iter().product()` folds it.
pub open spec fn dims_product(s: Seq<usize>) -> int
    decreases s.len(),
{
    if s.len() == 0 {
        1
    } else {
        dims_product(s.drop_last()) * s.last()
    }
}

/// Every partial product of the fold fits in a `usize`, so taking the product
/// does not overflow.
pub open spec fn product_fits(s: Seq<usize>) -> bool {
    forall|i: int| 0 <= i <= s.len() ==> #[trigger] dims_product(s.take(i)) <= usize::MAX
}

proof fn lemma_product_concat(a: Seq<usize>, b: Seq<usize>)
    ensures
        dims_product(a + b) == dims_product(a) * dims_product(b),
    decreases b.len(),
{
    if b.len() == 0 {
        assert(a + b =~= a);
    } else {
        lemma_product_concat(a, b.drop_last());
        assert((a + b).drop_last() =~= a + b.drop_last());
        assert((a + b).last() == b.last());
        vstd::arithmetic::mul::lemma_mul_is_associative(dims_product(a), dims_product(b.drop_last()), b.last() as int);
    }
}

/// Splitting a shape at `dim` loses no element: the extents before `dim`, the extent
/// of `dim` and those after it multiply to the element count of the whole shape.
pub proof fn lemma_split_product(s: Seq<usize>, dim: int)
    requires
        0 <= dim < s.len(),
    ensures
        dims_product(s.subrange(0, dim)) * s[dim] * dims_product(s.subrange(dim + 1, s.len() as int)) == dims_product(s),
{
    let front = s.subrange(0, dim + 1);
    let back = s.subrange(dim + 1, s.len() as int);
    assert(front.drop_last() =~= s.subrange(0, dim));
    assert(front + back =~= s);
    lemma_product_concat(front, back);
}

/// Product of `dims[start..end]`.
pub fn range_product(dims: &[usize], start: usize, end: usize) -> (p: usize)
    requires
        start <= end <= dims@.len(),
        product_fits(dims@.subrange(start as int, end as int)),
    ensures
        p == dims_product(dims@.subrange(start as int, end as int)),
{
    let ghost s = dims@.subrange(start as int, end as int);
    let mut acc: usize = 1;
    let mut i: usize = start;
    while i < end
        invariant
            start <= i <= end <= dims@.len(),
            s == dims@.subrange(start as int, end as int),
            product_fits(s),
            acc == dims_product(dims@.subrange(start as int, i as int)),
        decreases end - i,
    {
        let ghost prefix = dims@.subrange(start as int, i as int + 1);
        assert(prefix.drop_last() =~= dims@.subrange(start as int, i as int));
        assert(prefix =~= s.take(i - start + 1));
        assert(dims_product(s.take(i - start + 1)) <= usize::MAX);
        acc = acc * dims[i];
        i = i + 1;
    }
    acc
}

/// Product of all the extents: the number of elements of a tensor of this shape.
pub fn shape_elements(dims: &[usize]) -> (p: usize)
    requires
        product_fits(dims@),
    ensures
        p == dims_product(dims@),
{
    assert(dims@.subrange(0, dims@.len() as int) =~= dims@);
    range_product(dims, 0, dims.len())
}

} // verus!
