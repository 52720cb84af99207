use vstd::prelude::*;

verus! {

/// The number of elements of a tensor of the given dimensions: their
/// product, which is 1 for no dimensions at all.
pub open spec fn product(dims: Seq<u32>) -> int
    decreases dims.len(),
{
    if dims.len() == 0 {
        1
    } else {
        product(dims.drop_last()) * dims.last()
    }
}

proof fn lemma_product_nonneg(dims: Seq<u32>)
    ensures
        product(dims) >= 0,
    decreases dims.len(),
{
    if dims.len() > 0 {
        lemma_product_nonneg(dims.drop_last());
        vstd::arithmetic::mul::lemma_mul_nonnegative(product(dims.drop_last()), dims.last() as int);
    }
}

proof fn lemma_product_step(dims: Seq<u32>, i: int)
    requires
        0 <= i < dims.len(),
    ensures
        product(dims.take(i + 1)) == product(dims.take(i)) * dims[i],
{
    assert(dims.take(i + 1).drop_last() =~= dims.take(i));
}

/// With every dimension positive, a prefix has no more elements than the whole.
proof fn lemma_prefix_product_le(dims: Seq<u32>, i: int)
    requires
        0 <= i <= dims.len(),
        forall|j: int| 0 <= j < dims.len() ==> dims[j] > 0,
    ensures
        product(dims.take(i)) <= product(dims),
    decreases dims.len() - i,
{
    if i < dims.len() {
        lemma_prefix_product_le(dims, i + 1);
        lemma_product_step(dims, i);
        lemma_product_nonneg(dims.take(i));
        let p = product(dims.take(i));
        let d = dims[i] as int;
        assert(p <= p * d) by (nonlinear_arith)
            requires
                p >= 0,
                d >= 1,
        ;
    } else {
        assert(dims.take(i) =~= dims);
    }
}

/// A product with a zero factor is zero.
proof fn lemma_product_zero(dims: Seq<u32>, k: int)
    requires
        0 <= k < dims.len(),
        dims[k] == 0,
    ensures
        product(dims) == 0,
    decreases dims.len(),
{
    if k < dims.len() - 1 {
        lemma_product_zero(dims.drop_last(), k);
    }
}

/// The element count of a shape, where it fits in `usize`.
pub fn shape_size(dims: &Vec<u32>) -> (r: Option<usize>)
    ensures
        r matches Some(n) <==> product(dims@) <= usize::MAX,
        r matches Some(n) ==> n == product(dims@),
{
    let mut k: usize = 0;
    while k < dims.len()
        invariant
            0 <= k <= dims.len(),
            forall|j: int| 0 <= j < k ==> dims@[j] > 0,
        decreases dims.len() - k,
    {
        if dims[k] == 0 {
            proof {
                lemma_product_zero(dims@, k as int);
            }
            return Some(0);
        }
        k = k + 1;
    }
    let mut acc: usize = 1;
    let mut i: usize = 0;
    assert(dims@.take(0) =~= Seq::<u32>::empty());
    while i < dims.len()
        invariant
            0 <= i <= dims.len(),
            forall|j: int| 0 <= j < dims.len() ==> dims@[j] > 0,
            acc == product(dims@.take(i as int)),
        decreases dims.len() - i,
    {
        proof {
            lemma_product_step(dims@, i as int);
        }
        match acc.checked_mul(dims[i] as usize) {
            Some(next) => {
                acc = next;
            },
            None => {
                proof {
                    lemma_prefix_product_le(dims@, i + 1);
                }
                return None;
            },
        }
        i = i + 1;
    }
    assert(dims@.take(dims.len() as int) =~= dims@);
    Some(acc)
}

/// The engine's dimensions as `usize` values, in order.
pub fn dims_to_shape(dims: &Vec<u32>) -> (r: Vec<usize>)
    ensures
        r@.len() == dims@.len(),
        forall|i: int| 0 <= i < dims@.len() ==> r@[i] == dims@[i],
{
    let mut r: Vec<usize> = Vec::with_capacity(dims.len());
    let mut i: usize = 0;
    while i < dims.len()
        invariant
            0 <= i <= dims.len(),
            r@.len() == i,
            forall|j: int| 0 <= j < i ==> r@[j] == dims@[j],
        decreases dims.len() - i,
    {
        r.push(dims[i] as usize);
        i = i + 1;
    }
    r
}

} // verus!
