use vstd::prelude::*;
use vstd::pervasive::VecAdditionalExecFns;
use vstd::slice::slice_to_vec;

verus! {

/// Product of the dimensions `dims[i]`, `dims[i+1]`, ..., up to the end;
/// 1 once `i` has reached the end.
pub open spec fn suffix_product(dims: Seq<i32>, i: int) -> int
    decreases dims.len() - i,
{
    if i < 0 || i >= dims.len() {
        1
    } else {
        dims[i] * suffix_product(dims, i + 1)
    }
}

/// Every element is at least 1, as the native descriptor setters demand of
/// dimensions and strides.
pub open spec fn all_positive(values: Seq<i32>) -> bool {
    forall|i: int| 0 <= i < values.len() ==> 1 <= values[i]
}

/// `strides` is the fully packed (dense) stride vector for `dims`: each
/// stride is the product of all later dimensions, so the innermost stride
/// is 1 and consecutive elements of the innermost dimension are adjacent.
pub open spec fn is_fully_packed(dims: Seq<i32>, strides: Seq<i32>) -> bool {
    &&& strides.len() == dims.len()
    &&& forall|i: int| 0 <= i < dims.len() ==> strides[i] == suffix_product(dims, i + 1)
}

pub proof fn lemma_suffix_product_positive(dims: Seq<i32>, i: int)
    requires
        all_positive(dims),
    ensures
        1 <= suffix_product(dims, i),
    decreases dims.len() - i,
{
    if 0 <= i < dims.len() {
        lemma_suffix_product_positive(dims, i + 1);
        assert(1 <= dims[i] * suffix_product(dims, i + 1)) by (nonlinear_arith)
            requires
                1 <= dims[i],
                1 <= suffix_product(dims, i + 1),
        ;
    }
}

pub proof fn lemma_suffix_product_monotonic(dims: Seq<i32>, i: int, j: int)
    requires
        all_positive(dims),
        0 <= i <= j,
    ensures
        suffix_product(dims, j) <= suffix_product(dims, i),
    decreases j - i,
{
    if i < j {
        lemma_suffix_product_monotonic(dims, i + 1, j);
        if i < dims.len() {
            lemma_suffix_product_positive(dims, i + 1);
            assert(suffix_product(dims, i + 1) <= dims[i] * suffix_product(dims, i + 1))
                by (nonlinear_arith)
                requires
                    1 <= dims[i],
                    1 <= suffix_product(dims, i + 1),
            ;
        }
    }
}

/// Strides of a fully packed layout for `dims`: element `i` is the product
/// of all dimensions after `i`, and the last element is 1.
pub fn get_fully_packed_strides(dims: &[i32]) -> (r: Vec<i32>)
    requires
        all_positive(dims@),
        suffix_product(dims@, 1) <= i32::MAX,
    ensures
        is_fully_packed(dims@, r@),
{
    let n: usize = dims.len();
    let mut out: Vec<i32> = vec![0i32; n];
    let mut last: i32 = 1;
    let mut i: usize = n;
    while i > 0
        invariant
            i <= n,
            n == dims@.len(),
            out@.len() == n,
            all_positive(dims@),
            suffix_product(dims@, 1) <= i32::MAX,
            forall|j: int| i <= j < n ==> out@[j] == suffix_product(dims@, j + 1),
            0 < i ==> last == suffix_product(dims@, i as int),
        decreases i,
    {
        i = i - 1;
        out.set(i, last);
        if i > 0 {
            proof {
                lemma_suffix_product_positive(dims@, i as int);
                lemma_suffix_product_monotonic(dims@, 1, i as int);
            }
            last = dims[i] * last;
        }
    }
    out
}

/// A dimension/stride pair in the form the native descriptor setters take:
/// the number of dimensions, the dimensions themselves, and one stride per
/// dimension.
pub struct DimensionsStrides {
    pub len: i32,
    pub dimensions: Vec<i32>,
    pub strides: Vec<i32>,
}

impl DimensionsStrides {
    /// Dimension/stride pair describing a fully packed layout of `dimensions`.
    pub fn new_packed(dimensions: &[i32]) -> (r: DimensionsStrides)
        requires
            dimensions@.len() <= i32::MAX,
            all_positive(dimensions@),
            suffix_product(dimensions@, 1) <= i32::MAX,
        ensures
            r.len == dimensions@.len(),
            r.dimensions@ == dimensions@,
            is_fully_packed(dimensions@, r.strides@),
    {
        DimensionsStrides {
            len: dimensions.len() as i32,
            dimensions: slice_to_vec(dimensions),
            strides: get_fully_packed_strides(dimensions),
        }
    }
}

} // verus!
