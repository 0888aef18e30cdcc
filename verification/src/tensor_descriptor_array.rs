use vstd::prelude::*;
use crate::tensor_descriptor::CuTensorDescriptor;

verus! {

/// Total element count of the descriptors `descs[i]`, `descs[i+1]`, ...
pub open spec fn total_data_len(descs: Seq<CuTensorDescriptor>, i: int) -> int
    decreases descs.len() - i,
{
    if i < 0 || i >= descs.len() {
        0
    } else {
        descs[i].spec_data_len() + total_data_len(descs, i + 1)
    }
}

pub proof fn lemma_total_data_len_nonneg(descs: Seq<CuTensorDescriptor>, i: int)
    ensures
        0 <= total_data_len(descs, i),
    decreases descs.len() - i,
{
    if 0 <= i < descs.len() {
        descs[i].lemma_data_len_nonneg();
        lemma_total_data_len_nonneg(descs, i + 1);
    }
}

/// Element count of one buffer backing a run of descriptors, as the native
/// sequence calls take them: the sum of the members' element counts.
pub fn data_len(descriptors: &[CuTensorDescriptor]) -> (r: usize)
    requires
        total_data_len(descriptors@, 0) <= usize::MAX,
    ensures
        r as int == total_data_len(descriptors@, 0),
{
    let n: usize = descriptors.len();
    let mut acc: usize = 0;
    let mut i: usize = 0;
    while i < n
        invariant
            i <= n,
            n == descriptors@.len(),
            total_data_len(descriptors@, 0) <= usize::MAX,
            acc + total_data_len(descriptors@, i as int) == total_data_len(descriptors@, 0),
        decreases n - i,
    {
        proof {
            lemma_total_data_len_nonneg(descriptors@, i as int + 1);
        }
        acc = acc + descriptors[i].data_len();
        i = i + 1;
    }
    acc
}

} // verus!
