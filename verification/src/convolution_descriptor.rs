use vstd::prelude::*;
use vstd::slice::slice_to_vec;
use crate::modes::CudnnDataType;
use crate::modes::CudnnConvolutionMode;
use crate::modes::CudnnMathType;

verus! {

/// The parameter half of a convolution descriptor: one padding, one filter
/// stride and one dilation per convolved dimension, the convolution mode,
/// and the element type of the computation.
pub struct CuConvolutionDescriptor {
    pads: Vec<i32>,
    filter_strides: Vec<i32>,
    dilatations: Vec<i32>,
    mode: CudnnConvolutionMode,
    data_type: CudnnDataType,
}

impl CuConvolutionDescriptor {
    /// Padding ahead of each convolved dimension.
    pub closed spec fn spec_pads(&self) -> Seq<i32> {
        self.pads@
    }

    /// Filter stride along each convolved dimension.
    pub closed spec fn spec_filter_strides(&self) -> Seq<i32> {
        self.filter_strides@
    }

    /// Dilation along each convolved dimension.
    pub closed spec fn spec_dilatations(&self) -> Seq<i32> {
        self.dilatations@
    }

    /// Whether the kernel is flipped (convolution) or not (cross-correlation).
    pub closed spec fn spec_mode(&self) -> CudnnConvolutionMode {
        self.mode
    }

    /// Element type of the computation.
    pub closed spec fn spec_data_type(&self) -> CudnnDataType {
        self.data_type
    }

    /// The three parameter arrays run in step and their length fits the
    /// native getter's 32-bit counter.
    pub closed spec fn wf(&self) -> bool {
        &&& self.pads@.len() <= i32::MAX
        &&& self.filter_strides@.len() == self.pads@.len()
        &&& self.dilatations@.len() == self.pads@.len()
    }

    /// Convolution descriptor over as many dimensions as `paddings` has
    /// entries. The group count and math type are accepted as the native
    /// setter takes them but are not recorded by the descriptor.
    pub fn new(
        paddings: &[i32],
        filters_stride: &[i32],
        dilatations: &[i32],
        mode: CudnnConvolutionMode,
        _group_count: i32,
        _math_type: CudnnMathType,
    ) -> (r: CuConvolutionDescriptor)
        requires
            paddings@.len() <= i32::MAX,
            filters_stride@.len() == paddings@.len(),
            dilatations@.len() == paddings@.len(),
        ensures
            r.wf(),
            r.spec_pads() == paddings@,
            r.spec_filter_strides() == filters_stride@,
            r.spec_dilatations() == dilatations@,
            r.spec_mode() == mode,
            r.spec_data_type() == CudnnDataType::Float,
    {
        CuConvolutionDescriptor {
            pads: slice_to_vec(paddings),
            filter_strides: slice_to_vec(filters_stride),
            dilatations: slice_to_vec(dilatations),
            mode,
            data_type: CudnnDataType::Float,
        }
    }

    /// Two-dimensional convolution descriptor: padding `pad_h`/`pad_w`,
    /// filter stride `u`/`v` and dilation `dilatation_h`/`dilatation_w`,
    /// height first.
    pub fn new_2d(
        pad_h: i32,
        pad_w: i32,
        u: i32,
        v: i32,
        dilatation_h: i32,
        dilatation_w: i32,
        mode: CudnnConvolutionMode,
    ) -> (r: CuConvolutionDescriptor)
        ensures
            r.wf(),
            r.spec_pads() == seq![pad_h, pad_w],
            r.spec_filter_strides() == seq![u, v],
            r.spec_dilatations() == seq![dilatation_h, dilatation_w],
            r.spec_mode() == mode,
            r.spec_data_type() == CudnnDataType::Float,
    {
        let mut pads: Vec<i32> = Vec::new();
        pads.push(pad_h);
        pads.push(pad_w);
        let mut filter_strides: Vec<i32> = Vec::new();
        filter_strides.push(u);
        filter_strides.push(v);
        let mut dilatations: Vec<i32> = Vec::new();
        dilatations.push(dilatation_h);
        dilatations.push(dilatation_w);
        proof {
            assert(pads@ =~= seq![pad_h, pad_w]);
            assert(filter_strides@ =~= seq![u, v]);
            assert(dilatations@ =~= seq![dilatation_h, dilatation_w]);
        }
        CuConvolutionDescriptor {
            pads,
            filter_strides,
            dilatations,
            mode,
            data_type: CudnnDataType::Float,
        }
    }

    /// The descriptor's parameters, read back in the form the native getter
    /// returns them.
    pub fn get_info(&self) -> (info: CuConvolutionDescriptorInfo)
        requires
            self.wf(),
        ensures
            info.array_length == self.spec_pads().len(),
            info.pads@ == self.spec_pads(),
            info.filter_strides@ == self.spec_filter_strides(),
            info.dilatations@ == self.spec_dilatations(),
            info.mode == self.spec_mode(),
            info.data_type == self.spec_data_type(),
    {
        CuConvolutionDescriptorInfo {
            array_length: self.pads.len() as i32,
            pads: slice_to_vec(self.pads.as_slice()),
            filter_strides: slice_to_vec(self.filter_strides.as_slice()),
            dilatations: slice_to_vec(self.dilatations.as_slice()),
            mode: self.mode,
            data_type: self.data_type,
        }
    }
}

/// What the native descriptor getter reports of a convolution descriptor.
#[derive(Debug)]
pub struct CuConvolutionDescriptorInfo {
    pub array_length: i32,
    pub pads: Vec<i32>,
    pub filter_strides: Vec<i32>,
    pub dilatations: Vec<i32>,
    pub mode: CudnnConvolutionMode,
    pub data_type: CudnnDataType,
}

/// Element-for-element equality of two dimension arrays.
fn i32_vecs_eq(a: &Vec<i32>, b: &Vec<i32>) -> (r: bool)
    ensures
        r == (a@ == b@),
{
    if a.len() != b.len() {
        return false;
    }
    let n: usize = a.len();
    let mut i: usize = 0;
    while i < n
        invariant
            i <= n,
            n == a@.len(),
            a@.len() == b@.len(),
            forall|j: int| 0 <= j < i ==> a@[j] == b@[j],
        decreases n - i,
    {
        if a[i] != b[i] {
            return false;
        }
        i = i + 1;
    }
    proof {
        assert(a@ =~= b@);
    }
    true
}

impl PartialEq for CuConvolutionDescriptorInfo {
    /// Field-for-field equality, dimension arrays compared element-wise.
    fn eq(&self, other: &Self) -> (r: bool) {
        self.array_length == other.array_length && i32_vecs_eq(&self.pads, &other.pads)
            && i32_vecs_eq(&self.filter_strides, &other.filter_strides)
            && i32_vecs_eq(&self.dilatations, &other.dilatations) && self.mode == other.mode
            && self.data_type == other.data_type
    }
}

impl vstd::std_specs::cmp::PartialEqSpecImpl for CuConvolutionDescriptorInfo {
    open spec fn obeys_eq_spec() -> bool {
        true
    }

    open spec fn eq_spec(&self, other: &Self) -> bool {
        &&& self.array_length == other.array_length
        &&& self.pads@ == other.pads@
        &&& self.filter_strides@ == other.filter_strides@
        &&& self.dilatations@ == other.dilatations@
        &&& self.mode == other.mode
        &&& self.data_type == other.data_type
    }
}

} // verus!
