use vstd::prelude::*;
use vstd::slice::slice_to_vec;
use crate::modes::CudnnDataType;
use crate::modes::CudnnTensorFormat;

verus! {

/// The shape half of a filter descriptor: element type, layout, and the
/// filter's dimensions (output channels, input channels, then the kernel
/// extents).
pub struct CuFilterDescriptor {
    data_type: CudnnDataType,
    format: CudnnTensorFormat,
    filter_dims: Vec<i32>,
}

impl CuFilterDescriptor {
    /// Element type the descriptor was created with.
    pub closed spec fn spec_data_type(&self) -> CudnnDataType {
        self.data_type
    }

    /// Memory layout the descriptor was created with.
    pub closed spec fn spec_format(&self) -> CudnnTensorFormat {
        self.format
    }

    /// The filter's dimensions.
    pub closed spec fn spec_filter_dims(&self) -> Seq<i32> {
        self.filter_dims@
    }

    /// The dimension count fits the native getter's 32-bit counter.
    pub closed spec fn wf(&self) -> bool {
        self.filter_dims@.len() <= i32::MAX
    }

    /// Filter descriptor with the given layout and dimensions.
    pub fn new(format: CudnnTensorFormat, filter_dims: &[i32]) -> (r: CuFilterDescriptor)
        requires
            filter_dims@.len() <= i32::MAX,
        ensures
            r.wf(),
            r.spec_data_type() == CudnnDataType::Float,
            r.spec_format() == format,
            r.spec_filter_dims() == filter_dims@,
    {
        CuFilterDescriptor {
            data_type: CudnnDataType::Float,
            format,
            filter_dims: slice_to_vec(filter_dims),
        }
    }

    /// Filter descriptor for `k` output channels, `c` input channels and a
    /// kernel of height `h` and width `w`.
    pub fn new_4d(format: CudnnTensorFormat, k: i32, c: i32, h: i32, w: i32) -> (r:
        CuFilterDescriptor)
        ensures
            r.wf(),
            r.spec_data_type() == CudnnDataType::Float,
            r.spec_format() == format,
            r.spec_filter_dims() == seq![k, c, h, w],
    {
        let mut filter_dims: Vec<i32> = Vec::new();
        filter_dims.push(k);
        filter_dims.push(c);
        filter_dims.push(h);
        filter_dims.push(w);
        proof {
            assert(filter_dims@ =~= seq![k, c, h, w]);
        }
        CuFilterDescriptor { data_type: CudnnDataType::Float, format, filter_dims }
    }

    /// The descriptor's element type, layout and dimensions, read back the
    /// way the native getter fills a caller's buffer of `nb_dims_requested`
    /// entries: the first `min(nb_dims_requested, nb_dims)` entries hold the
    /// dimensions and the rest keep the fill value -1.
    pub fn get_info(&self, nb_dims_requested: i32) -> (info: CuFilterDescriptorInfo)
        requires
            self.wf(),
            0 <= nb_dims_requested,
        ensures
            info.data_type == self.spec_data_type(),
            info.format == self.spec_format(),
            info.nb_dims == self.spec_filter_dims().len(),
            info.filter_dims@.len() == nb_dims_requested,
            forall|i: int|
                0 <= i < nb_dims_requested ==> info.filter_dims@[i] == (
                if i < self.spec_filter_dims().len() {
                    self.spec_filter_dims()[i]
                } else {
                    -1i32
                }),
    {
        let requested: usize = nb_dims_requested as usize;
        let nb_dims: usize = self.filter_dims.len();
        let mut out: Vec<i32> = Vec::new();
        let mut i: usize = 0;
        while i < requested
            invariant
                i <= requested,
                nb_dims == self.spec_filter_dims().len(),
                out@.len() == i,
                forall|j: int|
                    0 <= j < i ==> out@[j] == (if j < nb_dims {
                        self.spec_filter_dims()[j]
                    } else {
                        -1i32
                    }),
            decreases requested - i,
        {
            if i < nb_dims {
                out.push(self.filter_dims[i]);
            } else {
                out.push(-1);
            }
            i = i + 1;
        }
        CuFilterDescriptorInfo {
            data_type: self.data_type,
            format: self.format,
            nb_dims: nb_dims as i32,
            filter_dims: out,
        }
    }
}

/// What the native descriptor getter reports of a filter descriptor.
#[derive(Debug)]
pub struct CuFilterDescriptorInfo {
    pub data_type: CudnnDataType,
    pub format: CudnnTensorFormat,
    pub nb_dims: i32,
    pub filter_dims: Vec<i32>,
}

} // verus!
