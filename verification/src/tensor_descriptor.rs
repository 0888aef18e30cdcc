use vstd::prelude::*;
use vstd::slice::slice_to_vec;
use crate::modes::CudnnDataType;
use crate::modes::CudnnTensorFormat;
use crate::dimensions_strides::all_positive;
use crate::dimensions_strides::is_fully_packed;
use crate::dimensions_strides::suffix_product;
use crate::dimensions_strides::get_fully_packed_strides;
use crate::dimensions_strides::lemma_suffix_product_positive;
use crate::dimensions_strides::lemma_suffix_product_monotonic;

verus! {

/// Sum over the dimensions `i` and later of `(dims[i] - 1) * strides[i]`:
/// the offset of the farthest element reachable through those dimensions.
pub open spec fn span_from(dims: Seq<i32>, strides: Seq<i32>, i: int) -> int
    decreases dims.len() - i,
{
    if i < 0 || i >= dims.len() {
        0
    } else {
        (dims[i] - 1) * strides[i] + span_from(dims, strides, i + 1)
    }
}

/// Number of elements a buffer must hold for a tensor with these dimensions
/// and strides: one more than the offset of the farthest element.
pub open spec fn required_data_len(dims: Seq<i32>, strides: Seq<i32>) -> int {
    1 + span_from(dims, strides, 0)
}

pub proof fn lemma_span_from_nonneg(dims: Seq<i32>, strides: Seq<i32>, i: int)
    requires
        all_positive(dims),
        all_positive(strides),
        strides.len() == dims.len(),
    ensures
        0 <= span_from(dims, strides, i),
    decreases dims.len() - i,
{
    if 0 <= i < dims.len() {
        lemma_span_from_nonneg(dims, strides, i + 1);
        assert(0 <= (dims[i] - 1) * strides[i]) by (nonlinear_arith)
            requires
                1 <= dims[i],
                1 <= strides[i],
        ;
    }
}

proof fn lemma_packed_span_from(dims: Seq<i32>, strides: Seq<i32>, i: int)
    requires
        all_positive(dims),
        is_fully_packed(dims, strides),
        0 <= i,
    ensures
        span_from(dims, strides, i) == suffix_product(dims, i) - 1,
    decreases dims.len() - i,
{
    if i < dims.len() {
        lemma_packed_span_from(dims, strides, i + 1);
        assert((dims[i] - 1) * strides[i] == dims[i] * strides[i] - strides[i])
            by (nonlinear_arith);
    }
}

/// For a fully packed tensor the required buffer length is exactly the
/// product of the dimensions.
pub proof fn lemma_packed_data_len(dims: Seq<i32>, strides: Seq<i32>)
    requires
        all_positive(dims),
        is_fully_packed(dims, strides),
    ensures
        required_data_len(dims, strides) == suffix_product(dims, 0),
{
    lemma_packed_span_from(dims, strides, 0);
}

/// The shape half of a tensor descriptor: the element type, the dimensions
/// and the stride of each dimension, together with the element count a
/// buffer for the tensor must have.
pub struct CuTensorDescriptor {
    data_type: CudnnDataType,
    dimensions: Vec<i32>,
    strides: Vec<i32>,
    data_len: usize,
}

impl CuTensorDescriptor {
    /// Element type the descriptor was created with.
    pub closed spec fn spec_data_type(&self) -> CudnnDataType {
        self.data_type
    }

    /// The tensor's dimensions, outermost first.
    pub closed spec fn spec_dimensions(&self) -> Seq<i32> {
        self.dimensions@
    }

    /// Element offset between neighbours along each dimension.
    pub closed spec fn spec_strides(&self) -> Seq<i32> {
        self.strides@
    }

    /// The element count a linked buffer must have.
    pub closed spec fn spec_data_len(&self) -> int {
        self.data_len as int
    }

    /// Validity of the descriptor: at least three positive dimensions, one
    /// positive stride per dimension, and the cached element count agrees
    /// with the dimensions and strides.
    pub closed spec fn wf(&self) -> bool {
        &&& 3 <= self.dimensions@.len() <= i32::MAX
        &&& self.strides@.len() == self.dimensions@.len()
        &&& all_positive(self.dimensions@)
        &&& all_positive(self.strides@)
        &&& self.data_len == required_data_len(self.dimensions@, self.strides@)
    }

    /// The element count is a machine size and so never negative.
    pub proof fn lemma_data_len_nonneg(&self)
        ensures
            0 <= self.spec_data_len() <= usize::MAX,
    {
    }

    /// Descriptor for the given dimensions and strides.
    pub fn new(dimensions: &[i32], strides: &[i32]) -> (r: CuTensorDescriptor)
        requires
            3 <= dimensions@.len() <= i32::MAX,
            strides@.len() == dimensions@.len(),
            all_positive(dimensions@),
            all_positive(strides@),
            required_data_len(dimensions@, strides@) <= usize::MAX,
        ensures
            r.wf(),
            r.spec_data_type() == CudnnDataType::Float,
            r.spec_dimensions() == dimensions@,
            r.spec_strides() == strides@,
            r.spec_data_len() == required_data_len(dimensions@, strides@),
    {
        let data_len: usize = compute_required_data_len(dimensions, strides);
        CuTensorDescriptor {
            data_type: CudnnDataType::Float,
            dimensions: slice_to_vec(dimensions),
            strides: slice_to_vec(strides),
            data_len,
        }
    }

    /// Descriptor for a fully packed layout of the given dimensions.
    pub fn fully_packed(dimensions: &[i32]) -> (r: CuTensorDescriptor)
        requires
            3 <= dimensions@.len() <= i32::MAX,
            all_positive(dimensions@),
            suffix_product(dimensions@, 1) <= i32::MAX,
            suffix_product(dimensions@, 0) <= usize::MAX,
        ensures
            r.wf(),
            r.spec_data_type() == CudnnDataType::Float,
            r.spec_dimensions() == dimensions@,
            is_fully_packed(dimensions@, r.spec_strides()),
            r.spec_data_len() == suffix_product(dimensions@, 0),
    {
        let strides = get_fully_packed_strides(dimensions);
        proof {
            lemma_packed_data_len(dimensions@, strides@);
            lemma_suffix_product_positive(dimensions@, 1);
        }
        let data_len: usize = (dimensions[0] as usize) * (strides[0] as usize);
        proof {
            lemma_packed_strides_positive(dimensions@, strides@);
        }
        CuTensorDescriptor {
            data_type: CudnnDataType::Float,
            dimensions: slice_to_vec(dimensions),
            strides,
            data_len,
        }
    }

    /// Descriptor for a 4-dimensional tensor in one of the plain layouts.
    /// In Nchw the innermost stride is 1 (strides `[c*h*w, h*w, w, 1]`);
    /// in Nhwc the channel stride is 1 (strides `[h*w*c, 1, w*c, c]`).
    pub fn new_4d(format: CudnnTensorFormat, n: i32, c: i32, h: i32, w: i32) -> (r:
        CuTensorDescriptor)
        requires
            format == CudnnTensorFormat::Nchw || format == CudnnTensorFormat::Nhwc,
            1 <= n && 1 <= c && 1 <= h && 1 <= w,
            c * h * w <= i32::MAX,
            n * c * h * w <= usize::MAX,
        ensures
            r.wf(),
            r.spec_data_type() == CudnnDataType::Float,
            r.spec_dimensions() == seq![n, c, h, w],
            r.spec_strides().len() == 4,
            format == CudnnTensorFormat::Nchw ==> {
                &&& r.spec_strides()[0] == c * h * w
                &&& r.spec_strides()[1] == h * w
                &&& r.spec_strides()[2] == w
                &&& r.spec_strides()[3] == 1
            },
            format == CudnnTensorFormat::Nhwc ==> {
                &&& r.spec_strides()[0] == c * h * w
                &&& r.spec_strides()[1] == 1
                &&& r.spec_strides()[2] == w * c
                &&& r.spec_strides()[3] == c
            },
            r.spec_data_len() == n * c * h * w,
    {
        proof {
            assert(1 <= h * w && 1 <= w * c && 1 <= c * h * w && h * w <= c * h * w
                && w * c <= c * h * w && c * (h * w) == c * h * w && h * (w * c) == c * h * w
                && n * (c * h * w) == n * c * h * w) by (nonlinear_arith)
                requires
                    1 <= n && 1 <= c && 1 <= h && 1 <= w,
            ;
        }
        let hw: i32 = h * w;
        let chw: i32 = c * hw;
        let mut dims: Vec<i32> = Vec::new();
        dims.push(n);
        dims.push(c);
        dims.push(h);
        dims.push(w);
        let mut strides: Vec<i32> = Vec::new();
        match format {
            CudnnTensorFormat::Nchw => {
                strides.push(chw);
                strides.push(hw);
                strides.push(w);
                strides.push(1);
            },
            _ => {
                let wc: i32 = w * c;
                strides.push(h * wc);
                strides.push(1);
                strides.push(wc);
                strides.push(c);
            },
        }
        proof {
            assert(0 <= (n as int) * (chw as int) && (n as int) * (chw as int) == n * c * h * w)
                by (nonlinear_arith)
                requires
                    1 <= n,
                    1 <= chw,
                    chw == c * h * w,
                    n * (c * h * w) == n * c * h * w,
            ;
        }
        let data_len: usize = (n as usize) * (chw as usize);
        proof {
            assert(dims@ =~= seq![n, c, h, w]);
            assert(all_positive(dims@));
            let ni = n as int;
            let ci = c as int;
            let hi = h as int;
            let wi = w as int;
            lemma_span4(dims@, strides@);
            if format == CudnnTensorFormat::Nchw {
                assert(strides@.len() == 4 && strides@[0] == chw && strides@[1] == hw
                    && strides@[2] == w && strides@[3] == 1);
                lemma_mul_dist(ni, ci * (hi * wi));
                lemma_mul_dist(ci, hi * wi);
                lemma_mul_dist(hi, wi);
                lemma_mul_dist(wi, 1);
            } else {
                assert(strides@.len() == 4 && strides@[0] == h * (w * c) && strides@[1] == 1
                    && strides@[2] == w * c && strides@[3] == c);
                lemma_mul_dist(ni, hi * (wi * ci));
                lemma_mul_dist(ci, 1);
                lemma_mul_dist(hi, wi * ci);
                lemma_mul_dist(wi, ci);
            }
            assert(all_positive(strides@));
        }
        CuTensorDescriptor { data_type: CudnnDataType::Float, dimensions: dims, strides, data_len }
    }

    /// The element count a buffer linked to this descriptor must have.
    pub fn data_len(&self) -> (r: usize)
        ensures
            r as int == self.spec_data_len(),
            self.wf() ==> r as int == required_data_len(
                self.spec_dimensions(),
                self.spec_strides(),
            ),
    {
        self.data_len
    }

    /// The descriptor's element type, dimension count, dimensions and
    /// strides, read back in the form the native getter returns them.
    pub fn get_info(&self) -> (info: CuTensorDescriptorInfo)
        requires
            self.wf(),
        ensures
            info.data_type == self.spec_data_type(),
            info.nb_dims == self.spec_dimensions().len(),
            info.dimensions@ == self.spec_dimensions(),
            info.strides@ == self.spec_strides(),
    {
        CuTensorDescriptorInfo {
            data_type: self.data_type,
            nb_dims: self.dimensions.len() as i32,
            dimensions: slice_to_vec(self.dimensions.as_slice()),
            strides: slice_to_vec(self.strides.as_slice()),
        }
    }
}

impl Clone for CuTensorDescriptor {
    /// An independent descriptor with the same element type, dimensions,
    /// strides and element count.
    fn clone(&self) -> (r: Self)
        ensures
            r.spec_data_type() == self.spec_data_type(),
            r.spec_dimensions() == self.spec_dimensions(),
            r.spec_strides() == self.spec_strides(),
            r.spec_data_len() == self.spec_data_len(),
            r.wf() == self.wf(),
    {
        CuTensorDescriptor {
            data_type: self.data_type,
            dimensions: slice_to_vec(self.dimensions.as_slice()),
            strides: slice_to_vec(self.strides.as_slice()),
            data_len: self.data_len,
        }
    }

    /// Overwrites this descriptor with the shape of `other`.
    fn clone_from(&mut self, other: &Self)
        ensures
            final(self).spec_data_type() == other.spec_data_type(),
            final(self).spec_dimensions() == other.spec_dimensions(),
            final(self).spec_strides() == other.spec_strides(),
            final(self).spec_data_len() == other.spec_data_len(),
            final(self).wf() == other.wf(),
    {
        self.data_type = other.data_type;
        self.dimensions = slice_to_vec(other.dimensions.as_slice());
        self.strides = slice_to_vec(other.strides.as_slice());
        self.data_len = other.data_len;
    }
}

/// Distribution of one subtraction over a product.
proof fn lemma_mul_dist(a: int, b: int)
    ensures
        (a - 1) * b == a * b - b,
{
    assert((a - 1) * b == a * b - b) by (nonlinear_arith);
}

/// The unrolled form of `span_from` for a 4-dimensional descriptor.
proof fn lemma_span4(dims: Seq<i32>, strides: Seq<i32>)
    requires
        dims.len() == 4,
        strides.len() == 4,
    ensures
        span_from(dims, strides, 0) == (dims[0] - 1) * strides[0] + (dims[1] - 1) * strides[1] + (
        dims[2] - 1) * strides[2] + (dims[3] - 1) * strides[3],
{
    reveal_with_fuel(span_from, 6);
}

/// Strides of a fully packed layout are themselves positive.
pub proof fn lemma_packed_strides_positive(dims: Seq<i32>, strides: Seq<i32>)
    requires
        all_positive(dims),
        is_fully_packed(dims, strides),
    ensures
        all_positive(strides),
{
    assert forall|i: int| 0 <= i < strides.len() implies 1 <= strides[i] by {
        lemma_suffix_product_positive(dims, i + 1);
    }
}

/// Walks the dimensions adding up `(dims[i] - 1) * strides[i]`, the same
/// sum the native library sizes a tensor by.
fn compute_required_data_len(dimensions: &[i32], strides: &[i32]) -> (r: usize)
    requires
        strides@.len() == dimensions@.len(),
        all_positive(dimensions@),
        all_positive(strides@),
        required_data_len(dimensions@, strides@) <= usize::MAX,
    ensures
        r as int == required_data_len(dimensions@, strides@),
{
    let n: usize = dimensions.len();
    let mut acc: usize = 0;
    let mut i: usize = 0;
    while i < n
        invariant
            i <= n,
            n == dimensions@.len(),
            strides@.len() == n,
            all_positive(dimensions@),
            all_positive(strides@),
            required_data_len(dimensions@, strides@) <= usize::MAX,
            acc + span_from(dimensions@, strides@, i as int)
                == span_from(dimensions@, strides@, 0),
        decreases n - i,
    {
        proof {
            lemma_span_from_nonneg(dimensions@, strides@, i as int + 1);
            assert(0 <= (dimensions@[i as int] - 1) * strides@[i as int]) by (nonlinear_arith)
                requires
                    1 <= dimensions@[i as int],
                    1 <= strides@[i as int],
            ;
        }
        acc = acc + ((dimensions[i] - 1) as usize) * (strides[i] as usize);
        i = i + 1;
    }
    acc + 1
}

/// What the native descriptor getter reports of a tensor descriptor.
#[derive(Debug)]
pub struct CuTensorDescriptorInfo {
    pub data_type: CudnnDataType,
    pub nb_dims: i32,
    pub dimensions: Vec<i32>,
    pub strides: Vec<i32>,
}

} // verus!
