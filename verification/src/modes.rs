use vstd::prelude::*;

verus! {

/// Element type of a tensor or filter.
#[derive(Clone, Copy, Debug, PartialEq, Eq, Structural)]
pub enum CudnnDataType {
    Float,
    Double,
    Half,
    Int8,
    Int32,
    Int8x4,
}

/// Memory layout of a 4-dimensional tensor or filter.
#[derive(Clone, Copy, Debug, PartialEq, Eq, Structural)]
pub enum CudnnTensorFormat {
    Nchw,
    Nhwc,
    NchwVectC,
}

/// Whether a convolution descriptor describes a true convolution or a
/// cross-correlation.
#[derive(Clone, Copy, Debug, PartialEq, Eq, Structural)]
pub enum CudnnConvolutionMode {
    Convolution,
    CrossCorrelation,
}

/// Which floating-point paths the native kernels may take.
#[derive(Clone, Copy, Debug, PartialEq, Eq, Structural)]
pub enum CudnnMathType {
    Default,
    TensorOp,
}

} // verus!
