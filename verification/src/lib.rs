//! Typed models of the metadata carried by a GPU deep-learning library's
//! descriptors: tensor shapes and strides, filter layouts, and convolution
//! parameters, with the shape arithmetic stated and proved.

mod modes;
mod dimensions_strides;
mod tensor_descriptor;
mod tensor_descriptor_array;
mod filter_descriptor;
mod convolution_descriptor;

pub use modes::CudnnDataType;
pub use modes::CudnnTensorFormat;
pub use modes::CudnnConvolutionMode;
pub use modes::CudnnMathType;
pub use dimensions_strides::DimensionsStrides;
pub use dimensions_strides::get_fully_packed_strides;
pub use dimensions_strides::suffix_product;
pub use dimensions_strides::all_positive;
pub use dimensions_strides::is_fully_packed;
pub use dimensions_strides::lemma_suffix_product_positive;
pub use dimensions_strides::lemma_suffix_product_monotonic;
pub use tensor_descriptor::CuTensorDescriptor;
pub use tensor_descriptor::CuTensorDescriptorInfo;
pub use tensor_descriptor::required_data_len;
pub use tensor_descriptor::span_from;
pub use tensor_descriptor::lemma_packed_data_len;
pub use tensor_descriptor::lemma_packed_strides_positive;
pub use tensor_descriptor::lemma_span_from_nonneg;
pub use tensor_descriptor_array::data_len;
pub use tensor_descriptor_array::total_data_len;
pub use tensor_descriptor_array::lemma_total_data_len_nonneg;
pub use filter_descriptor::CuFilterDescriptor;
pub use filter_descriptor::CuFilterDescriptorInfo;
pub use convolution_descriptor::CuConvolutionDescriptor;
pub use convolution_descriptor::CuConvolutionDescriptorInfo;
