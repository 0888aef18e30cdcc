use cudnn::CuFilterDescriptor;
use cudnn::CudnnDataType;
use cudnn::CudnnTensorFormat;

#[test]
fn init_nchw() {
    let descriptor = CuFilterDescriptor::new(CudnnTensorFormat::Nchw, &[2, 4, 1, 7]);
    let info = descriptor.get_info(4);
    assert_eq!(info.data_type, CudnnDataType::Float);
    assert_eq!(info.format, CudnnTensorFormat::Nchw);
    assert_eq!(info.nb_dims, 4);
    assert_eq!(info.filter_dims.len(), 4);
    assert_eq!(info.filter_dims[0], 2);
    assert_eq!(info.filter_dims[1], 4);
    assert_eq!(info.filter_dims[2], 1);
    assert_eq!(info.filter_dims[3], 7);
}

#[test]
fn new_4d_matches_new() {
    let from_dims = CuFilterDescriptor::new(CudnnTensorFormat::Nhwc, &[3, 3, 3, 3]);
    let from_parts = CuFilterDescriptor::new_4d(CudnnTensorFormat::Nhwc, 3, 3, 3, 3);
    let a = from_dims.get_info(4);
    let b = from_parts.get_info(4);
    assert_eq!(a.data_type, b.data_type);
    assert_eq!(a.format, b.format);
    assert_eq!(a.nb_dims, b.nb_dims);
    assert_eq!(a.filter_dims, b.filter_dims);
}

#[test]
fn get_info_pads_extra_entries() {
    let descriptor = CuFilterDescriptor::new(CudnnTensorFormat::Nchw, &[2, 4, 1, 7]);
    let info = descriptor.get_info(6);
    assert_eq!(info.nb_dims, 4);
    assert_eq!(info.filter_dims, vec![2, 4, 1, 7, -1, -1]);
}

#[test]
fn get_info_truncates_to_request() {
    let descriptor = CuFilterDescriptor::new(CudnnTensorFormat::Nchw, &[2, 4, 1, 7]);
    let info = descriptor.get_info(2);
    assert_eq!(info.nb_dims, 4);
    assert_eq!(info.filter_dims, vec![2, 4]);
}
