use cudnn::CuTensorDescriptor;
use cudnn::CudnnDataType;
use cudnn::CudnnTensorFormat;

fn assert_validity(descriptor: &CuTensorDescriptor, expected_nb_dims: i32) {
    let info = descriptor.get_info();
    assert_eq!(info.data_type, CudnnDataType::Float);
    assert_eq!(info.nb_dims, expected_nb_dims);
    assert_eq!(info.nb_dims, info.dimensions.len() as i32);
    assert_eq!(info.nb_dims, info.strides.len() as i32);
}

#[test]
fn init() {
    assert_validity(&CuTensorDescriptor::fully_packed(&[7, 1, 5, 3]), 4);
    assert_validity(&CuTensorDescriptor::new_4d(CudnnTensorFormat::Nhwc, 7, 2, 5, 3), 4);
    assert_validity(&CuTensorDescriptor::new_4d(CudnnTensorFormat::Nchw, 7, 1, 5, 3), 4);
}

#[test]
fn fully_packed_strides_and_len() {
    let descriptor = CuTensorDescriptor::fully_packed(&[2, 3, 4, 5]);
    let info = descriptor.get_info();
    assert_eq!(info.dimensions, vec![2, 3, 4, 5]);
    assert_eq!(info.strides, vec![60, 20, 5, 1]);
    assert_eq!(descriptor.data_len(), 120);
}

#[test]
fn strided_data_len() {
    let descriptor = CuTensorDescriptor::new(&[1, 3, 4, 2], &[24, 1, 6, 3]);
    let info = descriptor.get_info();
    assert_eq!(info.dimensions, vec![1, 3, 4, 2]);
    assert_eq!(info.strides, vec![24, 1, 6, 3]);
    assert_eq!(descriptor.data_len(), 24);
}

#[test]
fn new_matches_fully_packed() {
    let packed = CuTensorDescriptor::fully_packed(&[7, 1, 5, 3]);
    let explicit = CuTensorDescriptor::new(&[7, 1, 5, 3], &[15, 15, 3, 1]);
    assert_eq!(packed.data_len(), explicit.data_len());
    let packed_info = packed.get_info();
    let explicit_info = explicit.get_info();
    assert_eq!(packed_info.dimensions, explicit_info.dimensions);
    assert_eq!(packed_info.strides, explicit_info.strides);
}

#[test]
fn new_4d_nchw_strides() {
    let descriptor = CuTensorDescriptor::new_4d(CudnnTensorFormat::Nchw, 7, 1, 5, 3);
    let info = descriptor.get_info();
    assert_eq!(info.dimensions, vec![7, 1, 5, 3]);
    assert_eq!(info.strides, vec![15, 15, 3, 1]);
    assert_eq!(descriptor.data_len(), 105);
}

#[test]
fn new_4d_nhwc_strides() {
    let descriptor = CuTensorDescriptor::new_4d(CudnnTensorFormat::Nhwc, 7, 2, 5, 3);
    let info = descriptor.get_info();
    assert_eq!(info.dimensions, vec![7, 2, 5, 3]);
    assert_eq!(info.strides, vec![30, 1, 6, 2]);
    assert_eq!(descriptor.data_len(), 210);
}

#[test]
fn clone_keeps_shape() {
    let descriptor = CuTensorDescriptor::fully_packed(&[1, 1, 4, 10]);
    let copy = descriptor.clone();
    assert_eq!(copy.data_len(), descriptor.data_len());
    let info = descriptor.get_info();
    let copy_info = copy.get_info();
    assert_eq!(copy_info.data_type, info.data_type);
    assert_eq!(copy_info.dimensions, info.dimensions);
    assert_eq!(copy_info.strides, info.strides);
}

#[test]
fn clone_from_overwrites_shape() {
    let source = CuTensorDescriptor::fully_packed(&[1, 1, 4, 20]);
    let mut target = CuTensorDescriptor::fully_packed(&[1, 1, 4, 10]);
    target.clone_from(&source);
    assert_eq!(target.data_len(), 80);
    let info = target.get_info();
    assert_eq!(info.dimensions, vec![1, 1, 4, 20]);
    assert_eq!(info.strides, vec![80, 80, 20, 1]);
}

#[test]
fn array_data_len_sums_members() {
    let descriptors = [
        CuTensorDescriptor::fully_packed(&[1, 1, 4, 10]),
        CuTensorDescriptor::fully_packed(&[1, 1, 4, 20]),
    ];
    assert_eq!(descriptors[0].data_len(), 40);
    assert_eq!(descriptors[1].data_len(), 80);
    assert_eq!(cudnn::data_len(&descriptors), 120);
    assert_eq!(cudnn::data_len(&descriptors[..0]), 0);
}
