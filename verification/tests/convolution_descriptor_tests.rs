use cudnn::CuConvolutionDescriptor;
use cudnn::CudnnConvolutionMode;
use cudnn::CudnnDataType;
use cudnn::CudnnMathType;

#[test]
fn compare_2d_nd() {
    let convolution_2d = CuConvolutionDescriptor::new_2d(
        1,
        1,
        1,
        1,
        1,
        1,
        CudnnConvolutionMode::CrossCorrelation,
    );
    let convolution_nd = CuConvolutionDescriptor::new(
        &[1, 1],
        &[1, 1],
        &[1, 1],
        CudnnConvolutionMode::CrossCorrelation,
        1,
        CudnnMathType::Default,
    );
    assert!(convolution_2d.get_info().eq(&convolution_nd.get_info()))
}

#[test]
fn get_info_reports_parameters() {
    let convolution = CuConvolutionDescriptor::new(
        &[2, 1],
        &[3, 4],
        &[1, 2],
        CudnnConvolutionMode::Convolution,
        1,
        CudnnMathType::Default,
    );
    let info = convolution.get_info();
    assert_eq!(info.array_length, 2);
    assert_eq!(info.pads, vec![2, 1]);
    assert_eq!(info.filter_strides, vec![3, 4]);
    assert_eq!(info.dilatations, vec![1, 2]);
    assert_eq!(info.mode, CudnnConvolutionMode::Convolution);
    assert_eq!(info.data_type, CudnnDataType::Float);
}

#[test]
fn different_paddings_differ() {
    let a = CuConvolutionDescriptor::new_2d(1, 1, 1, 1, 1, 1, CudnnConvolutionMode::Convolution);
    let b = CuConvolutionDescriptor::new_2d(2, 1, 1, 1, 1, 1, CudnnConvolutionMode::Convolution);
    assert!(!a.get_info().eq(&b.get_info()));
    let c = CuConvolutionDescriptor::new_2d(
        1,
        1,
        1,
        1,
        1,
        1,
        CudnnConvolutionMode::CrossCorrelation,
    );
    assert!(!a.get_info().eq(&c.get_info()));
}
