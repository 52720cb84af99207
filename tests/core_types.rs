use mxnet::{error_result, ArithOp, Context, DeviceType, MXError, MXResult};
use mxnet::{dims_to_shape, shape_size};

#[test]
fn engine_error_keeps_its_text() {
    let e = MXError::new("bad shape");
    assert!(matches!(&e, MXError::Engine(m) if m == "bad shape"));
    assert_eq!(e.description(), "bad shape");
    assert_eq!(e.message(), "mxnet error: bad shape");
    let r: MXResult<u32> = error_result("load failed");
    assert!(matches!(r, Err(MXError::Engine(m)) if m == "load failed"));
}

#[test]
fn layer_errors_have_their_own_text() {
    assert_eq!(MXError::MissingNames.description(), "NDArray load missing names");
    assert_eq!(MXError::NamesMismatch.description(), "NDArray load with names size mismatch");
    assert_eq!(
        MXError::UnknownOperator("_nope".to_string()).description(),
        "unknown operator: _nope"
    );
}

#[test]
fn contexts_and_device_codes() {
    let d = Context::default();
    assert_eq!(d, Context::default_cpu());
    assert_eq!(d.device_type, DeviceType::CPU);
    assert_eq!(d.device_id, 0);
    assert_eq!(Context::gpu(3), Context::new(DeviceType::GPU, 3));
    assert_eq!(Context::default_gpu().device_type.code(), 2);
    assert_eq!(Context::cpu(1).device_type.code(), 1);
    assert_eq!(DeviceType::CPUPinned.code(), 3);
    assert_eq!(Context::gpu(7).device_id_code(), Some(7));
    assert_eq!(Context::gpu(-1).device_id_code(), Some(-1));
    assert_eq!(Context::gpu(i32::MAX as isize + 1).device_id_code(), None);
}

#[test]
fn size_is_the_product_of_dimensions() {
    assert_eq!(shape_size(&vec![]), Some(1));
    assert_eq!(shape_size(&vec![6]), Some(6));
    assert_eq!(shape_size(&vec![2, 3]), Some(6));
    assert_eq!(shape_size(&vec![2, 3, 4]), Some(24));
    assert_eq!(shape_size(&vec![u32::MAX, u32::MAX, 0]), Some(0));
    assert_eq!(shape_size(&vec![u32::MAX, u32::MAX, u32::MAX]), None);
}

#[test]
fn reshape_keeps_element_count() {
    let before = shape_size(&vec![6]);
    assert_eq!(before, shape_size(&vec![2, 3]));
    assert_ne!(before, shape_size(&vec![4, 2]));
}

#[test]
fn dims_convert_in_order() {
    assert_eq!(dims_to_shape(&vec![3, 1, 4]), vec![3usize, 1, 4]);
    assert_eq!(dims_to_shape(&vec![]), Vec::<usize>::new());
}

#[test]
fn arithmetic_function_names() {
    assert_eq!(ArithOp::Plus.name(), "_plus");
    assert_eq!(ArithOp::Plus.scalar_name(), "_plus_scalar");
    assert_eq!(ArithOp::Minus.scalar_name(), "_minus_scalar");
    assert_eq!(ArithOp::Mul.name(), "_mul");
    assert_eq!(ArithOp::Div.scalar_name(), "_div_scalar");
}
