use mxnet::tensor::{into_named, pair_loaded, split_named};
use mxnet::{Context, MXError, NDArrayBuilder};

#[test]
fn builder_from_shape_defers_allocation() {
    let a = NDArrayBuilder::new(vec![2, 3]).create_args().unwrap();
    assert_eq!(a.shape, vec![2, 3]);
    assert_eq!(a.ndim, 2);
    assert_eq!(a.dev_type, 1);
    assert_eq!(a.dev_id, 0);
    assert!(a.delay_alloc);
    assert_eq!(a.copy_len, None);
}

#[test]
fn builder_from_data_is_one_dimensional_and_copies() {
    let b = NDArrayBuilder::from(3).context(Context::gpu(1));
    let a = b.create_args().unwrap();
    assert_eq!(a.shape, vec![3]);
    assert_eq!(a.ndim, 1);
    assert_eq!(a.dev_type, 2);
    assert_eq!(a.dev_id, 1);
    assert!(!a.delay_alloc);
    assert_eq!(a.copy_len, Some(3));
}

#[test]
fn builder_eager_allocation_and_bad_device() {
    let a = NDArrayBuilder::new(vec![]).delay_alloc(false).create_args().unwrap();
    assert!(!a.delay_alloc);
    assert_eq!(a.ndim, 0);
    let r = NDArrayBuilder::new(vec![1]).context(Context::cpu(1 << 40)).create_args();
    assert!(matches!(r, Err(MXError::OutOfRange)));
}

#[test]
fn load_with_mismatched_names_fails() {
    let r = pair_loaded(vec![1u8, 2, 3], vec!["a".to_string()], true);
    assert!(matches!(r, Err(MXError::NamesMismatch)));
}

#[test]
fn load_without_names_keeps_order() {
    let (a, n) = pair_loaded(vec![5u8, 6], vec![], true).unwrap();
    assert_eq!(a, vec![5, 6]);
    assert!(n.is_none());
    let (a, n) = pair_loaded(vec![5u8, 6], vec!["x".to_string(), "y".to_string()], false).unwrap();
    assert_eq!(a, vec![5, 6]);
    assert!(n.is_none());
}

#[test]
fn named_load_of_unnamed_file_is_missing_names() {
    let (a, n) = pair_loaded(vec![5u8, 6], vec![], true).unwrap();
    assert!(matches!(into_named(a, n), Err(MXError::MissingNames)));
    assert!(matches!(
        into_named(vec![1u8], Some(vec![])),
        Err(MXError::NamesMismatch)
    ));
}

#[test]
fn named_save_then_load_round_trip() {
    let entries = vec![("w".to_string(), 10u8), ("b".to_string(), 20u8)];
    let (names, items) = split_named(entries.clone());
    assert_eq!(names, vec!["w".to_string(), "b".to_string()]);
    assert_eq!(items, vec![10, 20]);
    let (a, n) = pair_loaded(items, names, true).unwrap();
    assert_eq!(into_named(a, n).unwrap(), entries);
}
