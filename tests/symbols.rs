use mxnet::{ComposeAction, ComposeEvent, ComposeStage, MXError, Registry, SymbolBuilder};
use mxnet::symbol::compose_step;

fn creators() -> Registry<u32> {
    Registry::from_entries(vec![
        ("_plus".to_string(), 1),
        ("FullyConnected".to_string(), 2),
        ("_plus".to_string(), 3),
    ])
}

#[test]
fn registry_later_entry_wins() {
    let r = creators();
    assert_eq!(r.get(&"_plus".to_string()), Some(&3));
    assert_eq!(r.get(&"FullyConnected".to_string()), Some(&2));
    assert_eq!(r.get(&"Convolution".to_string()), None);
    let mut r = Registry::new();
    r.insert("a".to_string(), 1u32);
    r.insert("a".to_string(), 4u32);
    assert_eq!(r.get(&"a".to_string()), Some(&4));
}

#[test]
fn unknown_operator_is_recoverable() {
    let b: SymbolBuilder<u64> = SymbolBuilder::new("_no_such_op");
    let r = b.plan(&creators());
    assert!(matches!(r, Err(MXError::UnknownOperator(n)) if n == "_no_such_op"));
}

#[test]
fn plus_of_variable_with_itself() {
    let x: u64 = 77;
    let mut b = SymbolBuilder::new("_plus");
    b.set_input(vec![x, x]);
    let p = b.plan(&creators()).unwrap();
    assert_eq!(p.creator, 3);
    assert_eq!(p.num_inputs, 2);
    assert_eq!(p.num_params, 0);
    assert!(!p.keyed);
    assert_eq!(b.input_values, vec![x, x]);
}

#[test]
fn keyed_inputs_and_params() {
    let mut b = SymbolBuilder::new("FullyConnected");
    b.add_input("data", 5u64);
    b.add_input("weight", 6u64);
    b.add_param("num_hidden", "10");
    let p = b.plan(&creators()).unwrap();
    assert_eq!(p.creator, 2);
    assert!(p.keyed);
    assert_eq!(p.num_inputs, 2);
    assert_eq!(p.num_params, 1);
    assert_eq!(b.param_keys, vec!["num_hidden".to_string()]);
    assert_eq!(b.param_values, vec!["10".to_string()]);
}

#[test]
fn mixed_inputs_are_refused() {
    let mut b = SymbolBuilder::new("_plus");
    b.set_input(vec![1u64]);
    b.add_input("rhs", 2u64);
    assert!(matches!(b.plan(&creators()), Err(MXError::MixedInputs)));
}

#[test]
fn compose_protocol_success_and_failure() {
    let (s, a) = compose_step(ComposeStage::Start, ComposeEvent::CreateOk(9u32));
    assert!(matches!(a, ComposeAction::Compose(9)));
    let (s2, a2) = compose_step(s, ComposeEvent::ComposeOk);
    assert!(matches!(a2, ComposeAction::Yield(9)));
    assert!(matches!(s2, ComposeStage::Finished(9)));

    let (s, _) = compose_step(ComposeStage::Start, ComposeEvent::CreateOk(4u32));
    let (s, a) = compose_step(s, ComposeEvent::ComposeErr);
    assert!(matches!(a, ComposeAction::Release(4)));
    assert!(matches!(s, ComposeStage::Failed));

    let (s, a) = compose_step(ComposeStage::<u32>::Start, ComposeEvent::CreateErr);
    assert!(matches!(a, ComposeAction::Fail));
    assert!(matches!(s, ComposeStage::Failed));
}
