#[test]
fn lib_it_works() {}
