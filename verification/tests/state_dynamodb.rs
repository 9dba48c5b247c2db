#[test]
fn test_invocation_put() {}
