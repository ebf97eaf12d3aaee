// Placeholder test to prevent empty test suite
#[test]
fn placeholder_integration_test() {
    // This test always passes and serves as documentation that
    // integration tests are defined elsewhere but require PocketIC to run
    assert!(true, "Integration tests require PocketIC - see comments above");
}
