#[test]
fn test_hash_display() {
    assert_eq!(
        "fake_hash",
        dive_rs::hash::Hash("fake_hash".to_string()).display()
    );
}
