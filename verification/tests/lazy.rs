use syncrs::LazyLock;

#[test]
fn lazy_is_not_initialized_before_use() {
    let lazy = LazyLock::new(|| 1234u64);
    assert!(!lazy.lock().is_initialized());
}
