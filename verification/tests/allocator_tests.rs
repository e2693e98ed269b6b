use mincc::stack_allocator::StackAllocator;

#[test]
fn allocation_is_idempotent() {
    let mut a = StackAllocator::new();
    let first = a.allocate("tmp.0");
    let second = a.allocate("tmp.0");
    assert_eq!(first, -4);
    assert_eq!(second, first);
    assert_eq!(a.get(), 4);
}

#[test]
fn distinct_names_get_distinct_descending_offsets() {
    let mut a = StackAllocator::new();
    let o0 = a.allocate("tmp.0");
    let o1 = a.allocate("tmp.1");
    let o2 = a.allocate("tmp.2");
    assert_eq!(o0, -4);
    assert_eq!(o1, -8);
    assert_eq!(o2, -12);
    assert_eq!(a.get(), 12);
    // asking again, in any order, changes nothing
    assert_eq!(a.allocate("tmp.1"), -8);
    assert_eq!(a.allocate("tmp.0"), -4);
    assert_eq!(a.get(), 12);
}

#[test]
fn fresh_allocator_has_an_empty_total() {
    let a = StackAllocator::new();
    assert_eq!(a.get(), 0);
}
