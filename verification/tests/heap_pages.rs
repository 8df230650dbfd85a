use sc_executor_wasmtime::heap_pages::{heap_pages_valid, MemoryLimits};

#[test]
fn heap_pages_within_the_limit_are_valid() {
    assert_eq!(heap_pages_valid(0, Some(0)), Some(0));
    assert_eq!(heap_pages_valid(9, Some(10)), Some(9));
    assert_eq!(heap_pages_valid(10, Some(10)), Some(10));
}

#[test]
fn heap_pages_above_the_limit_are_not_valid() {
    assert_eq!(heap_pages_valid(11, Some(10)), None);
    assert_eq!(heap_pages_valid(1, Some(0)), None);
}

#[test]
fn heap_pages_without_a_limit_have_to_fit_in_32_bits() {
    assert_eq!(heap_pages_valid(u32::MAX as u64, None), Some(u32::MAX));
    assert_eq!(heap_pages_valid(u32::MAX as u64 + 1, None), None);
    assert_eq!(heap_pages_valid(u64::MAX, None), None);
    assert_eq!(heap_pages_valid(0x1_0000_0005, Some(10)), None);
}

#[test]
fn memory_can_grow_from_its_minimum_to_its_maximum() {
    let limits = MemoryLimits { minimum: 17, maximum: Some(1024) };
    assert_eq!(limits.max_heap_pages(), Some(1007));
    let limits = MemoryLimits { minimum: 17, maximum: Some(17) };
    assert_eq!(limits.max_heap_pages(), Some(0));
}

#[test]
fn memory_with_a_maximum_below_its_minimum_cannot_grow() {
    let limits = MemoryLimits { minimum: 17, maximum: Some(16) };
    assert_eq!(limits.max_heap_pages(), Some(0));
}

#[test]
fn memory_without_a_maximum_has_no_limit() {
    let limits = MemoryLimits { minimum: 17, maximum: None };
    assert_eq!(limits.max_heap_pages(), None);
}
