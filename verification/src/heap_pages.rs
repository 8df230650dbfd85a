//! How many pages a guest may use for its heap.
use vstd::prelude::*;

verus! {

/// Whether a guest may have `heap_pages` pages on top of its initial memory: the number fits in 32
/// bits and does not exceed the limit, where there is one.
pub open spec fn heap_pages_in_range(heap_pages: u64, max_heap_pages: Option<u32>) -> bool {
    &&& heap_pages <= u32::MAX
    &&& max_heap_pages matches Some(max) ==> heap_pages <= max
}

/// Checks whether the `heap_pages` parameter is within the valid range and converts it to a `u32`.
/// Returns `None` if `heap_pages` is not in range.
pub fn heap_pages_valid(heap_pages: u64, max_heap_pages: Option<u32>) -> (valid: Option<u32>)
    ensures
        heap_pages_in_range(heap_pages, max_heap_pages) ==> valid == Some(heap_pages as u32),
        !heap_pages_in_range(heap_pages, max_heap_pages) ==> valid is None,
{
    if heap_pages > u32::MAX as u64 {
        return None;
    }
    let heap_pages: u32 = heap_pages as u32;
    if let Some(max_heap_pages) = max_heap_pages {
        if heap_pages > max_heap_pages {
            return None;
        }
    }
    Some(heap_pages)
}

/// The size that a module declares for its linear memory, in pages.
#[derive(Debug, Clone, Copy, PartialEq, Eq, Structural)]
pub struct MemoryLimits {
    /// The number of pages that the memory starts with.
    pub minimum: u32,
    /// The number of pages that the memory may not outgrow.
    pub maximum: Option<u32>,
}

/// By how many pages a memory within these limits can grow, if there is an upper limit. A maximum
/// below the minimum leaves no room at all.
pub open spec fn growth_limit(limits: MemoryLimits) -> Option<u32> {
    match limits.maximum {
        Some(maximum) => if maximum >= limits.minimum {
            Some((maximum - limits.minimum) as u32)
        } else {
            Some(0u32)
        },
        None => None,
    }
}

impl MemoryLimits {
    /// The number of pages by which the memory can grow, if there is an upper limit.
    pub fn max_heap_pages(&self) -> (max_heap_pages: Option<u32>)
        ensures
            max_heap_pages == growth_limit(*self),
    {
        match self.maximum {
            Some(maximum) => Some(maximum.saturating_sub(self.minimum)),
            None => None,
        }
    }
}

} // verus!
