//! The runtime: a guest that is ready to be called.
use crate::heap_pages::{heap_pages_in_range, heap_pages_valid};
use crate::value::{HostFunction, HostFunctionView};
use vstd::prelude::*;

verus! {

/// A guest that is compiled to native code and linked to its host.
#[derive(Debug)]
pub struct WasmtimeRuntime {
    max_heap_pages: Option<u32>,
    heap_pages: u32,
    /// The host functions registered for this instance.
    host_functions: Vec<HostFunction>,
    /// Enable STUB for function called that are missing
    enable_stub: bool,
    /// List of missing functions detected during function resolution
    missing_functions: Vec<String>,
}

/// The mathematical counterpart of [`WasmtimeRuntime`].
pub struct RuntimeView {
    /// The number of pages by which the memory of the guest can grow, if there is a limit.
    pub max_heap_pages: Option<u32>,
    /// The number of pages by which the memory of the guest grows before each call.
    pub heap_pages: u32,
    /// The functions of the host.
    pub host_functions: Seq<HostFunctionView>,
    /// Whether functions that the host lacks are replaced.
    pub enable_stub: bool,
    /// The names of the functions that were replaced.
    pub missing_functions: Seq<Seq<char>>,
}

impl RuntimeView {
    /// The heap is within the limit of the guest's memory.
    pub open spec fn heap_fits(self) -> bool {
        heap_pages_in_range(self.heap_pages as u64, self.max_heap_pages)
    }
}

/// Whether a runtime takes another number of heap pages, and what it is then.
pub open spec fn after_update(runtime: RuntimeView, heap_pages: u64) -> (bool, RuntimeView) {
    if heap_pages_in_range(heap_pages, runtime.max_heap_pages) {
        (true, RuntimeView { heap_pages: heap_pages as u32, ..runtime })
    } else {
        (false, runtime)
    }
}

impl View for WasmtimeRuntime {
    type V = RuntimeView;

    closed spec fn view(&self) -> RuntimeView {
        RuntimeView {
            max_heap_pages: self.max_heap_pages,
            heap_pages: self.heap_pages,
            host_functions: self.host_functions.deep_view(),
            enable_stub: self.enable_stub,
            missing_functions: self.missing_functions@.map_values(|name: String| name@),
        }
    }
}

impl WasmtimeRuntime {
    #[verifier::type_invariant]
    spec fn well_formed(self) -> bool {
        heap_pages_in_range(self.heap_pages as u64, self.max_heap_pages)
    }

    /// Assembles a runtime. The heap has to fit into the memory.
    pub(crate) fn assemble(
        max_heap_pages: Option<u32>,
        heap_pages: u32,
        host_functions: Vec<HostFunction>,
        enable_stub: bool,
        missing_functions: Vec<String>,
    ) -> (runtime: WasmtimeRuntime)
        requires
            heap_pages_in_range(heap_pages as u64, max_heap_pages),
        ensures
            runtime@ == (RuntimeView {
                max_heap_pages,
                heap_pages,
                host_functions: host_functions.deep_view(),
                enable_stub,
                missing_functions: missing_functions@.map_values(|name: String| name@),
            }),
    {
        WasmtimeRuntime {
            max_heap_pages,
            heap_pages,
            host_functions,
            enable_stub,
            missing_functions,
        }
    }

    /// Changes the number of pages of the heap. Returns whether the number is allowed; if it is
    /// not, nothing changes.
    pub fn update_heap_pages(&mut self, heap_pages: u64) -> (updated: bool)
        ensures
            updated == heap_pages_in_range(heap_pages, old(self)@.max_heap_pages),
            final(self)@ == (if updated {
                RuntimeView { heap_pages: heap_pages as u32, ..old(self)@ }
            } else {
                old(self)@
            }),
            final(self)@.heap_fits(),
            (updated, final(self)@) == after_update(old(self)@, heap_pages),
    {
        proof {
            use_type_invariant(&*self);
        }
        match heap_pages_valid(heap_pages, self.max_heap_pages) {
            Some(heap_pages) => {
                self.heap_pages = heap_pages;
                true
            },
            None => false,
        }
    }

    /// The functions of the host.
    pub fn host_functions(&self) -> (host_functions: &Vec<HostFunction>)
        ensures
            host_functions.deep_view() == self@.host_functions,
    {
        &self.host_functions
    }

    /// The number of pages by which the memory of the guest grows before each call.
    pub fn heap_pages(&self) -> (heap_pages: u32)
        ensures
            heap_pages == self@.heap_pages,
            self@.heap_fits(),
    {
        proof {
            use_type_invariant(self);
        }
        self.heap_pages
    }

    /// Whether functions that the host lacks are replaced.
    pub fn enable_stub(&self) -> (enable_stub: bool)
        ensures
            enable_stub == self@.enable_stub,
    {
        self.enable_stub
    }

    /// The names of the functions that were replaced when the guest was linked.
    pub fn missing_functions(&self) -> (missing_functions: &Vec<String>)
        ensures
            missing_functions@.map_values(|name: String| name@) == self@.missing_functions,
    {
        &self.missing_functions
    }
}

} // verus!
