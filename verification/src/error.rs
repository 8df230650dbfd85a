//! The errors of the executor.
use vstd::prelude::*;
use vstd::string::StringExecFns;

verus! {

/// Why a call into the guest failed.
///
/// `H` is the type of the errors that the host raises on its own account: a host function that
/// failed, an allocator that ran out of space. The executor hands them on untouched.
#[derive(Debug)]
pub enum Error<H> {
    /// The called function did not return one 64-bit integer.
    InvalidReturn,
    /// The instance does not export a linear memory named `memory`.
    InvalidMemoryReference,
    /// The instance does not export a global of type `i32` named `__heap_base`.
    HeapBaseNotFoundOrInvalid,
    /// Some other error occurred.
    Other(String),
    /// An error raised by the host.
    Host(H),
}

/// The mathematical counterpart of [`Error`].
pub enum ErrorView<H> {
    InvalidReturn,
    InvalidMemoryReference,
    HeapBaseNotFoundOrInvalid,
    Other(Seq<char>),
    Host(H),
}

impl<H> View for Error<H> {
    type V = ErrorView<H>;

    open spec fn view(&self) -> ErrorView<H> {
        match *self {
            Error::InvalidReturn => ErrorView::InvalidReturn,
            Error::InvalidMemoryReference => ErrorView::InvalidMemoryReference,
            Error::HeapBaseNotFoundOrInvalid => ErrorView::HeapBaseNotFoundOrInvalid,
            Error::Other(message) => ErrorView::Other(message@),
            Error::Host(error) => ErrorView::Host(error),
        }
    }
}

/// Why a runtime could not be created.
///
/// `H` is the type of the errors that the host raises while it generates the trampolines of its
/// functions.
#[derive(Debug)]
pub enum WasmError<H> {
    /// The module does not export a linear memory named `memory`.
    InvalidMemory,
    /// The number of heap pages requested is disallowed by the module.
    InvalidHeapPages,
    /// Some other error occurred.
    Other(String),
    /// An error raised by the host.
    Host(H),
}

/// The mathematical counterpart of [`WasmError`].
pub enum WasmErrorView<H> {
    InvalidMemory,
    InvalidHeapPages,
    Other(Seq<char>),
    Host(H),
}

impl<H> View for WasmError<H> {
    type V = WasmErrorView<H>;

    open spec fn view(&self) -> WasmErrorView<H> {
        match *self {
            WasmError::InvalidMemory => WasmErrorView::InvalidMemory,
            WasmError::InvalidHeapPages => WasmErrorView::InvalidHeapPages,
            WasmError::Other(message) => WasmErrorView::Other(message@),
            WasmError::Host(error) => WasmErrorView::Host(error),
        }
    }
}

/// `prefix` followed by `message`.
pub(crate) fn prefixed(prefix: &str, message: &str) -> (text: String)
    ensures
        text@ == prefix@ + message@,
{
    prefix.to_owned().concat(message)
}

} // verus!
