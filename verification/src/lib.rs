//! The decision-making core of a WebAssembly executor that runs on the Wasmtime JIT.
//!
//! A runtime is created from code and from the functions of its host ([`create_instance`]), and its
//! functions are called ([`WasmtimeRuntime::call`](call)). What touches the machine, that is
//! generating native code, instantiating a guest and running it, is up to the embedder. What is
//! decided in between stands here: what is to be done next, what a report means, and what the
//! caller gets in the end.

pub mod call;
pub mod call_laws;
pub mod creation;
pub mod creation_laws;
pub mod env_laws;
pub mod env_module;
pub mod error;
pub mod globals;
pub mod guest_memory;
pub mod heap_pages;
pub mod module;
pub mod repetition;
pub mod resolver;
pub mod runtime;
pub mod value;
pub mod view_laws;
pub mod wasmtime_missing_externals;

pub use crate::creation::create_instance;
pub use crate::runtime::WasmtimeRuntime;
