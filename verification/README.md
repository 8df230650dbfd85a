# sc-executor-wasmtime

The decision-making core of a WebAssembly executor that runs on the Wasmtime JIT, verified with Verus.

A guest is compiled, linked to the functions of its host, and called. The library decides what is to
be done next, what each outcome means, and what the caller gets: a runtime or the reason why there is
none, the output of a function or the reason why there is none. Generating native code, instantiating
a guest and running it is done by the embedder.

| Where | What |
| --- | --- |
| `src/creation.rs`, `src/creation_laws.rs` | how a runtime comes about, and what holds of every creation |
| `src/call.rs`, `src/call_laws.rs` | how a function is called, and what holds of every call |
| `src/repetition.rs` | why a call does not see what earlier calls have done |
| `src/runtime.rs` | the runtime: its heap, its host functions, what was missing when it was linked |
| `src/env_module.rs` | the module through which a guest reaches the functions of its host |
| `src/resolver.rs`, `src/wasmtime_missing_externals.rs` | where imports come from, and what replaces missing ones |
| `src/globals.rs` | the exports that all instances share |
| `src/heap_pages.rs`, `src/guest_memory.rs`, `src/value.rs` | sizes, bytes and values at the boundary |
| `src/module.rs` | what is trusted of `wasmtime_environ` and `cranelift_codegen` |
| `src/error.rs` | the errors |
| `app/` | the embedder: does what the library says, with Wasmtime |
