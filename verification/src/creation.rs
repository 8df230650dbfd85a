//! How a runtime comes about.
//!
//! The host compiles and links; [`CreateInstance`] tells it what to do next and makes of its
//! reports what the caller gets: a runtime, or the reason why there is none.
use crate::env_module::{missing_compiler_support, target_error};
use crate::error::{prefixed, WasmError, WasmErrorView};
use crate::heap_pages::{growth_limit, heap_pages_in_range, heap_pages_valid, MemoryLimits};
use crate::module::{get_export, get_memory_plan, module_contents, ModuleContents, ModuleExport};
use crate::resolver::{ResolverView, RuntimeInterfaceResolver};
use crate::runtime::{RuntimeView, WasmtimeRuntime};
use crate::value::{HostFunction, HostFunctionView};
use vstd::prelude::*;
use wasmtime_environ::Module;

verus! {

/// How far the creation of a runtime has come.
#[derive(Debug, Clone, Copy, PartialEq, Eq, Structural)]
pub enum CreationStage {
    /// A compiler for the `env` module is needed.
    EnvCompiler,
    /// The `env` module is to be instantiated.
    EnvInstance,
    /// A compiler for the guest is needed.
    Compiler,
    /// The guest is to be compiled.
    CompiledUnit,
}

/// The creation of a runtime.
#[derive(Debug)]
pub struct CreateInstance<'c> {
    code: &'c [u8],
    heap_pages: u64,
    host_functions: Vec<HostFunction>,
    enable_stub: bool,
    stage: CreationStage,
}

/// The mathematical counterpart of [`CreateInstance`].
#[verifier::ext_equal]
pub struct CreationView {
    /// The code of the guest.
    pub code: Seq<u8>,
    /// The number of heap pages that were asked for.
    pub heap_pages: u64,
    /// The functions of the host.
    pub host_functions: Seq<HostFunctionView>,
    /// Whether functions that the host lacks are replaced.
    pub enable_stub: bool,
    /// How far the creation has come.
    pub stage: CreationStage,
}

impl<'c> View for CreateInstance<'c> {
    type V = CreationView;

    closed spec fn view(&self) -> CreationView {
        CreationView {
            code: self.code@,
            heap_pages: self.heap_pages,
            host_functions: self.host_functions.deep_view(),
            enable_stub: self.enable_stub,
            stage: self.stage,
        }
    }
}

/// What the host has to do for the creation to go on.
#[derive(Debug)]
pub enum CreationAction<'c> {
    /// Create a compiler for the machine that the host runs on.
    NewCompiler,
    /// Instantiate the `env` module.
    InstantiateEnvModule,
    /// Compile this code, and link it by what this resolver says.
    CreateCompiledUnit(&'c [u8], RuntimeInterfaceResolver),
}

/// The mathematical counterpart of [`CreationAction`].
pub enum CreationActionView {
    NewCompiler,
    InstantiateEnvModule,
    CreateCompiledUnit(Seq<u8>, ResolverView),
}

impl<'c> View for CreationAction<'c> {
    type V = CreationActionView;

    open spec fn view(&self) -> CreationActionView {
        match *self {
            CreationAction::NewCompiler => CreationActionView::NewCompiler,
            CreationAction::InstantiateEnvModule => CreationActionView::InstantiateEnvModule,
            CreationAction::CreateCompiledUnit(code, resolver) =>
                CreationActionView::CreateCompiledUnit(code@, resolver@),
        }
    }
}

/// What the host reports when it has done what it was told.
pub enum CreationEvent<'m, H> {
    /// A compiler was created, or the machine is not supported.
    Compiler(Result<(), String>),
    /// The `env` module was instantiated, or not.
    EnvInstance(Result<(), WasmError<H>>),
    /// The guest was compiled and linked by a resolver, or not.
    CompiledUnit(Result<(&'m Module, RuntimeInterfaceResolver), String>),
}

/// The mathematical counterpart of [`CreationEvent`].
pub enum CreationEventView<H> {
    Compiler(Result<(), Seq<char>>),
    EnvInstance(Result<(), WasmErrorView<H>>),
    CompiledUnit(Result<(ModuleContents, ResolverView), Seq<char>>),
}

impl<'m, H> View for CreationEvent<'m, H> {
    type V = CreationEventView<H>;

    open spec fn view(&self) -> CreationEventView<H> {
        match *self {
            CreationEvent::Compiler(Ok(())) => CreationEventView::Compiler(Ok(())),
            CreationEvent::Compiler(Err(reason)) => CreationEventView::Compiler(Err(reason@)),
            CreationEvent::EnvInstance(Ok(())) => CreationEventView::EnvInstance(Ok(())),
            CreationEvent::EnvInstance(Err(error)) => CreationEventView::EnvInstance(Err(error@)),
            CreationEvent::CompiledUnit(Ok((module, resolver))) => CreationEventView::CompiledUnit(
                Ok((module_contents(*module), resolver@)),
            ),
            CreationEvent::CompiledUnit(Err(reason)) => CreationEventView::CompiledUnit(
                Err(reason@),
            ),
        }
    }
}

/// What follows on a report of the host.
pub enum CreationStep<'c, H> {
    /// The host has to do something.
    Perform(CreateInstance<'c>, CreationAction<'c>),
    /// The creation has ended.
    Finished(Result<WasmtimeRuntime, WasmError<H>>),
}

/// The mathematical counterpart of [`CreationStep`].
pub enum CreationStepView<H> {
    Perform(CreationView, CreationActionView),
    Finished(Result<RuntimeView, WasmErrorView<H>>),
}

impl<'c, H> View for CreationStep<'c, H> {
    type V = CreationStepView<H>;

    open spec fn view(&self) -> CreationStepView<H> {
        match *self {
            CreationStep::Perform(creation, action) => CreationStepView::Perform(
                creation@,
                action@,
            ),
            CreationStep::Finished(Ok(runtime)) => CreationStepView::Finished(Ok(runtime@)),
            CreationStep::Finished(Err(error)) => CreationStepView::Finished(Err(error@)),
        }
    }
}

/// The limits of the memory that a module exports under the name `memory`, if it does.
pub open spec fn exported_memory(module: ModuleContents) -> Option<MemoryLimits> {
    if module.exports.contains_key("memory"@) {
        match module.exports["memory"@] {
            ModuleExport::Memory(index) => Some(module.memories[index as int]),
            _ => None,
        }
    } else {
        None
    }
}

/// A memory that the module exports under the name `memory` is one that it holds.
pub open spec fn memory_is_planned(module: ModuleContents) -> bool {
    module.exports.contains_key("memory"@) ==> (module.exports["memory"@] matches
        ModuleExport::Memory(index) ==> index < module.memories.len() && index < u32::MAX)
}

/// What comes of a guest that was compiled and linked.
pub open spec fn runtime_of<H>(
    creation: CreationView,
    module: ModuleContents,
    missing_functions: Seq<Seq<char>>,
) -> Result<RuntimeView, WasmErrorView<H>> {
    match exported_memory(module) {
        None => Err(WasmErrorView::InvalidMemory),
        Some(limits) => if heap_pages_in_range(creation.heap_pages, growth_limit(limits)) {
            Ok(
                RuntimeView {
                    max_heap_pages: growth_limit(limits),
                    heap_pages: creation.heap_pages as u32,
                    host_functions: creation.host_functions,
                    enable_stub: creation.enable_stub,
                    missing_functions,
                },
            )
        } else {
            Err(WasmErrorView::InvalidHeapPages)
        },
    }
}

/// What the host is told at the outset of a stage.
pub open spec fn enter<H>(creation: CreationView, stage: CreationStage) -> CreationStepView<H> {
    CreationStepView::Perform(
        CreationView { stage, ..creation },
        match stage {
            CreationStage::EnvCompiler => CreationActionView::NewCompiler,
            CreationStage::EnvInstance => CreationActionView::InstantiateEnvModule,
            CreationStage::Compiler => CreationActionView::NewCompiler,
            CreationStage::CompiledUnit => CreationActionView::CreateCompiledUnit(
                creation.code,
                ResolverView { enable_stub: creation.enable_stub, missing_functions: seq![] },
            ),
        },
    )
}

/// Whether `event` is a report on what the host was told to do.
pub open spec fn answers<H>(stage: CreationStage, event: CreationEventView<H>) -> bool {
    match (stage, event) {
        (CreationStage::EnvCompiler, CreationEventView::Compiler(_)) => true,
        (CreationStage::EnvInstance, CreationEventView::EnvInstance(_)) => true,
        (CreationStage::Compiler, CreationEventView::Compiler(_)) => true,
        (CreationStage::CompiledUnit, CreationEventView::CompiledUnit(Ok((module, _)))) =>
            memory_is_planned(module),
        (CreationStage::CompiledUnit, CreationEventView::CompiledUnit(Err(_))) => true,
        _ => false,
    }
}

/// What follows on a report of the host.
pub open spec fn next<H>(creation: CreationView, event: CreationEventView<H>) -> CreationStepView<
    H,
> {
    match event {
        CreationEventView::Compiler(Ok(())) => enter(
            creation,
            if creation.stage is EnvCompiler {
                CreationStage::EnvInstance
            } else {
                CreationStage::CompiledUnit
            },
        ),
        CreationEventView::Compiler(Err(reason)) => CreationStepView::Finished(
            Err(missing_compiler_support(reason)),
        ),
        CreationEventView::EnvInstance(Ok(())) => enter(creation, CreationStage::Compiler),
        CreationEventView::EnvInstance(Err(error)) => CreationStepView::Finished(Err(error)),
        CreationEventView::CompiledUnit(Ok((module, resolver))) => CreationStepView::Finished(
            runtime_of(creation, module, resolver.missing_functions),
        ),
        CreationEventView::CompiledUnit(Err(reason)) => CreationStepView::Finished(
            Err(WasmErrorView::Other("boo: "@ + reason)),
        ),
    }
}

/// The beginning of the creation of a runtime.
pub open spec fn begin_creation<H>(
    code: Seq<u8>,
    heap_pages: u64,
    host_functions: Seq<HostFunctionView>,
    enable_stub: bool,
) -> CreationStepView<H> {
    enter(
        CreationView {
            code,
            heap_pages,
            host_functions,
            enable_stub,
            stage: CreationStage::EnvCompiler,
        },
        CreationStage::EnvCompiler,
    )
}

/// Begins to create a runtime of a guest with the given code, with `heap_pages` pages for its heap
/// and the given functions of the host. With `enable_stub`, functions that the guest imports but
/// the host lacks are replaced by one that does nothing.
pub fn create_instance<'c, H>(
    code: &'c [u8],
    heap_pages: u64,
    host_functions: Vec<HostFunction>,
    enable_stub: bool,
) -> (step: CreationStep<'c, H>)
    ensures
        step@ == enter::<H>(
            CreationView {
                code: code@,
                heap_pages,
                host_functions: host_functions.deep_view(),
                enable_stub,
                stage: CreationStage::EnvCompiler,
            },
            CreationStage::EnvCompiler,
        ),
        step@ == begin_creation::<H>(code@, heap_pages, host_functions.deep_view(), enable_stub),
{
    CreationStep::Perform(
        CreateInstance {
            code,
            heap_pages,
            host_functions,
            enable_stub,
            stage: CreationStage::EnvCompiler,
        },
        CreationAction::NewCompiler,
    )
}

/// Tells whether a memory that the module exports under the name `memory` is one that it holds. A
/// guest can become a runtime only if it is.
pub fn exported_memory_is_planned(module: &Module) -> (planned: bool)
    ensures
        planned == memory_is_planned(module_contents(*module)),
{
    match get_export(module, "memory") {
        Some(ModuleExport::Memory(index)) => index < u32::MAX && get_memory_plan(
            module,
            index,
        ).is_some(),
        _ => true,
    }
}

/// The limits of the memory that a module exports under the name `memory`, if it does.
fn find_exported_memory(module: &Module) -> (limits: Option<MemoryLimits>)
    requires
        memory_is_planned(module_contents(*module)),
    ensures
        limits == exported_memory(module_contents(*module)),
{
    match get_export(module, "memory") {
        Some(ModuleExport::Memory(index)) => get_memory_plan(module, index),
        _ => None,
    }
}

impl<'c> CreateInstance<'c> {
    /// The functions of the host.
    pub fn host_functions(&self) -> (host_functions: &Vec<HostFunction>)
        ensures
            host_functions.deep_view() == self@.host_functions,
    {
        &self.host_functions
    }

    /// Goes on with the creation after a report of the host.
    pub fn advance<'m, H>(self, event: CreationEvent<'m, H>) -> (step: CreationStep<'c, H>)
        requires
            answers(self@.stage, event@),
        ensures
            step@ == next(self@, event@),
    {
        match event {
            CreationEvent::Compiler(Ok(())) => match self.stage {
                CreationStage::EnvCompiler => CreationStep::Perform(
                    CreateInstance { stage: CreationStage::EnvInstance, ..self },
                    CreationAction::InstantiateEnvModule,
                ),
                _ => {
                    let code = self.code;
                    let resolver = RuntimeInterfaceResolver::new(self.enable_stub);
                    CreationStep::Perform(
                        CreateInstance { stage: CreationStage::CompiledUnit, ..self },
                        CreationAction::CreateCompiledUnit(code, resolver),
                    )
                },
            },
            CreationEvent::Compiler(Err(reason)) => CreationStep::Finished(
                Err(target_error(reason)),
            ),
            CreationEvent::EnvInstance(Ok(())) => CreationStep::Perform(
                CreateInstance { stage: CreationStage::Compiler, ..self },
                CreationAction::NewCompiler,
            ),
            CreationEvent::EnvInstance(Err(error)) => CreationStep::Finished(Err(error)),
            CreationEvent::CompiledUnit(Ok((module, resolver))) => CreationStep::Finished(
                self.finish(module, resolver),
            ),
            CreationEvent::CompiledUnit(Err(reason)) => CreationStep::Finished(
                Err(WasmError::Other(prefixed("boo: ", reason.as_str()))),
            ),
        }
    }

    /// Makes a runtime of a guest that was compiled, and linked by `resolver`.
    fn finish<H>(self, module: &Module, resolver: RuntimeInterfaceResolver) -> (runtime: Result<
        WasmtimeRuntime,
        WasmError<H>,
    >)
        requires
            memory_is_planned(module_contents(*module)),
        ensures
            CreationStep::Finished(runtime)@ == CreationStepView::Finished(
                runtime_of::<H>(self@, module_contents(*module), resolver@.missing_functions),
            ),
    {
        // Inspect the module for the min and max memory sizes.
        let limits = match find_exported_memory(module) {
            Some(limits) => limits,
            None => return Err(WasmError::InvalidMemory),
        };
        // Check that heap_pages is within the allowed range.
        let max_heap_pages = limits.max_heap_pages();
        match heap_pages_valid(self.heap_pages, max_heap_pages) {
            Some(heap_pages) => Ok(
                WasmtimeRuntime::assemble(
                    max_heap_pages,
                    heap_pages,
                    self.host_functions,
                    self.enable_stub,
                    resolver.into_missing_functions(),
                ),
            ),
            None => Err(WasmError::InvalidHeapPages),
        }
    }
}

} // verus!
