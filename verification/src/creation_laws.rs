//! What holds of every creation of a runtime.
use crate::creation::{
    answers, begin_creation, enter, exported_memory, memory_is_planned, next, CreationActionView,
    CreationEventView, CreationStage, CreationStepView, CreationView,
};
use crate::env_module::missing_compiler_support;
use crate::error::WasmErrorView;
use crate::heap_pages::{growth_limit, heap_pages_in_range, MemoryLimits};
use crate::module::{ModuleContents, ModuleExport};
use crate::resolver::{
    after_imports, missing_functions_are_the_replaced_ones, replaced, Import, ResolverView,
};
use crate::runtime::{after_update, RuntimeView};
use crate::value::HostFunctionView;
use vstd::prelude::*;

verus! {

/// All that a host reports in the course of one creation, stage by stage. A creation that ends
/// early makes use of the first reports alone.
pub struct CreationReports<H> {
    /// The compiler for the `env` module.
    pub env_compiler: Result<(), Seq<char>>,
    /// The instance of the `env` module.
    pub env_instance: Result<(), WasmErrorView<H>>,
    /// The compiler for the guest.
    pub compiler: Result<(), Seq<char>>,
    /// The guest, compiled and linked.
    pub compiled_unit: Result<(ModuleContents, ResolverView), Seq<char>>,
}

/// How many stages come before this one.
pub open spec fn stages_before(stage: CreationStage) -> nat {
    match stage {
        CreationStage::EnvCompiler => 0,
        CreationStage::EnvInstance => 1,
        CreationStage::Compiler => 2,
        CreationStage::CompiledUnit => 3,
    }
}

/// What follows on the report that the host gives at the stage of the creation.
pub open spec fn step<H>(
    creation: CreationView,
    reports: CreationReports<H>,
) -> CreationStepView<H> {
    match creation.stage {
        CreationStage::EnvCompiler => next(
            creation,
            CreationEventView::Compiler(reports.env_compiler),
        ),
        CreationStage::EnvInstance => next(
            creation,
            CreationEventView::EnvInstance(reports.env_instance),
        ),
        CreationStage::Compiler => next(creation, CreationEventView::Compiler(reports.compiler)),
        CreationStage::CompiledUnit => next(
            creation,
            CreationEventView::CompiledUnit(reports.compiled_unit),
        ),
    }
}

/// Every step leads to the next stage or to the end of the creation, and to nothing but the stage
/// changing.
pub proof fn step_goes_on<H>(creation: CreationView, reports: CreationReports<H>)
    ensures
        step(creation, reports) matches CreationStepView::Perform(followed, action) ==> {
            &&& stages_before(followed.stage) == stages_before(creation.stage) + 1
            &&& followed == (CreationView { stage: followed.stage, ..creation })
            &&& step(creation, reports) == enter::<H>(creation, followed.stage)
        },
{
}

/// What comes of a creation that has come to some stage.
pub open spec fn run<H>(creation: CreationView, reports: CreationReports<H>) -> Result<
    RuntimeView,
    WasmErrorView<H>,
>
    decreases 4 - stages_before(creation.stage),
{
    proof {
        step_goes_on(creation, reports);
    }
    match step(creation, reports) {
        CreationStepView::Perform(followed, _) => run(followed, reports),
        CreationStepView::Finished(result) => result,
    }
}

/// The first stage of a creation.
pub open spec fn start(
    code: Seq<u8>,
    heap_pages: u64,
    host_functions: Seq<HostFunctionView>,
    enable_stub: bool,
) -> CreationView {
    CreationView {
        code,
        heap_pages,
        host_functions,
        enable_stub,
        stage: CreationStage::EnvCompiler,
    }
}

/// What comes of a creation, from what was asked for and from what the host reports.
pub open spec fn creation_result<H>(
    heap_pages: u64,
    host_functions: Seq<HostFunctionView>,
    enable_stub: bool,
    reports: CreationReports<H>,
) -> Result<RuntimeView, WasmErrorView<H>> {
    if reports.env_compiler is Err {
        Err(missing_compiler_support(reports.env_compiler->Err_0))
    } else if reports.env_instance is Err {
        Err(reports.env_instance->Err_0)
    } else if reports.compiler is Err {
        Err(missing_compiler_support(reports.compiler->Err_0))
    } else if reports.compiled_unit is Err {
        Err(WasmErrorView::Other("boo: "@ + reports.compiled_unit->Err_0))
    } else {
        let (module, resolver) = reports.compiled_unit->Ok_0;
        match exported_memory(module) {
            None => Err(WasmErrorView::InvalidMemory),
            Some(limits) => if !heap_pages_in_range(heap_pages, growth_limit(limits)) {
                Err(WasmErrorView::InvalidHeapPages)
            } else {
                Ok(
                    RuntimeView {
                        max_heap_pages: growth_limit(limits),
                        heap_pages: heap_pages as u32,
                        host_functions,
                        enable_stub,
                        missing_functions: resolver.missing_functions,
                    },
                )
            },
        }
    }
}

/// What a creation comes to, whatever the host reports: the first report of a failure decides.
/// Without one, it is the memory that the guest exports, and the room that it has for the heap.
pub proof fn creation_comes_to_result<H>(
    code: Seq<u8>,
    heap_pages: u64,
    host_functions: Seq<HostFunctionView>,
    enable_stub: bool,
    reports: CreationReports<H>,
)
    ensures
        run(start(code, heap_pages, host_functions, enable_stub), reports) == creation_result(
            heap_pages,
            host_functions,
            enable_stub,
            reports,
        ),
{
    reveal_with_fuel(run, 5);
}

/// A runtime has the heap that was asked for, within the room that the memory of the guest has.
pub proof fn created_heap_fits<H>(
    code: Seq<u8>,
    heap_pages: u64,
    host_functions: Seq<HostFunctionView>,
    enable_stub: bool,
    reports: CreationReports<H>,
)
    ensures
        run(start(code, heap_pages, host_functions, enable_stub), reports) matches Ok(runtime)
            ==> runtime.heap_pages == heap_pages && runtime.heap_fits(),
{
    creation_comes_to_result(code, heap_pages, host_functions, enable_stub, reports);
}

/// A runtime lists the functions that were missing when the guest was linked: the imports from
/// `env` that the host did not have, in the order of their resolution. Without replacement the list
/// is empty.
pub proof fn missing_functions_are_listed<H>(
    code: Seq<u8>,
    heap_pages: u64,
    host_functions: Seq<HostFunctionView>,
    enable_stub: bool,
    reports: CreationReports<H>,
    imports: Seq<Import>,
)
    requires
        reports.compiled_unit matches Ok((_, resolver)) ==> resolver == after_imports(
            ResolverView { enable_stub, missing_functions: seq![] },
            imports,
        ),
    ensures
        run(start(code, heap_pages, host_functions, enable_stub), reports) matches Ok(runtime) ==> {
            &&& runtime.missing_functions == replaced(imports, enable_stub)
            &&& !enable_stub ==> runtime.missing_functions.len() == 0
        },
{
    creation_comes_to_result(code, heap_pages, host_functions, enable_stub, reports);
    missing_functions_are_the_replaced_ones(enable_stub, imports);
}

/// How many things the host may still be told.
pub open spec fn remaining<H>(step: CreationStepView<H>) -> nat {
    match step {
        CreationStepView::Perform(creation, _) => (4 - stages_before(creation.stage)) as nat,
        CreationStepView::Finished(_) => 0,
    }
}

/// All that the host is told from a step on, in order.
pub open spec fn told<H>(from: CreationStepView<H>, reports: CreationReports<H>) -> Seq<
    CreationActionView,
>
    decreases remaining(from),
{
    match from {
        CreationStepView::Perform(creation, action) => {
            proof {
                step_goes_on(creation, reports);
            }
            seq![action] + told(step(creation, reports), reports)
        },
        CreationStepView::Finished(_) => seq![],
    }
}

/// What a creation comes to from a step on.
pub open spec fn comes_to<H>(from: CreationStepView<H>, reports: CreationReports<H>) -> Result<
    RuntimeView,
    WasmErrorView<H>,
> {
    match from {
        CreationStepView::Perform(creation, _) => run(creation, reports),
        CreationStepView::Finished(result) => result,
    }
}

/// What the host is told in a creation, thing by thing, as far as the creation gets: one thing more
/// for each report that is a success. The code that it is told to compile is all of the code that
/// was given, and the resolver that it is told to link by has not met any missing function.
pub proof fn host_is_told_in_this_order<H>(
    code: Seq<u8>,
    heap_pages: u64,
    host_functions: Seq<HostFunctionView>,
    enable_stub: bool,
    reports: CreationReports<H>,
)
    ensures
        ({
            let told = told(
                begin_creation::<H>(code, heap_pages, host_functions, enable_stub),
                reports,
            );
            &&& 1 <= told.len() <= 4
            &&& told.len() > 1 <==> reports.env_compiler is Ok
            &&& told.len() > 2 <==> told.len() > 1 && reports.env_instance is Ok
            &&& told.len() > 3 <==> told.len() > 2 && reports.compiler is Ok
            &&& told[0] == CreationActionView::NewCompiler
            &&& told.len() > 1 ==> told[1] == CreationActionView::InstantiateEnvModule
            &&& told.len() > 2 ==> told[2] == CreationActionView::NewCompiler
            &&& told.len() > 3 ==> (told[3] matches CreationActionView::CreateCompiledUnit(
                compiled,
                resolver,
            ) && {
                &&& compiled.len() == code.len()
                &&& forall|i: int| 0 <= i < code.len() ==> #[trigger] compiled[i] == code[i]
                &&& resolver.enable_stub == enable_stub
                &&& resolver.missing_functions.len() == 0
            })
        }),
{
    reveal_with_fuel(told, 6);
}

/// What comes of a creation that fails before the guest is compiled and linked: an error that says
/// what has failed, with the whole of the reason that the host gave.
pub proof fn failure_is_what_creation_comes_to<H>(
    code: Seq<u8>,
    heap_pages: u64,
    host_functions: Seq<HostFunctionView>,
    enable_stub: bool,
    reports: CreationReports<H>,
)
    ensures
        ({
            let begun = begin_creation::<H>(code, heap_pages, host_functions, enable_stub);
            let told = told(begun, reports).len();
            let result = comes_to(begun, reports);
            &&& told < 4 ==> result is Err
            &&& told == 1 ==> result->Err_0 == WasmErrorView::<H>::Other(
                "missing compiler support: "@ + reports.env_compiler->Err_0,
            )
            &&& told == 2 ==> result->Err_0 == reports.env_instance->Err_0
            &&& told == 3 ==> result->Err_0 == WasmErrorView::<H>::Other(
                "missing compiler support: "@ + reports.compiler->Err_0,
            )
            &&& told == 4 && reports.compiled_unit is Err ==> result is Err && result->Err_0
                == WasmErrorView::<H>::Other("boo: "@ + reports.compiled_unit->Err_0)
        }),
{
    host_is_told_in_this_order(code, heap_pages, host_functions, enable_stub, reports);
    creation_comes_to_result(code, heap_pages, host_functions, enable_stub, reports);
}

/// What comes of a guest that was compiled and linked. One that exports no memory is refused. One
/// that exports a memory becomes a runtime if and only if the heap fits: from the smallest size of
/// the memory on, the heap pages do not exceed the largest one. The runtime has just what was asked
/// for, and lists what the resolver noted.
pub proof fn runtime_is_what_was_asked_for<H>(
    code: Seq<u8>,
    heap_pages: u64,
    host_functions: Seq<HostFunctionView>,
    enable_stub: bool,
    reports: CreationReports<H>,
    module: ModuleContents,
    resolver: ResolverView,
)
    requires
        reports.env_compiler is Ok,
        reports.env_instance is Ok,
        reports.compiler is Ok,
        reports.compiled_unit == Ok::<(ModuleContents, ResolverView), Seq<char>>(
            (module, resolver),
        ),
    ensures
        ({
            let result = comes_to(
                begin_creation::<H>(code, heap_pages, host_functions, enable_stub),
                reports,
            );
            &&& !module.exports.contains_key("memory"@) ==> result is Err && result->Err_0
                is InvalidMemory
            &&& module.exports.contains_key("memory"@) && !(module.exports["memory"@] is Memory)
                ==> result is Err && result->Err_0 is InvalidMemory
            &&& module.exports.contains_key("memory"@) ==> (module.exports["memory"@] matches
                ModuleExport::Memory(index) ==> {
                let minimum = module.memories[index as int].minimum;
                let maximum = module.memories[index as int].maximum;
                &&& result is Ok <==> heap_pages <= u32::MAX && (maximum matches Some(maximum)
                    ==> heap_pages == 0 || minimum + heap_pages <= maximum)
                &&& result matches Err(error) ==> error is InvalidHeapPages
                &&& result matches Ok(runtime) ==> {
                    &&& runtime.heap_pages == heap_pages
                    &&& runtime.host_functions == host_functions
                    &&& runtime.enable_stub == enable_stub
                    &&& runtime.missing_functions == resolver.missing_functions
                }
            })
        }),
{
    creation_comes_to_result(code, heap_pages, host_functions, enable_stub, reports);
}

/// What a runtime is after these numbers of heap pages were asked for, one after the other.
pub open spec fn after_updates(runtime: RuntimeView, updates: Seq<u64>) -> RuntimeView
    decreases updates.len(),
{
    if updates.len() == 0 {
        runtime
    } else {
        after_update(after_updates(runtime, updates.drop_last()), updates.last()).1
    }
}

/// Updates change nothing but the number of heap pages.
proof fn updates_keep_the_rest(runtime: RuntimeView, updates: Seq<u64>)
    ensures
        after_updates(runtime, updates) == (RuntimeView {
            heap_pages: after_updates(runtime, updates).heap_pages,
            ..runtime
        }),
        runtime.heap_fits() ==> after_updates(runtime, updates).heap_fits(),
    decreases updates.len(),
{
    if updates.len() > 0 {
        updates_keep_the_rest(runtime, updates.drop_last());
    }
}

/// The heap of a runtime fits into the memory of the guest at all times, by the smallest and the
/// largest size that the guest declares: when the runtime was created and after any updates. An
/// update to a number of pages that fits is accepted, and the heap then has that number; any other
/// one is refused, and the runtime stays what it is.
pub proof fn heap_stays_within_memory<H>(
    code: Seq<u8>,
    heap_pages: u64,
    host_functions: Seq<HostFunctionView>,
    enable_stub: bool,
    reports: CreationReports<H>,
    limits: MemoryLimits,
    updates: Seq<u64>,
    update: u64,
)
    requires
        reports.compiled_unit matches Ok((module, _)) ==> {
            &&& module.exports.contains_key("memory"@)
            &&& module.exports["memory"@] matches ModuleExport::Memory(index)
                && module.memories[index as int] == limits
        },
    ensures
        comes_to(
            begin_creation::<H>(code, heap_pages, host_functions, enable_stub),
            reports,
        ) matches Ok(created) ==> {
            let runtime = after_updates(created, updates);
            let (accepted, updated) = after_update(runtime, update);
            &&& limits.maximum matches Some(maximum) ==> runtime.heap_pages == 0 || limits.minimum
                + runtime.heap_pages <= maximum
            &&& accepted <==> update <= u32::MAX && (limits.maximum matches Some(maximum) ==> update
                == 0 || limits.minimum + update <= maximum)
            &&& accepted ==> updated.heap_pages == update
            &&& !accepted ==> updated == runtime
            &&& updated.max_heap_pages == created.max_heap_pages
            &&& updated.host_functions == host_functions
            &&& updated.enable_stub == enable_stub
            &&& updated.missing_functions == created.missing_functions
        },
{
    creation_comes_to_result(code, heap_pages, host_functions, enable_stub, reports);
    let result = comes_to(
        begin_creation::<H>(code, heap_pages, host_functions, enable_stub),
        reports,
    );
    if let Ok(created) = result {
        updates_keep_the_rest(created, updates);
    }
}

/// Whatever a host reports on what it was told to do is taken, as long as a memory that the guest
/// exports under the name `memory` is one that it holds.
pub proof fn every_report_is_taken<H>(reports: CreationReports<H>)
    ensures
        answers(CreationStage::EnvCompiler, CreationEventView::<H>::Compiler(reports.env_compiler)),
        answers(CreationStage::EnvInstance, CreationEventView::EnvInstance(reports.env_instance)),
        answers(CreationStage::Compiler, CreationEventView::<H>::Compiler(reports.compiler)),
        reports.compiled_unit is Err ==> answers(
            CreationStage::CompiledUnit,
            CreationEventView::<H>::CompiledUnit(reports.compiled_unit),
        ),
        reports.compiled_unit matches Ok((module, _)) ==> {
            &&& answers(
                CreationStage::CompiledUnit,
                CreationEventView::<H>::CompiledUnit(reports.compiled_unit),
            ) <==> memory_is_planned(module)
            &&& !module.exports.contains_key("memory"@) ==> memory_is_planned(module)
            &&& module.exports.contains_key("memory"@) ==> match module.exports["memory"@] {
                ModuleExport::Memory(index) => memory_is_planned(module) <==> index
                    < module.memories.len() && index < u32::MAX,
                _ => memory_is_planned(module),
            }
        },
{
}

} // verus!
