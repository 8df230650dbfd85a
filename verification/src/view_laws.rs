//! The mathematical counterparts of what goes between the library and its host say all of it.
use crate::call::{
    ActionOutcome, ActionOutcomeView, CallAction, CallActionView, CallEvent, CallEventView,
    CallMethod, CallStep, CallStepView, EnvReset, ExecutorLookup, InstanceExport,
};
use crate::creation::{
    CreateInstance, CreationAction, CreationActionView, CreationEvent, CreationEventView,
    CreationStep, CreationStepView,
};
use crate::error::{Error, ErrorView, WasmError, WasmErrorView};
use crate::module::{
    module_contents, module_exports, module_functions, module_memories, module_signatures,
    signature_call_conv, signature_contents, signature_params, signature_returns,
};
use crate::resolver::RuntimeInterfaceResolver;
use crate::runtime::WasmtimeRuntime;
use crate::value::RuntimeValue;
use cranelift_codegen::ir;
use vstd::prelude::*;
use wasmtime_environ::Module;

verus! {

/// What the host is told to do in a call is told as it is.
pub proof fn call_actions_are_told_whole<'a>(
    name: &'static str,
    number: u32,
    heap_base: Option<u32>,
    method: &'a str,
    args: [RuntimeValue; 2],
)
    ensures
        CallAction::ClearGlobals@ is ClearGlobals,
        CallAction::Instantiate@ is Instantiate,
        CallAction::LookUp(name)@ == CallActionView::LookUp(name@),
        CallAction::GrowMemory(number)@ == CallActionView::GrowMemory(number),
        CallAction::ResetEnvState(heap_base)@ == CallActionView::ResetEnvState(heap_base),
        CallAction::FindExecutor@ is FindExecutor,
        CallAction::Allocate(number)@ == CallActionView::Allocate(number),
        CallAction::Invoke(method, args)@ == CallActionView::Invoke(method@, args@),
        CallAction::ReadMemory@ is ReadMemory,
{
}

/// What the host reports in a call is taken as it is.
pub proof fn call_events_are_taken_whole<H>(
    reason: String,
    export: Option<InstanceExport>,
    grown: Option<u32>,
    reset: EnvReset<H>,
    executor: ExecutorLookup,
    values: Vec<RuntimeValue>,
)
    ensures
        CallEvent::<H>::GlobalsCleared@ is GlobalsCleared,
        CallEvent::<H>::Instantiated(Ok(()))@ == CallEventView::<H>::Instantiated(Ok(())),
        CallEvent::<H>::Instantiated(Err(reason))@ == CallEventView::<H>::Instantiated(
            Err(reason@),
        ),
        CallEvent::<H>::Export(export)@ == CallEventView::<H>::Export(export),
        CallEvent::<H>::MemoryGrown(grown)@ == CallEventView::<H>::MemoryGrown(grown),
        CallEvent::EnvStateReset(reset)@ == CallEventView::EnvStateReset(reset),
        CallEvent::<H>::Executor(executor)@ == CallEventView::<H>::Executor(executor),
        CallEvent::<H>::Invoked(Err(reason))@ == CallEventView::<H>::Invoked(Err(reason@)),
        CallEvent::<H>::Invoked(Ok(ActionOutcome::Returned(values)))@ == CallEventView::<
            H,
        >::Invoked(Ok(ActionOutcomeView::Returned(values@))),
        CallEvent::<H>::Invoked(Ok(ActionOutcome::Trapped(reason)))@ == CallEventView::<
            H,
        >::Invoked(Ok(ActionOutcomeView::Trapped(reason@))),
{
}

/// What a call comes to is given as it is.
pub proof fn call_steps_are_given_whole<'a, H>(
    call: CallMethod<'a>,
    action: CallAction<'a>,
    output: Vec<u8>,
    message: String,
    host_error: H,
)
    ensures
        CallStep::<'a, H>::Perform(call, action)@ == CallStepView::<H>::Perform(call@, action@),
        CallStep::<'a, H>::Finished(Ok(output))@ == CallStepView::<H>::Finished(Ok(output@)),
        CallStep::<'a, H>::Finished(Err(Error::InvalidReturn))@ == CallStepView::<H>::Finished(
            Err(ErrorView::InvalidReturn),
        ),
        CallStep::<'a, H>::Finished(Err(Error::InvalidMemoryReference))@ == CallStepView::<
            H,
        >::Finished(Err(ErrorView::InvalidMemoryReference)),
        CallStep::<'a, H>::Finished(Err(Error::HeapBaseNotFoundOrInvalid))@ == CallStepView::<
            H,
        >::Finished(Err(ErrorView::HeapBaseNotFoundOrInvalid)),
        CallStep::<'a, H>::Finished(Err(Error::Other(message)))@ == CallStepView::<H>::Finished(
            Err(ErrorView::Other(message@)),
        ),
        CallStep::<'a, H>::Finished(Err(Error::Host(host_error)))@ == CallStepView::Finished(
            Err(ErrorView::Host(host_error)),
        ),
{
}

/// What the host is told to do in a creation is told as it is.
pub proof fn creation_actions_are_told_whole<'c>(
    code: &'c [u8],
    resolver: RuntimeInterfaceResolver,
)
    ensures
        CreationAction::NewCompiler@ is NewCompiler,
        CreationAction::InstantiateEnvModule@ is InstantiateEnvModule,
        CreationAction::CreateCompiledUnit(code, resolver)@
            == CreationActionView::CreateCompiledUnit(code@, resolver@),
{
}

/// What the host reports in a creation is taken as it is.
pub proof fn creation_events_are_taken_whole<'m, H>(
    reason: String,
    error: WasmError<H>,
    module: &'m Module,
    resolver: RuntimeInterfaceResolver,
)
    ensures
        CreationEvent::<'m, H>::Compiler(Ok(()))@ == CreationEventView::<H>::Compiler(Ok(())),
        CreationEvent::<'m, H>::Compiler(Err(reason))@ == CreationEventView::<H>::Compiler(
            Err(reason@),
        ),
        CreationEvent::<'m, H>::EnvInstance(Ok(()))@ == CreationEventView::<H>::EnvInstance(Ok(())),
        CreationEvent::<'m, H>::EnvInstance(Err(error))@ == CreationEventView::<H>::EnvInstance(
            Err(error@),
        ),
        CreationEvent::<'m, H>::CompiledUnit(Err(reason))@ == CreationEventView::<H>::CompiledUnit(
            Err(reason@),
        ),
        CreationEvent::<'m, H>::CompiledUnit(Ok((module, resolver)))@ == CreationEventView::<
            H,
        >::CompiledUnit(Ok((module_contents(*module), resolver@))),
{
}

/// What a creation comes to is given as it is.
pub proof fn creation_steps_are_given_whole<'c, H>(
    creation: CreateInstance<'c>,
    action: CreationAction<'c>,
    runtime: WasmtimeRuntime,
    message: String,
    host_error: H,
)
    ensures
        CreationStep::<'c, H>::Perform(creation, action)@ == CreationStepView::<H>::Perform(
            creation@,
            action@,
        ),
        CreationStep::<'c, H>::Finished(Ok(runtime))@ == CreationStepView::<H>::Finished(
            Ok(runtime@),
        ),
        CreationStep::<'c, H>::Finished(Err(WasmError::InvalidMemory))@ == CreationStepView::<
            H,
        >::Finished(Err(WasmErrorView::InvalidMemory)),
        CreationStep::<'c, H>::Finished(Err(WasmError::InvalidHeapPages))@ == CreationStepView::<
            H,
        >::Finished(Err(WasmErrorView::InvalidHeapPages)),
        CreationStep::<'c, H>::Finished(Err(WasmError::Other(message)))@ == CreationStepView::<
            H,
        >::Finished(Err(WasmErrorView::Other(message@))),
        CreationStep::<'c, H>::Finished(Err(WasmError::Host(host_error)))@
            == CreationStepView::Finished(Err(WasmErrorView::Host(host_error))),
{
}

/// What is known of the description of a module, and of a native signature, is what it holds.
pub proof fn contents_are_what_is_held(module: Module, signature: ir::Signature)
    ensures
        module_contents(module).signatures == module_signatures(module),
        module_contents(module).functions == module_functions(module),
        module_contents(module).exports == module_exports(module),
        module_contents(module).memories == module_memories(module),
        signature_contents(signature).params == signature_params(signature),
        signature_contents(signature).returns == signature_returns(signature),
        signature_contents(signature).call_conv == signature_call_conv(signature),
{
}

} // verus!
