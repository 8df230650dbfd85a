//! How a function of a guest is called.
//!
//! The host instantiates the guest, touches its memory and runs its code; [`CallMethod`] tells it
//! what to do next and makes of its reports what the caller gets: the output of the function, or
//! the reason why there is none.
use crate::error::{prefixed, Error, ErrorView};
use crate::guest_memory::{
    in_bounds, memory_read, memory_write, overwritten, read_memory_into, write_memory_from,
};
use crate::runtime::{RuntimeView, WasmtimeRuntime};
use crate::value::{
    returned_address, returned_length, returned_location, signed_word, word_argument, GlobalType,
    RuntimeValue,
};
use vstd::prelude::*;

verus! {

/// What an instance exports under a name.
#[derive(Debug, Clone, Copy, PartialEq, Eq, Structural)]
pub enum InstanceExport {
    /// A function.
    Function,
    /// A table.
    Table,
    /// A linear memory.
    Memory,
    /// A global of this type, with the first 32 bits of what it holds.
    Global(GlobalType, u32),
}

/// How the execution of a guest function ended.
#[derive(Debug)]
pub enum ActionOutcome {
    /// The function returned these values.
    Returned(Vec<RuntimeValue>),
    /// The function trapped, with this message.
    Trapped(String),
}

/// The mathematical counterpart of [`ActionOutcome`].
pub enum ActionOutcomeView {
    Returned(Seq<RuntimeValue>),
    Trapped(Seq<char>),
}

impl View for ActionOutcome {
    type V = ActionOutcomeView;

    open spec fn view(&self) -> ActionOutcomeView {
        match *self {
            ActionOutcome::Returned(values) => ActionOutcomeView::Returned(values@),
            ActionOutcome::Trapped(message) => ActionOutcomeView::Trapped(message@),
        }
    }
}

/// What came of an attempt to reset the state of the `env` module.
#[derive(Debug)]
pub enum EnvReset<H> {
    /// The state attached to the instance is not that of an `env` module.
    NotEnv,
    /// The state was reset. A host function may have left an error behind.
    Reset(Option<H>),
}

/// What came of looking for the executor state within the state of the `env` module.
#[derive(Debug, Clone, Copy, PartialEq, Eq, Structural)]
pub enum ExecutorLookup {
    /// The state attached to the instance is not that of an `env` module.
    NotEnv,
    /// There is no executor state.
    NoExecutor,
    /// There is an executor state.
    Found,
}

/// How far a call has come.
#[derive(Debug)]
pub enum CallStage {
    /// The exports of the last instance are to be removed.
    ClearGlobals,
    /// The guest is to be instantiated.
    Instantiate,
    /// The memory that is to grow is looked for.
    FindMemoryToGrow,
    /// The memory is to grow.
    GrowMemory,
    /// The base of the heap is looked for.
    FindHeapBase,
    /// The host functions are to get an executor state, with the heap at this base.
    EnterEnv(u32),
    /// The executor state is looked for, to allocate space for the input.
    FindExecutor,
    /// The memory that the input goes to is looked for.
    FindInputMemory,
    /// Space for the input is to be allocated, and the input written to it.
    InjectInputData,
    /// The function is to be invoked, with the input at this address.
    Invoke(u32),
    /// The function has ended, and the executor state is to be removed.
    LeaveEnv(ActionOutcome),
    /// The memory that holds the output, by its address and length, is looked for.
    FindOutputMemory(u32, u32),
    /// The output, by its address and length, is to be read.
    ReadOutput(u32, u32),
}

/// The mathematical counterpart of [`CallStage`].
pub enum CallStageView {
    ClearGlobals,
    Instantiate,
    FindMemoryToGrow,
    GrowMemory,
    FindHeapBase,
    EnterEnv(u32),
    FindExecutor,
    FindInputMemory,
    InjectInputData,
    Invoke(u32),
    LeaveEnv(ActionOutcomeView),
    FindOutputMemory(u32, u32),
    ReadOutput(u32, u32),
}

impl View for CallStage {
    type V = CallStageView;

    open spec fn view(&self) -> CallStageView {
        match *self {
            CallStage::ClearGlobals => CallStageView::ClearGlobals,
            CallStage::Instantiate => CallStageView::Instantiate,
            CallStage::FindMemoryToGrow => CallStageView::FindMemoryToGrow,
            CallStage::GrowMemory => CallStageView::GrowMemory,
            CallStage::FindHeapBase => CallStageView::FindHeapBase,
            CallStage::EnterEnv(heap_base) => CallStageView::EnterEnv(heap_base),
            CallStage::FindExecutor => CallStageView::FindExecutor,
            CallStage::FindInputMemory => CallStageView::FindInputMemory,
            CallStage::InjectInputData => CallStageView::InjectInputData,
            CallStage::Invoke(address) => CallStageView::Invoke(address),
            CallStage::LeaveEnv(outcome) => CallStageView::LeaveEnv(outcome@),
            CallStage::FindOutputMemory(address, length) => CallStageView::FindOutputMemory(
                address,
                length,
            ),
            CallStage::ReadOutput(address, length) => CallStageView::ReadOutput(address, length),
        }
    }
}

/// A call of a guest function.
#[derive(Debug)]
pub struct CallMethod<'a> {
    method: &'a str,
    data: &'a [u8],
    heap_pages: u32,
    stage: CallStage,
}

/// The mathematical counterpart of [`CallMethod`].
pub struct CallView {
    /// The name of the function.
    pub method: Seq<char>,
    /// The input of the function.
    pub data: Seq<u8>,
    /// The number of pages by which the memory of the guest grows.
    pub heap_pages: u32,
    /// How far the call has come.
    pub stage: CallStageView,
}

impl<'a> View for CallMethod<'a> {
    type V = CallView;

    closed spec fn view(&self) -> CallView {
        CallView {
            method: self.method@,
            data: self.data@,
            heap_pages: self.heap_pages,
            stage: self.stage@,
        }
    }
}

/// What the host has to do for the call to go on.
#[derive(Debug)]
pub enum CallAction<'a> {
    /// Remove the exports of the last instance from those that all instances share.
    ClearGlobals,
    /// Instantiate the guest.
    Instantiate,
    /// Look for the export of the instance that has this name.
    LookUp(&'static str),
    /// Grow the memory of the instance by this number of pages.
    GrowMemory(u32),
    /// Give the host functions a new executor state, with the heap at the given base, or take it
    /// away from them; and take the error that they left behind.
    ResetEnvState(Option<u32>),
    /// Look for the executor state of the host functions.
    FindExecutor,
    /// Allocate this number of bytes in the memory of the instance, and go on with
    /// [`CallMethod::inject_input_data`].
    Allocate(u32),
    /// Invoke the function of this name with these arguments.
    Invoke(&'a str, [RuntimeValue; 2]),
    /// Make the memory of the instance available, and go on with [`CallMethod::read_output`].
    ReadMemory,
}

/// The mathematical counterpart of [`CallAction`].
pub enum CallActionView {
    ClearGlobals,
    Instantiate,
    LookUp(Seq<char>),
    GrowMemory(u32),
    ResetEnvState(Option<u32>),
    FindExecutor,
    Allocate(u32),
    Invoke(Seq<char>, Seq<RuntimeValue>),
    ReadMemory,
}

impl<'a> View for CallAction<'a> {
    type V = CallActionView;

    open spec fn view(&self) -> CallActionView {
        match *self {
            CallAction::ClearGlobals => CallActionView::ClearGlobals,
            CallAction::Instantiate => CallActionView::Instantiate,
            CallAction::LookUp(name) => CallActionView::LookUp(name@),
            CallAction::GrowMemory(pages) => CallActionView::GrowMemory(pages),
            CallAction::ResetEnvState(heap_base) => CallActionView::ResetEnvState(heap_base),
            CallAction::FindExecutor => CallActionView::FindExecutor,
            CallAction::Allocate(size) => CallActionView::Allocate(size),
            CallAction::Invoke(method, args) => CallActionView::Invoke(method@, args@),
            CallAction::ReadMemory => CallActionView::ReadMemory,
        }
    }
}

/// What the host reports to [`CallMethod::advance`] when it has done what it was told.
#[derive(Debug)]
pub enum CallEvent<H> {
    /// The exports of the last instance were removed.
    GlobalsCleared,
    /// The guest was instantiated, or not.
    Instantiated(Result<(), String>),
    /// The export that was looked for, if there is one.
    Export(Option<InstanceExport>),
    /// The number of pages that the memory had before it grew, if it could grow.
    MemoryGrown(Option<u32>),
    /// The state of the `env` module was reset, or not.
    EnvStateReset(EnvReset<H>),
    /// The executor state that was looked for.
    Executor(ExecutorLookup),
    /// The function was invoked, or could not be.
    Invoked(Result<ActionOutcome, String>),
}

/// The mathematical counterpart of [`CallEvent`].
pub enum CallEventView<H> {
    GlobalsCleared,
    Instantiated(Result<(), Seq<char>>),
    Export(Option<InstanceExport>),
    MemoryGrown(Option<u32>),
    EnvStateReset(EnvReset<H>),
    Executor(ExecutorLookup),
    Invoked(Result<ActionOutcomeView, Seq<char>>),
}

impl<H> View for CallEvent<H> {
    type V = CallEventView<H>;

    open spec fn view(&self) -> CallEventView<H> {
        match *self {
            CallEvent::GlobalsCleared => CallEventView::GlobalsCleared,
            CallEvent::Instantiated(Ok(())) => CallEventView::Instantiated(Ok(())),
            CallEvent::Instantiated(Err(reason)) => CallEventView::Instantiated(Err(reason@)),
            CallEvent::Export(export) => CallEventView::Export(export),
            CallEvent::MemoryGrown(grown) => CallEventView::MemoryGrown(grown),
            CallEvent::EnvStateReset(reset) => CallEventView::EnvStateReset(reset),
            CallEvent::Executor(executor) => CallEventView::Executor(executor),
            CallEvent::Invoked(Ok(outcome)) => CallEventView::Invoked(Ok(outcome@)),
            CallEvent::Invoked(Err(reason)) => CallEventView::Invoked(Err(reason@)),
        }
    }
}

/// What follows on a report of the host.
#[derive(Debug)]
pub enum CallStep<'a, H> {
    /// The host has to do something.
    Perform(CallMethod<'a>, CallAction<'a>),
    /// The call has ended.
    Finished(Result<Vec<u8>, Error<H>>),
}

/// The mathematical counterpart of [`CallStep`].
pub enum CallStepView<H> {
    Perform(CallView, CallActionView),
    Finished(Result<Seq<u8>, ErrorView<H>>),
}

impl<'a, H> View for CallStep<'a, H> {
    type V = CallStepView<H>;

    open spec fn view(&self) -> CallStepView<H> {
        match *self {
            CallStep::Perform(call, action) => CallStepView::Perform(call@, action@),
            CallStep::Finished(Ok(output)) => CallStepView::Finished(Ok(output@)),
            CallStep::Finished(Err(error)) => CallStepView::Finished(Err(error@)),
        }
    }
}

/// The length of the input as the guest is told it: a 32-bit number.
pub open spec fn input_size(data: Seq<u8>) -> u32 {
    (data.len() % 0x1_0000_0000) as u32
}

/// What the host is told at a stage of a call.
pub open spec fn pending(call: CallView) -> CallActionView {
    match call.stage {
        CallStageView::ClearGlobals => CallActionView::ClearGlobals,
        CallStageView::Instantiate => CallActionView::Instantiate,
        CallStageView::FindMemoryToGrow => CallActionView::LookUp("memory"@),
        CallStageView::GrowMemory => CallActionView::GrowMemory(call.heap_pages),
        CallStageView::FindHeapBase => CallActionView::LookUp("__heap_base"@),
        CallStageView::EnterEnv(heap_base) => CallActionView::ResetEnvState(Some(heap_base)),
        CallStageView::FindExecutor => CallActionView::FindExecutor,
        CallStageView::FindInputMemory => CallActionView::LookUp("memory"@),
        CallStageView::InjectInputData => CallActionView::Allocate(input_size(call.data)),
        CallStageView::Invoke(address) => CallActionView::Invoke(
            call.method,
            seq![
                RuntimeValue::I32(signed_word(address)),
                RuntimeValue::I32(signed_word(input_size(call.data))),
            ],
        ),
        CallStageView::LeaveEnv(_) => CallActionView::ResetEnvState(None),
        CallStageView::FindOutputMemory(_, _) => CallActionView::LookUp("memory"@),
        CallStageView::ReadOutput(_, _) => CallActionView::ReadMemory,
    }
}

/// The call goes on with another stage.
pub open spec fn enter<H>(call: CallView, stage: CallStageView) -> CallStepView<H> {
    let entered = CallView { stage, ..call };
    CallStepView::Perform(entered, pending(entered))
}

/// The call has failed.
pub open spec fn fail<H>(error: ErrorView<H>) -> CallStepView<H> {
    CallStepView::Finished(Err(error))
}

/// The error for an instance whose state is not that of an `env` module.
pub open spec fn no_env_state<H>() -> ErrorView<H> {
    ErrorView::Other("cannot get \"env\" module host state"@)
}

/// What becomes of a call whose function has ended, where `trap` is the error that a host function
/// left behind.
pub open spec fn conclude<H>(
    call: CallView,
    outcome: ActionOutcomeView,
    trap: Option<H>,
) -> CallStepView<H> {
    match outcome {
        ActionOutcomeView::Returned(values) => if values.len() == 1 {
            match values[0] {
                RuntimeValue::I64(value) => enter(
                    call,
                    CallStageView::FindOutputMemory(
                        returned_address(value),
                        returned_length(value),
                    ),
                ),
                _ => fail(ErrorView::InvalidReturn),
            }
        } else {
            fail(ErrorView::InvalidReturn)
        },
        ActionOutcomeView::Trapped(message) => match trap {
            Some(error) => fail(ErrorView::Host(error)),
            None => fail(ErrorView::Other("Wasm execution trapped: "@ + message)),
        },
    }
}

/// Whether `event` is a report on what the host was told to do.
pub open spec fn answers<H>(stage: CallStageView, event: CallEventView<H>) -> bool {
    match stage {
        CallStageView::ClearGlobals => event is GlobalsCleared,
        CallStageView::Instantiate => event is Instantiated,
        CallStageView::FindMemoryToGrow => event is Export,
        CallStageView::GrowMemory => event is MemoryGrown,
        CallStageView::FindHeapBase => event is Export,
        CallStageView::EnterEnv(_) => event is EnvStateReset,
        CallStageView::FindExecutor => event is Executor,
        CallStageView::FindInputMemory => event is Export,
        CallStageView::InjectInputData => false,
        CallStageView::Invoke(_) => event is Invoked,
        CallStageView::LeaveEnv(_) => event is EnvStateReset,
        CallStageView::FindOutputMemory(_, _) => event is Export,
        CallStageView::ReadOutput(_, _) => false,
    }
}

/// What follows on the lookup of an export.
pub open spec fn next_on_export<H>(call: CallView, export: Option<InstanceExport>) -> CallStepView<
    H,
> {
    match call.stage {
        CallStageView::FindMemoryToGrow => if export == Some(InstanceExport::Memory) {
            enter(call, CallStageView::GrowMemory)
        } else {
            fail(ErrorView::InvalidMemoryReference)
        },
        CallStageView::FindHeapBase => match export {
            Some(InstanceExport::Global(GlobalType::I32, heap_base)) => enter(
                call,
                CallStageView::EnterEnv(heap_base),
            ),
            _ => fail(ErrorView::HeapBaseNotFoundOrInvalid),
        },
        CallStageView::FindInputMemory => if export == Some(InstanceExport::Memory) {
            enter(call, CallStageView::InjectInputData)
        } else {
            fail(ErrorView::InvalidMemoryReference)
        },
        CallStageView::FindOutputMemory(address, length) => if export == Some(
            InstanceExport::Memory,
        ) {
            enter(call, CallStageView::ReadOutput(address, length))
        } else {
            fail(ErrorView::InvalidMemoryReference)
        },
        _ => arbitrary(),
    }
}

/// What follows on a report of the host.
pub open spec fn next<H>(call: CallView, event: CallEventView<H>) -> CallStepView<H> {
    match event {
        CallEventView::GlobalsCleared => enter(call, CallStageView::Instantiate),
        CallEventView::Instantiated(Ok(())) => enter(call, CallStageView::FindMemoryToGrow),
        CallEventView::Instantiated(Err(reason)) => fail(ErrorView::Other(reason)),
        CallEventView::Export(export) => next_on_export(call, export),
        CallEventView::MemoryGrown(Some(_)) => enter(call, CallStageView::FindHeapBase),
        CallEventView::MemoryGrown(None) => fail(
            ErrorView::Other("requested heap_pages would exceed maximum memory size"@),
        ),
        CallEventView::EnvStateReset(EnvReset::NotEnv) => fail(no_env_state()),
        CallEventView::EnvStateReset(EnvReset::Reset(trap)) => match call.stage {
            CallStageView::LeaveEnv(outcome) => conclude(call, outcome, trap),
            _ => enter(call, CallStageView::FindExecutor),
        },
        CallEventView::Executor(ExecutorLookup::NotEnv) => fail(no_env_state()),
        CallEventView::Executor(ExecutorLookup::NoExecutor) => fail(
            ErrorView::Other("cannot get \"env\" module executor state"@),
        ),
        CallEventView::Executor(ExecutorLookup::Found) => enter(
            call,
            CallStageView::FindInputMemory,
        ),
        CallEventView::Invoked(Ok(outcome)) => enter(call, CallStageView::LeaveEnv(outcome)),
        CallEventView::Invoked(Err(reason)) => fail(
            ErrorView::Other("error calling runtime: "@ + reason),
        ),
    }
}

/// What follows on the allocation of space for the input, where `memory` is what the memory of the
/// instance holds.
pub open spec fn next_on_allocation<H>(
    call: CallView,
    allocated: Result<u32, H>,
    memory: Seq<u8>,
) -> CallStepView<H> {
    match allocated {
        Ok(address) => match memory_write(memory, address, call.data) {
            Ok(()) => enter(call, CallStageView::Invoke(address)),
            Err(error) => fail(error),
        },
        Err(error) => fail(ErrorView::Host(error)),
    }
}

/// What the memory of the instance holds once the host has allocated space for the input and the
/// input was written, where it held `memory` before.
pub open spec fn memory_after_injection<H>(
    call: CallView,
    allocated: Result<u32, H>,
    memory: Seq<u8>,
) -> Seq<u8> {
    match allocated {
        Ok(address) if in_bounds(address, call.data.len(), memory.len()) => overwritten(
            memory,
            address,
            call.data,
        ),
        _ => memory,
    }
}

/// What follows when the memory of the instance is available, where `memory` is what it holds.
pub open spec fn next_on_memory<H>(call: CallView, memory: Seq<u8>) -> CallStepView<H> {
    match call.stage {
        CallStageView::ReadOutput(address, length) => CallStepView::Finished(
            memory_read(memory, address, length),
        ),
        _ => arbitrary(),
    }
}

/// The beginning of a call of `method` with `data` as its input and with `heap_pages` pages on top
/// of the initial memory.
pub open spec fn begin_call<H>(method: Seq<char>, data: Seq<u8>, heap_pages: u32) -> CallStepView<
    H,
> {
    enter(
        CallView { method, data, heap_pages, stage: CallStageView::ClearGlobals },
        CallStageView::ClearGlobals,
    )
}

/// The beginning of a call of the function `method` of a runtime with `data` as its input.
pub open spec fn begin<H>(
    runtime: RuntimeView,
    method: Seq<char>,
    data: Seq<u8>,
) -> CallStepView<H> {
    begin_call(method, data, runtime.heap_pages)
}

impl WasmtimeRuntime {
    /// Begins to call the function `method` of the guest with `data` as its input.
    pub fn call<'a, H>(&self, method: &'a str, data: &'a [u8]) -> (step: CallStep<'a, H>)
        ensures
            step@ == enter::<H>(
                CallView {
                    method: method@,
                    data: data@,
                    heap_pages: self@.heap_pages,
                    stage: CallStageView::ClearGlobals,
                },
                CallStageView::ClearGlobals,
            ),
            step@ == begin::<H>(self@, method@, data@),
            self@.heap_fits(),
    {
        call_method(method, data, self.heap_pages())
    }
}

/// Begins to call the function `method` of a guest with `data` as its input, and with `heap_pages`
/// pages on top of its initial memory.
pub fn call_method<'a, H>(method: &'a str, data: &'a [u8], heap_pages: u32) -> (step: CallStep<
    'a,
    H,
>)
    ensures
        step@ == enter::<H>(
            CallView {
                method: method@,
                data: data@,
                heap_pages,
                stage: CallStageView::ClearGlobals,
            },
            CallStageView::ClearGlobals,
        ),
        step@ == begin_call::<H>(method@, data@, heap_pages),
{
    CallStep::Perform(
        CallMethod { method, data, heap_pages, stage: CallStage::ClearGlobals },
        CallAction::ClearGlobals,
    )
}

/// Tells whether the memory of an instance can be used: it has to be exported.
fn get_memory<H>(export: Option<InstanceExport>) -> (memory: Result<(), Error<H>>)
    ensures
        memory is Ok <==> export == Some(InstanceExport::Memory),
        memory matches Err(error) ==> error@ == ErrorView::<H>::InvalidMemoryReference,
{
    match export {
        Some(InstanceExport::Memory) => Ok(()),
        _ => Err(Error::InvalidMemoryReference),
    }
}

/// Tells where the heap of an instance begins: at the value of a global, which has to be an `i32`.
fn get_heap_base<H>(export: Option<InstanceExport>) -> (heap_base: Result<u32, Error<H>>)
    ensures
        export matches Some(InstanceExport::Global(GlobalType::I32, base)) ==> heap_base == Ok::<
            u32,
            Error<H>,
        >(base),
        !(export matches Some(InstanceExport::Global(GlobalType::I32, _))) ==> (
        heap_base matches Err(error) && error@ == ErrorView::<H>::HeapBaseNotFoundOrInvalid),
{
    match export {
        Some(InstanceExport::Global(GlobalType::I32, base)) => Ok(base),
        _ => Err(Error::HeapBaseNotFoundOrInvalid),
    }
}

/// Tells whether the memory of an instance has grown.
fn grow_memory<H>(grown: Option<u32>) -> (outcome: Result<(), Error<H>>)
    ensures
        outcome is Ok <==> grown is Some,
        outcome matches Err(error) ==> error@ == ErrorView::<H>::Other(
            "requested heap_pages would exceed maximum memory size"@,
        ),
{
    match grown {
        Some(_) => Ok(()),
        None => Err(
            Error::Other("requested heap_pages would exceed maximum memory size".to_owned()),
        ),
    }
}

/// The error for an instance whose state is not that of an `env` module.
fn not_env<H>() -> (error: Error<H>)
    ensures
        error@ == no_env_state::<H>(),
{
    Error::Other("cannot get \"env\" module host state".to_owned())
}

/// Takes the error that a host function left behind, once the state of the `env` module was reset.
fn reset_env_state_and_take_trap<H>(reset: EnvReset<H>) -> (trap: Result<Option<H>, Error<H>>)
    ensures
        reset matches EnvReset::Reset(left) ==> trap == Ok::<Option<H>, Error<H>>(left),
        reset is NotEnv ==> (trap matches Err(error) && error@ == no_env_state::<H>()),
{
    match reset {
        EnvReset::Reset(left) => Ok(left),
        EnvReset::NotEnv => Err(not_env()),
    }
}

/// Tells whether the host functions have an executor state.
fn get_executor_state<H>(executor: ExecutorLookup) -> (found: Result<(), Error<H>>)
    ensures
        executor is Found <==> found is Ok,
        executor is NotEnv ==> (found matches Err(error) && error@ == no_env_state::<H>()),
        executor is NoExecutor ==> (found matches Err(error) && error@ == ErrorView::<H>::Other(
            "cannot get \"env\" module executor state"@,
        )),
{
    match executor {
        ExecutorLookup::Found => Ok(()),
        ExecutorLookup::NotEnv => Err(not_env()),
        ExecutorLookup::NoExecutor => Err(
            Error::Other("cannot get \"env\" module executor state".to_owned()),
        ),
    }
}

/// The length of the input as the guest is told it.
fn input_word(data: &[u8]) -> (size: u32)
    ensures
        size == input_size(data@),
{
    let length: u64 = data.len() as u64;
    assert((length as u32) == length % 0x1_0000_0000) by (bit_vector);
    length as u32
}

impl<'a> CallMethod<'a> {
    /// What the host has to do at the stage that the call has come to.
    fn action(&self) -> (action: CallAction<'a>)
        ensures
            action@ == pending(self@),
    {
        match &self.stage {
            CallStage::ClearGlobals => CallAction::ClearGlobals,
            CallStage::Instantiate => CallAction::Instantiate,
            CallStage::FindMemoryToGrow => CallAction::LookUp("memory"),
            CallStage::GrowMemory => CallAction::GrowMemory(self.heap_pages),
            CallStage::FindHeapBase => CallAction::LookUp("__heap_base"),
            CallStage::EnterEnv(heap_base) => CallAction::ResetEnvState(Some(*heap_base)),
            CallStage::FindExecutor => CallAction::FindExecutor,
            CallStage::FindInputMemory => CallAction::LookUp("memory"),
            CallStage::InjectInputData => CallAction::Allocate(input_word(self.data)),
            CallStage::Invoke(address) => {
                let args: [RuntimeValue; 2] = [
                    word_argument(*address),
                    word_argument(input_word(self.data)),
                ];
                assert(args@ =~= seq![
                    RuntimeValue::I32(signed_word(*address)),
                    RuntimeValue::I32(signed_word(input_size(self.data@))),
                ]);
                CallAction::Invoke(self.method, args)
            },
            CallStage::LeaveEnv(_) => CallAction::ResetEnvState(None),
            CallStage::FindOutputMemory(_, _) => CallAction::LookUp("memory"),
            CallStage::ReadOutput(_, _) => CallAction::ReadMemory,
        }
    }

    /// Goes on with another stage.
    fn enter<H>(self, stage: CallStage) -> (step: CallStep<'a, H>)
        ensures
            step@ == enter::<H>(self@, stage@),
    {
        let call = CallMethod { stage, ..self };
        let action = call.action();
        CallStep::Perform(call, action)
    }

    /// Goes on with the call after a report of the host.
    pub fn advance<H>(self, event: CallEvent<H>) -> (step: CallStep<'a, H>)
        requires
            answers(self@.stage, event@),
        ensures
            step@ == next(self@, event@),
    {
        match event {
            CallEvent::GlobalsCleared => self.enter(CallStage::Instantiate),
            CallEvent::Instantiated(Ok(())) => self.enter(CallStage::FindMemoryToGrow),
            CallEvent::Instantiated(Err(reason)) => CallStep::Finished(Err(Error::Other(reason))),
            CallEvent::Export(export) => self.export_found(export),
            CallEvent::MemoryGrown(grown) => match grow_memory(grown) {
                Ok(()) => self.enter(CallStage::FindHeapBase),
                Err(error) => CallStep::Finished(Err(error)),
            },
            CallEvent::EnvStateReset(reset) => match reset_env_state_and_take_trap(reset) {
                Ok(trap) => self.env_state_reset(trap),
                Err(error) => CallStep::Finished(Err(error)),
            },
            CallEvent::Executor(executor) => match get_executor_state(executor) {
                Ok(()) => self.enter(CallStage::FindInputMemory),
                Err(error) => CallStep::Finished(Err(error)),
            },
            CallEvent::Invoked(Ok(outcome)) => self.enter(CallStage::LeaveEnv(outcome)),
            CallEvent::Invoked(Err(reason)) => CallStep::Finished(
                Err(Error::Other(prefixed("error calling runtime: ", reason.as_str()))),
            ),
        }
    }

    /// Goes on with the call after an export was looked for.
    fn export_found<H>(self, export: Option<InstanceExport>) -> (step: CallStep<'a, H>)
        requires
            answers(self@.stage, CallEventView::<H>::Export(export)),
        ensures
            step@ == next_on_export::<H>(self@, export),
    {
        let stage = match self.stage {
            CallStage::FindHeapBase => match get_heap_base(export) {
                Ok(heap_base) => CallStage::EnterEnv(heap_base),
                Err(error) => return CallStep::Finished(Err(error)),
            },
            CallStage::FindMemoryToGrow => match get_memory(export) {
                Ok(()) => CallStage::GrowMemory,
                Err(error) => return CallStep::Finished(Err(error)),
            },
            CallStage::FindOutputMemory(address, length) => match get_memory(export) {
                Ok(()) => CallStage::ReadOutput(address, length),
                Err(error) => return CallStep::Finished(Err(error)),
            },
            _ => match get_memory(export) {
                Ok(()) => CallStage::InjectInputData,
                Err(error) => return CallStep::Finished(Err(error)),
            },
        };
        self.enter(stage)
    }

    /// Goes on with the call after the state of the `env` module was reset.
    fn env_state_reset<H>(self, trap: Option<H>) -> (step: CallStep<'a, H>)
        requires
            self@.stage is EnterEnv || self@.stage is LeaveEnv,
        ensures
            step@ == next(self@, CallEventView::EnvStateReset(EnvReset::Reset(trap))),
    {
        let stage = match &self.stage {
            CallStage::LeaveEnv(ActionOutcome::Returned(values)) => {
                if values.len() != 1 {
                    return CallStep::Finished(Err(Error::InvalidReturn));
                }
                match values[0] {
                    RuntimeValue::I64(value) => {
                        let (address, length): (u32, u32) = returned_location(value);
                        CallStage::FindOutputMemory(address, length)
                    },
                    _ => return CallStep::Finished(Err(Error::InvalidReturn)),
                }
            },
            CallStage::LeaveEnv(ActionOutcome::Trapped(message)) => {
                let error = match trap {
                    Some(error) => Error::Host(error),
                    None => Error::Other(prefixed("Wasm execution trapped: ", message.as_str())),
                };
                return CallStep::Finished(Err(error));
            },
            _ => CallStage::FindExecutor,
        };
        self.enter(stage)
    }

    /// Writes the input to the memory of the instance, once the host has allocated space for it.
    pub fn inject_input_data<H>(self, allocated: Result<u32, H>, memory: &mut [u8]) -> (step:
        CallStep<'a, H>)
        requires
            self@.stage is InjectInputData,
        ensures
            step@ == next_on_allocation(self@, allocated, old(memory)@),
            final(memory)@ == match allocated {
                Ok(address) if in_bounds(address, self@.data.len(), old(memory)@.len()) =>
                    overwritten(old(memory)@, address, self@.data),
                _ => old(memory)@,
            },
            final(memory)@ == memory_after_injection(self@, allocated, old(memory)@),
    {
        let address = match allocated {
            Ok(address) => address,
            Err(error) => return CallStep::Finished(Err(Error::Host(error))),
        };
        match write_memory_from(memory, address, self.data) {
            Ok(()) => self.enter(CallStage::Invoke(address)),
            Err(error) => CallStep::Finished(Err(error)),
        }
    }

    /// Reads the output from the memory of the instance, which ends the call.
    pub fn read_output<H>(self, memory: &[u8]) -> (step: CallStep<'a, H>)
        requires
            self@.stage is ReadOutput,
        ensures
            step@ == CallStepView::<H>::Finished(
                memory_read(memory@, self@.stage->ReadOutput_0, self@.stage->ReadOutput_1),
            ),
            step@ == next_on_memory::<H>(self@, memory@),
    {
        let (address, length): (u32, u32) = match self.stage {
            CallStage::ReadOutput(address, length) => (address, length),
            _ => (0, 0),
        };
        let mut output: Vec<u8> = vec![0; length as usize];
        match read_memory_into(memory, address, output.as_mut_slice()) {
            Ok(()) => CallStep::Finished(Ok(output)),
            Err(error) => CallStep::Finished(Err(error)),
        }
    }
}

} // verus!
