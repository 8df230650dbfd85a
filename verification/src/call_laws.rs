//! What holds of every call of a guest function.
use crate::call::{
    answers, begin, begin_call, input_size, memory_after_injection, next, next_on_allocation,
    next_on_memory, no_env_state, pending, ActionOutcomeView, CallActionView, CallEventView,
    CallStageView, CallStepView, CallView, EnvReset, ExecutorLookup, InstanceExport,
};
use crate::error::ErrorView;
use crate::guest_memory::{
    in_bounds, memory_read, memory_write, overwritten, written_is_read_back,
};
use crate::runtime::RuntimeView;
use crate::value::{
    returned_address, returned_length, returned_location_is_decoded, signed_word, GlobalType,
    RuntimeValue,
};
use vstd::prelude::*;

verus! {

/// All that a host reports in the course of one call, stage by stage. A call that ends early makes
/// use of the first reports alone.
pub struct CallReports<H> {
    /// Whether the guest was instantiated.
    pub instantiated: Result<(), Seq<char>>,
    /// The memory that is to grow.
    pub memory_to_grow: Option<InstanceExport>,
    /// Whether the memory has grown.
    pub memory_grown: Option<u32>,
    /// The base of the heap.
    pub heap_base: Option<InstanceExport>,
    /// The state of the `env` module, before the function is invoked.
    pub env_entered: EnvReset<H>,
    /// The executor state.
    pub executor: ExecutorLookup,
    /// The memory that the input goes to.
    pub input_memory: Option<InstanceExport>,
    /// The space for the input.
    pub allocated: Result<u32, H>,
    /// What the memory holds before the input is written.
    pub memory_before: Seq<u8>,
    /// How the function has ended.
    pub invoked: Result<ActionOutcomeView, Seq<char>>,
    /// The state of the `env` module, after the function was invoked.
    pub env_left: EnvReset<H>,
    /// The memory that the output is in.
    pub output_memory: Option<InstanceExport>,
    /// What the memory holds after the function was invoked.
    pub memory_after: Seq<u8>,
}

/// How many stages come before this one.
pub open spec fn stages_before(stage: CallStageView) -> nat {
    match stage {
        CallStageView::ClearGlobals => 0,
        CallStageView::Instantiate => 1,
        CallStageView::FindMemoryToGrow => 2,
        CallStageView::GrowMemory => 3,
        CallStageView::FindHeapBase => 4,
        CallStageView::EnterEnv(_) => 5,
        CallStageView::FindExecutor => 6,
        CallStageView::FindInputMemory => 7,
        CallStageView::InjectInputData => 8,
        CallStageView::Invoke(_) => 9,
        CallStageView::LeaveEnv(_) => 10,
        CallStageView::FindOutputMemory(_, _) => 11,
        CallStageView::ReadOutput(_, _) => 12,
    }
}

/// What follows on the report that the host gives at the stage of the call.
pub open spec fn step<H>(call: CallView, reports: CallReports<H>) -> CallStepView<H> {
    match call.stage {
        CallStageView::ClearGlobals => next(call, CallEventView::GlobalsCleared),
        CallStageView::Instantiate => next(
            call,
            CallEventView::Instantiated(reports.instantiated),
        ),
        CallStageView::FindMemoryToGrow => next(
            call,
            CallEventView::Export(reports.memory_to_grow),
        ),
        CallStageView::GrowMemory => next(call, CallEventView::MemoryGrown(reports.memory_grown)),
        CallStageView::FindHeapBase => next(call, CallEventView::Export(reports.heap_base)),
        CallStageView::EnterEnv(_) => next(call, CallEventView::EnvStateReset(reports.env_entered)),
        CallStageView::FindExecutor => next(call, CallEventView::Executor(reports.executor)),
        CallStageView::FindInputMemory => next(call, CallEventView::Export(reports.input_memory)),
        CallStageView::InjectInputData => next_on_allocation(
            call,
            reports.allocated,
            reports.memory_before,
        ),
        CallStageView::Invoke(_) => next(call, CallEventView::Invoked(reports.invoked)),
        CallStageView::LeaveEnv(_) => next(call, CallEventView::EnvStateReset(reports.env_left)),
        CallStageView::FindOutputMemory(_, _) => next(
            call,
            CallEventView::Export(reports.output_memory),
        ),
        CallStageView::ReadOutput(_, _) => next_on_memory(call, reports.memory_after),
    }
}

/// Every step leads to the next stage or to the end of the call, and to nothing but the stage
/// changing: the function, its input and the size of the heap stay what they are.
pub proof fn step_goes_on<H>(call: CallView, reports: CallReports<H>)
    ensures
        step(call, reports) matches CallStepView::Perform(followed, action) ==> {
            &&& stages_before(followed.stage) == stages_before(call.stage) + 1
            &&& followed == (CallView { stage: followed.stage, ..call })
            &&& action == pending(followed)
        },
{
}

/// What comes of a call that has come to some stage.
pub open spec fn run<H>(call: CallView, reports: CallReports<H>) -> Result<Seq<u8>, ErrorView<H>>
    decreases 13 - stages_before(call.stage),
{
    proof {
        step_goes_on(call, reports);
    }
    match step(call, reports) {
        CallStepView::Perform(followed, _) => run(followed, reports),
        CallStepView::Finished(result) => result,
    }
}

/// What comes of a function that was invoked.
pub open spec fn output_of<H>(reports: CallReports<H>) -> Result<Seq<u8>, ErrorView<H>> {
    match (reports.invoked, reports.env_left) {
        (Err(reason), _) => Err(ErrorView::Other("error calling runtime: "@ + reason)),
        (Ok(_), EnvReset::NotEnv) => Err(no_env_state()),
        (Ok(ActionOutcomeView::Trapped(_)), EnvReset::Reset(Some(error))) => Err(
            ErrorView::Host(error),
        ),
        (Ok(ActionOutcomeView::Trapped(message)), EnvReset::Reset(None)) => Err(
            ErrorView::Other("Wasm execution trapped: "@ + message),
        ),
        (Ok(ActionOutcomeView::Returned(values)), EnvReset::Reset(_)) => if values.len() == 1
            && values[0] is I64 {
            if reports.output_memory == Some(InstanceExport::Memory) {
                memory_read(
                    reports.memory_after,
                    returned_address(values[0]->I64_0),
                    returned_length(values[0]->I64_0),
                )
            } else {
                Err(ErrorView::InvalidMemoryReference)
            }
        } else {
            Err(ErrorView::InvalidReturn)
        },
    }
}

/// What comes of a call, from its input and from what the host reports.
pub open spec fn call_result<H>(data: Seq<u8>, reports: CallReports<H>) -> Result<
    Seq<u8>,
    ErrorView<H>,
> {
    if reports.instantiated is Err {
        Err(ErrorView::Other(reports.instantiated->Err_0))
    } else if reports.memory_to_grow != Some(InstanceExport::Memory) {
        Err(ErrorView::InvalidMemoryReference)
    } else if reports.memory_grown is None {
        Err(ErrorView::Other("requested heap_pages would exceed maximum memory size"@))
    } else if !(reports.heap_base matches Some(InstanceExport::Global(GlobalType::I32, _))) {
        Err(ErrorView::HeapBaseNotFoundOrInvalid)
    } else if reports.env_entered is NotEnv || reports.executor is NotEnv {
        Err(no_env_state())
    } else if reports.executor is NoExecutor {
        Err(ErrorView::Other("cannot get \"env\" module executor state"@))
    } else if reports.input_memory != Some(InstanceExport::Memory) {
        Err(ErrorView::InvalidMemoryReference)
    } else if reports.allocated is Err {
        Err(ErrorView::Host(reports.allocated->Err_0))
    } else if !in_bounds(reports.allocated->Ok_0, data.len(), reports.memory_before.len()) {
        Err(ErrorView::Other("memory write is out of bounds"@))
    } else {
        output_of(reports)
    }
}

/// The first stage of a call.
pub open spec fn start(method: Seq<char>, data: Seq<u8>, heap_pages: u32) -> CallView {
    CallView { method, data, heap_pages, stage: CallStageView::ClearGlobals }
}

/// From the invocation of the function on, a call comes to what the function gives.
proof fn invocation_comes_to_output<H>(call: CallView, reports: CallReports<H>)
    requires
        call.stage is Invoke,
    ensures
        run(call, reports) == output_of(reports),
{
    reveal_with_fuel(run, 5);
}

/// From the lookup of the executor state on, a call comes to its result.
proof fn injection_comes_to_result<H>(call: CallView, reports: CallReports<H>)
    requires
        call.stage is FindExecutor,
        reports.instantiated is Ok,
        reports.memory_to_grow == Some(InstanceExport::Memory),
        reports.memory_grown is Some,
        reports.heap_base matches Some(InstanceExport::Global(GlobalType::I32, _)),
        reports.env_entered is Reset,
    ensures
        run(call, reports) == call_result(call.data, reports),
{
    if reports.allocated is Ok {
        invocation_comes_to_output(
            CallView { stage: CallStageView::Invoke(reports.allocated->Ok_0), ..call },
            reports,
        );
    }
    reveal_with_fuel(run, 4);
}

/// What a call comes to, whatever the host reports: the first report of a failure decides. Without
/// one, the result is what the memory of the instance holds at the place that the function
/// returned.
pub proof fn call_comes_to_result<H>(
    method: Seq<char>,
    data: Seq<u8>,
    heap_pages: u32,
    reports: CallReports<H>,
)
    ensures
        run(start(method, data, heap_pages), reports) == call_result(data, reports),
{
    let call = start(method, data, heap_pages);
    if reports.env_entered is Reset && (reports.heap_base matches Some(
        InstanceExport::Global(GlobalType::I32, _),
    )) && reports.instantiated is Ok && reports.memory_to_grow == Some(InstanceExport::Memory)
        && reports.memory_grown is Some {
        injection_comes_to_result(CallView { stage: CallStageView::FindExecutor, ..call }, reports);
    }
    reveal_with_fuel(run, 7);
}

/// A function that returns the place of its own input, and leaves its memory as it is, gives back
/// its input.
pub proof fn echo_gives_back_input<H>(
    method: Seq<char>,
    data: Seq<u8>,
    heap_pages: u32,
    value: i64,
    reports: CallReports<H>,
)
    requires
        data.len() <= u32::MAX,
        reports.instantiated is Ok,
        reports.memory_to_grow == Some(InstanceExport::Memory),
        reports.memory_grown is Some,
        reports.heap_base matches Some(InstanceExport::Global(GlobalType::I32, _)),
        reports.env_entered is Reset,
        reports.executor is Found,
        reports.input_memory == Some(InstanceExport::Memory),
        reports.allocated is Ok,
        in_bounds(reports.allocated->Ok_0, data.len(), reports.memory_before.len()),
        reports.invoked == Ok::<ActionOutcomeView, Seq<char>>(
            ActionOutcomeView::Returned(seq![RuntimeValue::I64(value)]),
        ),
        returned_address(value) == reports.allocated->Ok_0,
        returned_length(value) == input_size(data),
        reports.env_left is Reset,
        reports.output_memory == Some(InstanceExport::Memory),
        reports.memory_after == overwritten(
            reports.memory_before,
            reports.allocated->Ok_0,
            data,
        ),
    ensures
        run(start(method, data, heap_pages), reports) == Ok::<Seq<u8>, ErrorView<H>>(data),
{
    call_comes_to_result(method, data, heap_pages, reports);
    written_is_read_back::<H>(reports.memory_before, reports.allocated->Ok_0, data);
}

/// The calls of one run, from the given one on to the last.
pub open spec fn course<H>(call: CallView, reports: CallReports<H>) -> Seq<CallView>
    decreases 13 - stages_before(call.stage),
{
    proof {
        step_goes_on(call, reports);
    }
    match step(call, reports) {
        CallStepView::Perform(followed, _) => seq![call] + course(followed, reports),
        CallStepView::Finished(_) => seq![call],
    }
}

/// Every call runs through the stages in the same order, each once, until it ends. The host is thus
/// told at most thirteen things, and never twice to invoke the function.
pub proof fn stages_come_in_order<H>(call: CallView, reports: CallReports<H>)
    ensures
        0 < course(call, reports).len() <= 13 - stages_before(call.stage),
        course(call, reports)[0] == call,
        forall|i: int|
            0 <= i < course(call, reports).len() ==> stages_before(
                (#[trigger] course(call, reports)[i]).stage,
            ) == stages_before(call.stage) + i,
        forall|i: int|
            0 <= i < course(call, reports).len() ==> (#[trigger] course(call, reports)[i])
                == (CallView { stage: course(call, reports)[i].stage, ..call }),
        forall|i: int, j: int|
            0 <= i < course(call, reports).len() && 0 <= j < course(call, reports).len()
                && pending(#[trigger] course(call, reports)[i]) is Invoke && pending(
                #[trigger] course(call, reports)[j],
            ) is Invoke ==> i == j,
    decreases 13 - stages_before(call.stage),
{
    step_goes_on(call, reports);
    if let CallStepView::Perform(followed, _) = step(call, reports) {
        stages_come_in_order(followed, reports);
        let rest = course(followed, reports);
        assert(course(call, reports) =~= seq![call] + rest);
        assert forall|i: int| 0 < i < course(call, reports).len() implies course(call, reports)[i]
            == rest[i - 1] by {}
    }
}

/// Whether everything that comes before the invocation of the function has succeeded.
pub open spec fn ready<H>(data: Seq<u8>, reports: CallReports<H>) -> bool {
    &&& reports.instantiated is Ok
    &&& reports.memory_to_grow == Some(InstanceExport::Memory)
    &&& reports.memory_grown is Some
    &&& reports.heap_base matches Some(InstanceExport::Global(GlobalType::I32, _))
    &&& reports.env_entered is Reset
    &&& reports.executor is Found
    &&& reports.input_memory == Some(InstanceExport::Memory)
    &&& reports.allocated is Ok
    &&& memory_write::<H>(reports.memory_before, reports.allocated->Ok_0, data) is Ok
}

/// The function is invoked exactly when everything before has succeeded, its input having been
/// written to the memory last: a step that fails leaves it uncalled. It is told where the input is
/// and how long it is.
pub proof fn invoked_exactly_when_ready<H>(
    method: Seq<char>,
    data: Seq<u8>,
    heap_pages: u32,
    reports: CallReports<H>,
)
    ensures
        ready(data, reports) <==> exists|i: int|
            0 <= i < course(start(method, data, heap_pages), reports).len() && pending(
                #[trigger] course(start(method, data, heap_pages), reports)[i],
            ) is Invoke,
        forall|i: int|
            0 <= i < course(start(method, data, heap_pages), reports).len() && pending(
                #[trigger] course(start(method, data, heap_pages), reports)[i],
            ) is Invoke ==> pending(course(start(method, data, heap_pages), reports)[i])
                == CallActionView::Invoke(
                method,
                seq![
                    RuntimeValue::I32(signed_word(reports.allocated->Ok_0)),
                    RuntimeValue::I32(signed_word(input_size(data))),
                ],
            ),
{
    let call = start(method, data, heap_pages);
    let course = course(call, reports);
    stages_come_in_order(call, reports);
    assert forall|i: int| 0 <= i < course.len() implies (step(#[trigger] course[i], reports)
        is Perform <==> i + 1 < course.len()) && (i + 1 < course.len() ==> step(course[i], reports)
        == CallStepView::<H>::Perform(course[i + 1], pending(course[i + 1]))) by {
        course_follows_steps(call, reports, i);
    }
    // The stages from the first to the one before the invocation, one by one.
    assert(course.len() > 1);
    assert(course.len() > 2 <==> reports.instantiated is Ok);
    assert(course.len() > 3 ==> step(course[2], reports) is Perform);
    assert(course.len() > 4 ==> step(course[3], reports) is Perform);
    assert(course.len() > 5 ==> step(course[4], reports) is Perform);
    assert(course.len() > 6 ==> step(course[5], reports) is Perform);
    assert(course.len() > 7 ==> step(course[6], reports) is Perform);
    assert(course.len() > 8 ==> step(course[7], reports) is Perform);
    assert(course.len() > 9 ==> step(course[8], reports) is Perform);
    assert(course.len() > 9 <==> ready(data, reports));
    if course.len() > 9 {
        assert(pending(course[9]) is Invoke);
    }
}

/// A run goes on after one of its calls if a step follows on it, and then with that step.
proof fn course_follows_steps<H>(call: CallView, reports: CallReports<H>, i: int)
    requires
        0 <= i < course(call, reports).len(),
    ensures
        step(course(call, reports)[i], reports) is Perform <==> i + 1 < course(call, reports).len(),
        i + 1 < course(call, reports).len() ==> step(course(call, reports)[i], reports)
            == CallStepView::<H>::Perform(
            course(call, reports)[i + 1],
            pending(course(call, reports)[i + 1]),
        ),
    decreases i,
{
    step_goes_on(call, reports);
    if let CallStepView::Perform(followed, _) = step(call, reports) {
        stages_come_in_order(followed, reports);
        if i > 0 {
            course_follows_steps(followed, reports, i - 1);
        }
    }
}

/// When the function was invoked and has ended, by itself or by a trap, the host functions do not
/// keep their executor state: the very next thing that the host is told is to take it away.
pub proof fn env_is_left_after_invocation<H>(call: CallView, reports: CallReports<H>, i: int)
    requires
        0 <= i < course(call, reports).len(),
        pending(course(call, reports)[i]) is Invoke,
        reports.invoked is Ok,
    ensures
        i + 1 < course(call, reports).len(),
        pending(course(call, reports)[i + 1]) == CallActionView::ResetEnvState(None),
    decreases 13 - stages_before(call.stage),
{
    step_goes_on(call, reports);
    if let CallStepView::Perform(followed, _) = step(call, reports) {
        stages_come_in_order(followed, reports);
        if i > 0 {
            env_is_left_after_invocation(followed, reports, i - 1);
        }
    }
}

/// A call grows the memory of the guest by the heap pages of its runtime, and by no more than the
/// memory has room for.
pub proof fn memory_grows_within_limit<H>(
    runtime: RuntimeView,
    method: Seq<char>,
    data: Seq<u8>,
    reports: CallReports<H>,
    i: int,
)
    requires
        runtime.heap_fits(),
        0 <= i < course(start(method, data, runtime.heap_pages), reports).len(),
    ensures
        pending(course(start(method, data, runtime.heap_pages), reports)[i]) matches
            CallActionView::GrowMemory(pages) ==> {
            &&& pages == runtime.heap_pages
            &&& runtime.max_heap_pages matches Some(max) ==> pages <= max
        },
{
    stages_come_in_order(start(method, data, runtime.heap_pages), reports);
}

/// The report that the host gives at a stage, where it is one that [`CallMethod::advance`] takes.
///
/// [`CallMethod::advance`]: crate::call::CallMethod::advance
pub open spec fn report_at<H>(stage: CallStageView, reports: CallReports<H>) -> CallEventView<H> {
    match stage {
        CallStageView::ClearGlobals => CallEventView::GlobalsCleared,
        CallStageView::Instantiate => CallEventView::Instantiated(reports.instantiated),
        CallStageView::FindMemoryToGrow => CallEventView::Export(reports.memory_to_grow),
        CallStageView::GrowMemory => CallEventView::MemoryGrown(reports.memory_grown),
        CallStageView::FindHeapBase => CallEventView::Export(reports.heap_base),
        CallStageView::EnterEnv(_) => CallEventView::EnvStateReset(reports.env_entered),
        CallStageView::FindExecutor => CallEventView::Executor(reports.executor),
        CallStageView::FindInputMemory => CallEventView::Export(reports.input_memory),
        CallStageView::Invoke(_) => CallEventView::Invoked(reports.invoked),
        CallStageView::LeaveEnv(_) => CallEventView::EnvStateReset(reports.env_left),
        CallStageView::FindOutputMemory(_, _) => CallEventView::Export(reports.output_memory),
        _ => arbitrary(),
    }
}

/// Whatever a host reports on what it was told to do is taken: an allocation and a memory to read
/// by the functions that are there for them, everything else as an event.
pub proof fn every_report_is_taken<H>(call: CallView, reports: CallReports<H>)
    ensures
        pending(call) is Allocate <==> call.stage is InjectInputData,
        pending(call) is ReadMemory <==> call.stage is ReadOutput,
        !(pending(call) is Allocate) && !(pending(call) is ReadMemory) ==> {
            &&& answers(call.stage, report_at(call.stage, reports))
            &&& step(call, reports) == next(call, report_at(call.stage, reports))
        },
{
}

/// How many things the host may still be told.
pub open spec fn remaining<H>(step: CallStepView<H>) -> nat {
    match step {
        CallStepView::Perform(call, _) => (13 - stages_before(call.stage)) as nat,
        CallStepView::Finished(_) => 0,
    }
}

/// All that the host is told from a step on, in order.
pub open spec fn told<H>(from: CallStepView<H>, reports: CallReports<H>) -> Seq<CallActionView>
    decreases remaining(from),
{
    match from {
        CallStepView::Perform(call, action) => {
            proof {
                step_goes_on(call, reports);
            }
            seq![action] + told(step(call, reports), reports)
        },
        CallStepView::Finished(_) => seq![],
    }
}

/// What a call comes to from a step on.
pub open spec fn comes_to<H>(from: CallStepView<H>, reports: CallReports<H>) -> Result<
    Seq<u8>,
    ErrorView<H>,
> {
    match from {
        CallStepView::Perform(call, _) => run(call, reports),
        CallStepView::Finished(result) => result,
    }
}

/// The host is told what the calls of a run ask for.
proof fn told_by_course<H>(call: CallView, reports: CallReports<H>)
    ensures
        told(CallStepView::Perform(call, pending(call)), reports) == course(
            call,
            reports,
        ).map_values(|call: CallView| pending(call)),
    decreases 13 - stages_before(call.stage),
{
    let asked = |call: CallView| pending(call);
    step_goes_on(call, reports);
    match step(call, reports) {
        CallStepView::Perform(followed, _) => {
            told_by_course(followed, reports);
            let rest = course(followed, reports);
            assert((seq![call] + rest).map_values(asked) =~= seq![pending(call)] + rest.map_values(
                asked,
            ));
        },
        CallStepView::Finished(result) => {
            assert(told(CallStepView::<H>::Finished(result), reports) =~= seq![]);
            assert(seq![call].map_values(asked) =~= seq![pending(call)] + seq![]);
        },
    }
}

/// How far a call gets: the host is told one thing more for each report that is a success, up to
/// thirteen things.
#[verifier::spinoff_prover]
#[verifier::rlimit(40)]
pub proof fn host_is_told_until_failure<H>(
    runtime: RuntimeView,
    method: Seq<char>,
    data: Seq<u8>,
    reports: CallReports<H>,
)
    ensures
        ({
            let told = told(begin::<H>(runtime, method, data), reports).len();
            &&& 2 <= told <= 13
            &&& told > 2 <==> reports.instantiated is Ok
            &&& told > 3 <==> told > 2 && reports.memory_to_grow == Some(InstanceExport::Memory)
            &&& told > 4 <==> told > 3 && reports.memory_grown is Some
            &&& told > 5 <==> told > 4 && (reports.heap_base matches Some(
                InstanceExport::Global(GlobalType::I32, _),
            ))
            &&& told > 6 <==> told > 5 && reports.env_entered is Reset
            &&& told > 7 <==> told > 6 && reports.executor is Found
            &&& told > 8 <==> told > 7 && reports.input_memory == Some(InstanceExport::Memory)
            &&& told > 9 <==> told > 8 && (reports.allocated matches Ok(address) && address
                + data.len() <= reports.memory_before.len())
            &&& told > 10 <==> told > 9 && reports.invoked is Ok
            &&& told > 11 <==> told > 10 && reports.env_left is Reset && (
            reports.invoked matches Ok(ActionOutcomeView::Returned(values)) && values.len() == 1
                && values[0] is I64)
            &&& told > 12 <==> told > 11 && reports.output_memory == Some(InstanceExport::Memory)
        }),
{
    let call = start(method, data, runtime.heap_pages);
    let course = course(call, reports);
    told_by_course(call, reports);
    stages_come_in_order(call, reports);
    assert forall|i: int| 0 <= i < course.len() implies (step(#[trigger] course[i], reports)
        is Perform <==> i + 1 < course.len()) && (i + 1 < course.len() ==> step(course[i], reports)
        == CallStepView::<H>::Perform(course[i + 1], pending(course[i + 1]))) by {
        course_follows_steps(call, reports, i);
    }
    // One stage after the other.
    assert(course.len() > 1);
    assert(course.len() > 2 <==> reports.instantiated is Ok);
    assert(course.len() > 3 ==> step(course[2], reports) is Perform);
    assert(course.len() > 4 ==> step(course[3], reports) is Perform);
    assert(course.len() > 5 ==> step(course[4], reports) is Perform);
    assert(course.len() > 6 ==> step(course[5], reports) is Perform);
    assert(course.len() > 7 ==> step(course[6], reports) is Perform);
    assert(course.len() > 8 ==> step(course[7], reports) is Perform);
    assert(course.len() > 9 ==> step(course[8], reports) is Perform);
    assert(course.len() > 10 ==> step(course[9], reports) is Perform);
    assert(course.len() > 10 ==> course[10].stage == CallStageView::LeaveEnv(
        reports.invoked->Ok_0,
    ));
    assert(course.len() > 11 ==> step(course[10], reports) is Perform);
    assert(course.len() > 12 ==> step(course[11], reports) is Perform);
}

/// What the host is told in a call, thing by thing, as far as the call gets. What depends on what
/// was asked for and on earlier reports is handed on as it is: the heap pages of the runtime, the
/// base of the heap, the length of the input, the name of the function and where its input is.
#[verifier::spinoff_prover]
pub proof fn host_is_told_in_this_order<H>(
    runtime: RuntimeView,
    method: Seq<char>,
    data: Seq<u8>,
    reports: CallReports<H>,
)
    ensures
        ({
            let told = told(begin::<H>(runtime, method, data), reports);
            &&& told[0] == CallActionView::ClearGlobals
            &&& told[1] == CallActionView::Instantiate
            &&& told.len() > 2 ==> told[2] == CallActionView::LookUp("memory"@)
            &&& told.len() > 3 ==> told[3] == CallActionView::GrowMemory(runtime.heap_pages)
            &&& told.len() > 4 ==> told[4] == CallActionView::LookUp("__heap_base"@)
            &&& told.len() > 5 ==> (reports.heap_base matches Some(
                InstanceExport::Global(GlobalType::I32, heap_base),
            ) && told[5] == CallActionView::ResetEnvState(Some(heap_base)))
            &&& told.len() > 6 ==> told[6] == CallActionView::FindExecutor
            &&& told.len() > 7 ==> told[7] == CallActionView::LookUp("memory"@)
            &&& told.len() > 8 ==> (told[8] matches CallActionView::Allocate(size) && size
                == data.len() % 0x1_0000_0000)
            &&& told.len() > 9 ==> (told[9] matches CallActionView::Invoke(name, args) && {
                &&& name == method
                &&& args.len() == 2
                &&& args[0] matches RuntimeValue::I32(address) && (address as int) % 0x1_0000_0000
                    == reports.allocated->Ok_0
                &&& args[1] matches RuntimeValue::I32(length) && (length as int) % 0x1_0000_0000
                    == data.len() % 0x1_0000_0000
            })
            &&& told.len() > 10 ==> told[10] == CallActionView::ResetEnvState(None)
            &&& told.len() > 11 ==> told[11] == CallActionView::LookUp("memory"@)
            &&& told.len() > 12 ==> told[12] == CallActionView::ReadMemory
        }),
{
    let call = start(method, data, runtime.heap_pages);
    let course = course(call, reports);
    told_by_course(call, reports);
    host_is_told_until_failure(runtime, method, data, reports);
    stages_come_in_order(call, reports);
    if course.len() > 5 {
        course_follows_steps(call, reports, 4);
    }
    if course.len() > 9 {
        course_follows_steps(call, reports, 8);
    }
}

/// What comes of a call that does not get to its last stage: an error that says what has failed,
/// with the whole of the reason that the host gave.
pub proof fn failure_is_what_call_comes_to<H>(
    runtime: RuntimeView,
    method: Seq<char>,
    data: Seq<u8>,
    reports: CallReports<H>,
)
    ensures
        ({
            let told = told(begin::<H>(runtime, method, data), reports).len();
            let result = comes_to(begin::<H>(runtime, method, data), reports);
            &&& told < 13 ==> result is Err
            &&& told == 2 ==> result->Err_0 == ErrorView::<H>::Other(reports.instantiated->Err_0)
            &&& told == 3 ==> result->Err_0 is InvalidMemoryReference
            &&& told == 4 ==> result->Err_0 == ErrorView::<H>::Other(
                "requested heap_pages would exceed maximum memory size"@,
            )
            &&& told == 5 ==> result->Err_0 is HeapBaseNotFoundOrInvalid
            &&& told == 6 || (told == 7 && reports.executor is NotEnv) || (told == 11
                && reports.env_left is NotEnv) ==> result->Err_0 == ErrorView::<H>::Other(
                "cannot get \"env\" module host state"@,
            )
            &&& told == 7 && reports.executor is NoExecutor ==> result->Err_0 == ErrorView::<
                H,
            >::Other("cannot get \"env\" module executor state"@)
            &&& told == 8 ==> result->Err_0 is InvalidMemoryReference
            &&& told == 9 ==> result->Err_0 == match reports.allocated {
                Ok(_) => ErrorView::Other("memory write is out of bounds"@),
                Err(error) => ErrorView::Host(error),
            }
            &&& told == 10 ==> result->Err_0 == ErrorView::<H>::Other(
                "error calling runtime: "@ + reports.invoked->Err_0,
            )
            &&& told == 11 && reports.env_left is Reset ==> result->Err_0 == match (
                reports.invoked->Ok_0,
                reports.env_left->Reset_0,
            ) {
                (ActionOutcomeView::Returned(_), _) => ErrorView::InvalidReturn,
                (ActionOutcomeView::Trapped(_), Some(error)) => ErrorView::Host(error),
                (ActionOutcomeView::Trapped(message), None) => ErrorView::Other(
                    "Wasm execution trapped: "@ + message,
                ),
            }
            &&& told == 12 ==> result->Err_0 is InvalidMemoryReference
        }),
{
    host_is_told_until_failure(runtime, method, data, reports);
    call_comes_to_result(method, data, runtime.heap_pages, reports);
}

/// What comes of a call that gets to its last stage. A function that returns the 64 bits `length`,
/// `address`, from the most significant to the least, gives the `length` bytes that its memory
/// holds from `address` on, or an error if it does not hold as many.
pub proof fn output_is_where_function_says<H>(
    runtime: RuntimeView,
    method: Seq<char>,
    data: Seq<u8>,
    reports: CallReports<H>,
    value: i64,
    address: u32,
    length: u32,
)
    requires
        told(begin::<H>(runtime, method, data), reports).len() == 13,
        reports.invoked->Ok_0->Returned_0 == seq![RuntimeValue::I64(value)],
        value == length * 0x1_0000_0000 + address || value == length * 0x1_0000_0000 + address
            - 0x1_0000_0000_0000_0000,
    ensures
        ({
            let result = comes_to(begin::<H>(runtime, method, data), reports);
            let memory = reports.memory_after;
            &&& result is Ok <==> address + length <= memory.len()
            &&& result matches Ok(output) ==> {
                &&& output.len() == length
                &&& forall|i: int|
                    0 <= i < length ==> #[trigger] output[i] == memory[address + i]
            }
            &&& result matches Err(error) ==> error == ErrorView::<H>::Other(
                "memory read is out of bounds"@,
            )
        }),
{
    host_is_told_until_failure(runtime, method, data, reports);
    call_comes_to_result(method, data, runtime.heap_pages, reports);
    returned_location_is_decoded(value, address, length);
}

/// The input is in the memory, from the address on that was allocated, before the function is
/// invoked, and the rest of the memory is left as it is. Where the input does not fit or nothing
/// was allocated, all of it is.
pub proof fn input_is_injected<H>(call: CallView, allocated: Result<u32, H>, memory: Seq<u8>)
    ensures
        ({
            let written = memory_after_injection(call, allocated, memory);
            &&& written.len() == memory.len()
            &&& match allocated {
                Ok(address) => if address + call.data.len() <= memory.len() {
                    &&& forall|i: int|
                        0 <= i < call.data.len() ==> written[address + i] == #[trigger] call.data[i]
                    &&& forall|i: int|
                        0 <= i < address || address + call.data.len() <= i < memory.len()
                            ==> #[trigger] written[i] == memory[i]
                } else {
                    written == memory
                },
                Err(_) => written == memory,
            }
        }),
{
}

/// A call of a runtime is a call with the heap pages of the runtime.
pub proof fn runtime_is_called_with_its_heap<H>(
    runtime: RuntimeView,
    method: Seq<char>,
    data: Seq<u8>,
    heap_pages: u32,
)
    ensures
        begin::<H>(runtime, method, data) == begin_call::<H>(method, data, heap_pages)
            <==> heap_pages == runtime.heap_pages,
{
}

} // verus!
