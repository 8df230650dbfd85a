use sc_executor_wasmtime::call::{
    call_method, ActionOutcome, CallAction, CallEvent, CallMethod, CallStep, EnvReset,
    ExecutorLookup, InstanceExport,
};
use sc_executor_wasmtime::error::Error;
use sc_executor_wasmtime::value::{GlobalType, RuntimeValue};

type Step = CallStep<'static, &'static str>;
type Event = CallEvent<&'static str>;

const DATA: &[u8] = b"input";
const ADDRESS: u32 = 0x20;

fn perform(step: Step) -> (CallMethod<'static>, CallAction<'static>) {
    match step {
        CallStep::Perform(call, action) => (call, action),
        CallStep::Finished(_) => panic!("the call has ended"),
    }
}

fn finished(step: Step) -> Result<Vec<u8>, Error<&'static str>> {
    match step {
        CallStep::Perform(_, _) => panic!("the call has not ended"),
        CallStep::Finished(result) => result,
    }
}

fn is_other(result: Result<Vec<u8>, Error<&'static str>>, expected: &str) -> bool {
    match result {
        Err(Error::Other(message)) => message == expected,
        _ => false,
    }
}

/// The reports of a host with which all goes well until the input is injected.
fn reports() -> Vec<Event> {
    vec![
        CallEvent::GlobalsCleared,
        CallEvent::Instantiated(Ok(())),
        CallEvent::Export(Some(InstanceExport::Memory)),
        CallEvent::MemoryGrown(Some(17)),
        CallEvent::Export(Some(InstanceExport::Global(GlobalType::I32, 0x10))),
        CallEvent::EnvStateReset(EnvReset::Reset(None)),
        CallEvent::Executor(ExecutorLookup::Found),
        CallEvent::Export(Some(InstanceExport::Memory)),
    ]
}

/// What follows when the host gives the first `count` good reports and then this one.
fn after(count: usize, event: Event) -> Step {
    let (mut call, _) = perform(call_method("Core_version", DATA, 1024));
    for report in reports().into_iter().take(count) {
        call = perform(call.advance(report)).0;
    }
    call.advance(event)
}

fn up_to_injection() -> CallMethod<'static> {
    perform(after(7, CallEvent::Export(Some(InstanceExport::Memory)))).0
}

fn up_to_invocation() -> CallMethod<'static> {
    let mut memory = [0; 0x40];
    perform(up_to_injection().inject_input_data(Ok(ADDRESS), &mut memory)).0
}

fn after_outcome(outcome: ActionOutcome, trap: Option<&'static str>) -> Step {
    let (call, action) = perform(up_to_invocation().advance(CallEvent::Invoked(Ok(outcome))));
    assert!(matches!(action, CallAction::ResetEnvState(None)));
    call.advance(CallEvent::EnvStateReset(EnvReset::Reset(trap)))
}

fn after_return(values: Vec<RuntimeValue>) -> Step {
    after_outcome(ActionOutcome::Returned(values), None)
}

#[test]
fn the_host_is_told_what_to_do_in_order() {
    let (mut call, action) = perform(call_method("Core_version", DATA, 1024));
    let mut actions = vec![format!("{:?}", action)];
    for report in reports() {
        let (next, action) = perform(call.advance(report));
        actions.push(format!("{:?}", action));
        call = next;
    }
    assert_eq!(
        actions,
        vec![
            "ClearGlobals",
            "Instantiate",
            "LookUp(\"memory\")",
            "GrowMemory(1024)",
            "LookUp(\"__heap_base\")",
            "ResetEnvState(Some(16))",
            "FindExecutor",
            "LookUp(\"memory\")",
            "Allocate(5)",
        ]
    );
}

#[test]
fn the_input_is_written_and_the_function_told_where_it_is() {
    let mut memory = [0xaa; 0x40];
    let step: Step = up_to_injection().inject_input_data(Ok(ADDRESS), &mut memory);
    match perform(step).1 {
        CallAction::Invoke(method, args) => {
            assert_eq!(method, "Core_version");
            assert_eq!(args, [RuntimeValue::I32(0x20), RuntimeValue::I32(5)]);
        }
        _ => panic!("the function is to be invoked"),
    }
    assert_eq!(&memory[0x20..0x25], DATA);
    assert_eq!(memory[..0x20], [0xaa; 0x20]);
    assert_eq!(memory[0x25..], [0xaa; 0x1b]);
}

#[test]
fn the_output_is_what_the_memory_holds_where_the_function_says() {
    let step = after_return(vec![RuntimeValue::I64(0x0000_0003_0000_0002)]);
    let (call, action) = perform(step);
    assert!(matches!(action, CallAction::LookUp("memory")));
    let (call, action) = perform(call.advance(CallEvent::Export(Some(InstanceExport::Memory))));
    assert!(matches!(action, CallAction::ReadMemory));
    assert_eq!(finished(call.read_output(&[9, 8, 7, 6, 5, 4])).unwrap(), vec![7, 6, 5]);
}

#[test]
fn a_function_that_returns_its_input_gives_it_back() {
    let mut memory = [0; 0x40];
    let step: Step = up_to_injection().inject_input_data(Ok(ADDRESS), &mut memory);
    let returned = ActionOutcome::Returned(vec![RuntimeValue::I64(0x0000_0005_0000_0020)]);
    let (call, _) = perform(perform(step).0.advance(CallEvent::Invoked(Ok(returned))));
    let reset = CallEvent::EnvStateReset(EnvReset::Reset(None));
    let (call, _) = perform(call.advance(reset));
    let (call, _) = perform(call.advance(CallEvent::Export(Some(InstanceExport::Memory))));
    assert_eq!(finished(call.read_output(&memory)).unwrap(), DATA.to_vec());
}

#[test]
fn an_output_outside_of_the_memory_is_an_error() {
    let (call, _) = perform(after_return(vec![RuntimeValue::I64(0x0000_0003_0000_0004)]));
    let (call, _) = perform(call.advance(CallEvent::Export(Some(InstanceExport::Memory))));
    let result = finished(call.read_output(&[9, 8, 7, 6, 5, 4]));
    assert!(is_other(result, "memory read is out of bounds"));
}

#[test]
fn an_empty_output_is_no_error() {
    let (call, _) = perform(after_return(vec![RuntimeValue::I64(0)]));
    let (call, _) = perform(call.advance(CallEvent::Export(Some(InstanceExport::Memory))));
    assert_eq!(finished(call.read_output(&[])).unwrap(), Vec::<u8>::new());
}

#[test]
fn anything_but_one_i64_is_an_invalid_return() {
    let invalid = vec![
        vec![],
        vec![RuntimeValue::I32(0)],
        vec![RuntimeValue::F32(0)],
        vec![RuntimeValue::F64(0)],
        vec![RuntimeValue::V128([0; 16])],
        vec![RuntimeValue::I64(0), RuntimeValue::I64(0)],
    ];
    for values in invalid {
        assert!(matches!(finished(after_return(values)), Err(Error::InvalidReturn)));
    }
}

#[test]
fn a_trap_is_an_error() {
    let outcome = ActionOutcome::Trapped("unreachable".to_string());
    let result = finished(after_outcome(outcome, None));
    assert!(is_other(result, "Wasm execution trapped: unreachable"));
}

#[test]
fn the_error_of_a_host_function_comes_before_the_trap() {
    let outcome = ActionOutcome::Trapped("unreachable".to_string());
    let result = finished(after_outcome(outcome, Some("storage is gone")));
    assert!(matches!(result, Err(Error::Host("storage is gone"))));
}

#[test]
fn the_error_of_a_host_function_is_dropped_when_the_function_returns() {
    let outcome = ActionOutcome::Returned(vec![RuntimeValue::I64(0)]);
    let (_, action) = perform(after_outcome(outcome, Some("storage is gone")));
    assert!(matches!(action, CallAction::LookUp("memory")));
}

#[test]
fn a_function_that_cannot_be_invoked_is_an_error() {
    let event = CallEvent::Invoked(Err("Unknown field: no export named \"f\"".to_string()));
    let result = finished(up_to_invocation().advance(event));
    assert!(is_other(result, "error calling runtime: Unknown field: no export named \"f\""));
}

#[test]
fn a_guest_that_cannot_be_instantiated_is_an_error() {
    let step = after(1, CallEvent::Instantiated(Err("Insufficient resources".to_string())));
    assert!(is_other(finished(step), "Insufficient resources"));
}

#[test]
fn a_memory_that_is_not_exported_is_an_error() {
    let others = [
        None,
        Some(InstanceExport::Function),
        Some(InstanceExport::Table),
        Some(InstanceExport::Global(GlobalType::I32, 4)),
        Some(InstanceExport::Global(GlobalType::I64, 4)),
    ];
    for export in others.iter() {
        for count in [2, 7].iter() {
            let result = finished(after(*count, CallEvent::Export(*export)));
            assert!(matches!(result, Err(Error::InvalidMemoryReference)));
        }
        let (call, _) = perform(after_return(vec![RuntimeValue::I64(0)]));
        let result = finished(call.advance(CallEvent::Export(*export)));
        assert!(matches!(result, Err(Error::InvalidMemoryReference)));
    }
}

#[test]
fn a_memory_that_cannot_grow_is_an_error() {
    let result = finished(after(3, CallEvent::MemoryGrown(None)));
    assert!(is_other(result, "requested heap_pages would exceed maximum memory size"));
}

#[test]
fn a_heap_base_that_is_no_i32_global_is_an_error() {
    let others = [
        None,
        Some(InstanceExport::Function),
        Some(InstanceExport::Table),
        Some(InstanceExport::Memory),
        Some(InstanceExport::Global(GlobalType::I64, 4)),
        Some(InstanceExport::Global(GlobalType::F32, 4)),
        Some(InstanceExport::Global(GlobalType::F64, 4)),
        Some(InstanceExport::Global(GlobalType::Other, 4)),
    ];
    for export in others.iter() {
        let result = finished(after(4, CallEvent::Export(*export)));
        assert!(matches!(result, Err(Error::HeapBaseNotFoundOrInvalid)));
    }
}

#[test]
fn an_instance_that_is_not_env_is_an_error() {
    let expected = "cannot get \"env\" module host state";
    let result = finished(after(5, CallEvent::EnvStateReset(EnvReset::NotEnv)));
    assert!(is_other(result, expected));
    let result = finished(after(6, CallEvent::Executor(ExecutorLookup::NotEnv)));
    assert!(is_other(result, expected));
    let returned = ActionOutcome::Returned(vec![RuntimeValue::I64(0)]);
    let (call, _) = perform(up_to_invocation().advance(CallEvent::Invoked(Ok(returned))));
    let result = finished(call.advance(CallEvent::EnvStateReset(EnvReset::NotEnv)));
    assert!(is_other(result, expected));
}

#[test]
fn a_missing_executor_state_is_an_error() {
    let result = finished(after(6, CallEvent::Executor(ExecutorLookup::NoExecutor)));
    assert!(is_other(result, "cannot get \"env\" module executor state"));
}

#[test]
fn an_allocation_that_fails_is_an_error_and_writes_nothing() {
    let mut memory = [0xaa; 0x40];
    let result = finished(up_to_injection().inject_input_data(Err("out of space"), &mut memory));
    assert!(matches!(result, Err(Error::Host("out of space"))));
    assert_eq!(memory, [0xaa; 0x40]);
}

#[test]
fn an_input_that_does_not_fit_is_an_error_and_writes_nothing() {
    let mut memory = [0xaa; 0x24];
    let result = finished(up_to_injection().inject_input_data(Ok(ADDRESS), &mut memory));
    assert!(is_other(result, "memory write is out of bounds"));
    assert_eq!(memory, [0xaa; 0x24]);
}
