use sc_executor_wasmtime::call::{
    call_method, ActionOutcome, CallAction, CallEvent, CallStep, EnvReset, ExecutorLookup,
    InstanceExport,
};
use sc_executor_wasmtime::error::Error;
use sc_executor_wasmtime::value::{GlobalType, RuntimeValue};

/// A host whose guest counts its calls in the first byte of its memory and returns what the memory
/// holds from there to the end of its input.
struct Host {
    memory: Vec<u8>,
    executor: Option<u32>,
    trap: Option<&'static str>,
    invocations: u32,
    can_allocate: bool,
}

impl Host {
    fn new() -> Host {
        Host {
            memory: Vec::new(),
            executor: None,
            trap: None,
            invocations: 0,
            can_allocate: true,
        }
    }

    fn invoke(&mut self, method: &str, args: [RuntimeValue; 2]) -> ActionOutcome {
        self.invocations += 1;
        self.memory[0] += 1;
        match (method, args) {
            ("count", [RuntimeValue::I32(address), RuntimeValue::I32(length)]) => {
                let value = i64::from(address + length) << 32;
                ActionOutcome::Returned(vec![RuntimeValue::I64(value)])
            }
            _ => ActionOutcome::Trapped("unreachable".to_string()),
        }
    }

    fn call(&mut self, method: &str, data: &[u8]) -> Result<Vec<u8>, Error<&'static str>> {
        let mut step = call_method(method, data, 1);
        loop {
            let (call, action) = match step {
                CallStep::Perform(call, action) => (call, action),
                CallStep::Finished(result) => return result,
            };
            step = match action {
                CallAction::ClearGlobals => call.advance(CallEvent::GlobalsCleared),
                CallAction::Instantiate => {
                    self.memory = vec![0; 8];
                    call.advance(CallEvent::Instantiated(Ok(())))
                }
                CallAction::LookUp("memory") => {
                    call.advance(CallEvent::Export(Some(InstanceExport::Memory)))
                }
                CallAction::LookUp(_) => {
                    let heap_base = InstanceExport::Global(GlobalType::I32, 4);
                    call.advance(CallEvent::Export(Some(heap_base)))
                }
                CallAction::GrowMemory(pages) => {
                    self.memory.resize(8 + 8 * pages as usize, 0);
                    call.advance(CallEvent::MemoryGrown(Some(1)))
                }
                CallAction::ResetEnvState(heap_base) => {
                    self.executor = heap_base;
                    call.advance(CallEvent::EnvStateReset(EnvReset::Reset(self.trap.take())))
                }
                CallAction::FindExecutor => call.advance(CallEvent::Executor(
                    match self.executor {
                        Some(_) => ExecutorLookup::Found,
                        None => ExecutorLookup::NoExecutor,
                    },
                )),
                CallAction::Allocate(size) => {
                    let address = self.executor.unwrap();
                    self.executor = Some(address + size);
                    let allocated = if self.can_allocate { Ok(address) } else { Err("no space") };
                    call.inject_input_data(allocated, &mut self.memory)
                }
                CallAction::Invoke(method, args) => {
                    let outcome = self.invoke(method, args);
                    call.advance(CallEvent::Invoked(Ok(outcome)))
                }
                CallAction::ReadMemory => call.read_output(&self.memory),
            };
        }
    }
}

#[test]
fn a_repeated_call_gives_the_same_output() {
    let mut host = Host::new();
    assert_eq!(host.call("count", b"ab").unwrap(), [1, 0, 0, 0, b'a', b'b']);
    assert_eq!(host.call("count", b"ab").unwrap(), [1, 0, 0, 0, b'a', b'b']);
    assert_eq!(host.call("count", b"xyz").unwrap(), [1, 0, 0, 0, b'x', b'y', b'z']);
    assert_eq!(host.call("count", b"ab").unwrap(), [1, 0, 0, 0, b'a', b'b']);
    assert_eq!(host.invocations, 4);
}

#[test]
fn a_repeated_call_gives_the_same_trap() {
    let mut host = Host::new();
    for _ in 0..2 {
        match host.call("trap", b"ab") {
            Err(Error::Other(message)) => {
                assert_eq!(message, "Wasm execution trapped: unreachable")
            }
            _ => panic!("the function traps"),
        }
        assert_eq!(host.executor, None);
    }
}

#[test]
fn an_error_left_behind_by_an_earlier_call_is_not_seen() {
    let mut host = Host::new();
    host.trap = Some("left behind");
    match host.call("trap", b"ab") {
        Err(Error::Other(message)) => assert_eq!(message, "Wasm execution trapped: unreachable"),
        _ => panic!("the function traps"),
    }
}

#[test]
fn a_failed_step_leaves_the_function_uncalled() {
    let mut host = Host::new();
    host.can_allocate = false;
    assert!(matches!(host.call("count", b"ab"), Err(Error::Host("no space"))));
    assert_eq!(host.invocations, 0);
    host.can_allocate = true;
    assert!(matches!(host.call("count", &[0; 13]), Err(Error::Other(_))));
    assert_eq!(host.invocations, 0);
    assert!(host.call("count", &[0; 12]).is_ok());
    assert_eq!(host.invocations, 1);
}
