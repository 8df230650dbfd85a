use cranelift_entity::EntityRef;
use cranelift_wasm::{FuncIndex, Memory, MemoryIndex};
use sc_executor_wasmtime::call::{CallAction, CallEvent, CallStep, InstanceExport};
use sc_executor_wasmtime::creation::{
    create_instance, exported_memory_is_planned, CreateInstance, CreationAction, CreationEvent,
    CreationStep,
};
use sc_executor_wasmtime::error::WasmError;
use sc_executor_wasmtime::resolver::RuntimeInterfaceResolver;
use sc_executor_wasmtime::runtime::WasmtimeRuntime;
use sc_executor_wasmtime::value::{FunctionSignature, HostFunction, ValueType};
use wasmtime_environ::{Export, MemoryPlan, MemoryStyle, Module};

const CODE: &[u8] = b"\0asm";

fn module_with_memories(sizes: &[(u32, Option<u32>)]) -> Module {
    let mut module = Module::new();
    for (minimum, maximum) in sizes.iter() {
        module.memory_plans.push(MemoryPlan {
            memory: Memory { minimum: *minimum, maximum: *maximum, shared: false },
            style: MemoryStyle::Dynamic,
            offset_guard_size: 0,
        });
    }
    module
}

fn module_with_memory(minimum: u32, maximum: Option<u32>) -> Module {
    let mut module = module_with_memories(&[(minimum, maximum)]);
    module.exports.insert("memory".to_string(), Export::Memory(MemoryIndex::new(0)));
    module
}

fn begin(heap_pages: u64, enable_stub: bool) -> CreationStep<'static, &'static str> {
    let function = HostFunction {
        name: "ext_malloc".to_string(),
        signature: FunctionSignature {
            args: vec![ValueType::I32],
            return_value: Some(ValueType::I32),
        },
    };
    create_instance(CODE, heap_pages, vec![function], enable_stub)
}

fn perform(
    step: CreationStep<'static, &'static str>,
) -> (CreateInstance<'static>, CreationAction<'static>) {
    match step {
        CreationStep::Perform(creation, action) => (creation, action),
        CreationStep::Finished(_) => panic!("the creation has ended"),
    }
}

fn finished(
    step: CreationStep<'static, &'static str>,
) -> Result<WasmtimeRuntime, WasmError<&'static str>> {
    match step {
        CreationStep::Perform(_, _) => panic!("the creation has not ended"),
        CreationStep::Finished(result) => result,
    }
}

fn up_to_compilation(
    heap_pages: u64,
    enable_stub: bool,
) -> (CreateInstance<'static>, RuntimeInterfaceResolver) {
    let (creation, action) = perform(begin(heap_pages, enable_stub));
    assert!(matches!(action, CreationAction::NewCompiler));
    let (creation, action) = perform(creation.advance(CreationEvent::Compiler(Ok(()))));
    assert!(matches!(action, CreationAction::InstantiateEnvModule));
    let (creation, action) = perform(creation.advance(CreationEvent::EnvInstance(Ok(()))));
    assert!(matches!(action, CreationAction::NewCompiler));
    let (creation, action) = perform(creation.advance(CreationEvent::Compiler(Ok(()))));
    match action {
        CreationAction::CreateCompiledUnit(code, resolver) => {
            assert_eq!(code, CODE);
            (creation, resolver)
        }
        _ => panic!("the guest is to be compiled"),
    }
}

fn create(heap_pages: u64, module: &Module) -> Result<WasmtimeRuntime, WasmError<&'static str>> {
    let (creation, resolver) = up_to_compilation(heap_pages, false);
    finished(creation.advance(CreationEvent::CompiledUnit(Ok((module, resolver)))))
}

#[test]
fn a_guest_with_memory_becomes_a_runtime() {
    let runtime = create(1000, &module_with_memory(20, Some(1020))).unwrap();
    assert_eq!(runtime.heap_pages(), 1000);
    assert!(!runtime.enable_stub());
    assert_eq!(runtime.host_functions().len(), 1);
    assert_eq!(runtime.host_functions()[0].name, "ext_malloc");
    assert!(runtime.missing_functions().is_empty());
}

#[test]
fn more_pages_than_the_memory_has_room_for_are_an_error() {
    let result = create(1001, &module_with_memory(20, Some(1020)));
    assert!(matches!(result, Err(WasmError::InvalidHeapPages)));
    let result = create(1, &module_with_memory(20, Some(10)));
    assert!(matches!(result, Err(WasmError::InvalidHeapPages)));
    let result = create(0x1_0000_0000, &module_with_memory(20, None));
    assert!(matches!(result, Err(WasmError::InvalidHeapPages)));
}

#[test]
fn a_memory_without_maximum_takes_any_number_of_pages() {
    let runtime = create(u32::MAX as u64, &module_with_memory(20, None)).unwrap();
    assert_eq!(runtime.heap_pages(), u32::MAX);
}

#[test]
fn a_guest_without_exported_memory_is_an_error() {
    let result = create(0, &module_with_memories(&[(1, None)]));
    assert!(matches!(result, Err(WasmError::InvalidMemory)));
    let mut module = module_with_memories(&[(1, None)]);
    module.exports.insert("mem".to_string(), Export::Memory(MemoryIndex::new(0)));
    assert!(matches!(create(0, &module), Err(WasmError::InvalidMemory)));
}

#[test]
fn an_export_named_memory_that_is_none_is_an_error() {
    let mut module = module_with_memories(&[(1, None)]);
    module.exports.insert("memory".to_string(), Export::Function(FuncIndex::new(0)));
    assert!(matches!(create(0, &module), Err(WasmError::InvalidMemory)));
}

#[test]
fn the_exported_memory_is_found_by_its_index() {
    let mut module = module_with_memories(&[(1, Some(1)), (2, Some(7)), (3, Some(3))]);
    module.exports.insert("memory".to_string(), Export::Memory(MemoryIndex::new(1)));
    assert_eq!(create(5, &module).unwrap().heap_pages(), 5);
    assert!(matches!(create(6, &module), Err(WasmError::InvalidHeapPages)));
}

#[test]
fn the_functions_that_were_missing_are_listed() {
    let (creation, mut resolver) = up_to_compilation(3, true);
    resolver.resolve("env", "ext_malloc", true);
    resolver.resolve("env", "ext_lost", false);
    resolver.resolve("env", "ext_found", false);
    let module = module_with_memory(1, None);
    let event = CreationEvent::CompiledUnit(Ok((&module, resolver)));
    let runtime = finished(creation.advance(event)).unwrap();
    assert!(runtime.enable_stub());
    assert_eq!(runtime.missing_functions(), &vec!["ext_lost", "ext_found"]);
}

#[test]
fn no_function_is_listed_without_stubs() {
    let (creation, mut resolver) = up_to_compilation(3, false);
    resolver.resolve("env", "ext_lost", false);
    let module = module_with_memory(1, None);
    let event = CreationEvent::CompiledUnit(Ok((&module, resolver)));
    assert!(finished(creation.advance(event)).unwrap().missing_functions().is_empty());
}

#[test]
fn a_compiler_that_is_missing_for_env_is_an_error() {
    let (creation, _) = perform(begin(0, false));
    let event = CreationEvent::Compiler(Err("SSE2 is required".to_string()));
    match finished(creation.advance(event)) {
        Err(WasmError::Other(message)) => {
            assert_eq!(message, "missing compiler support: SSE2 is required")
        }
        _ => panic!("there is no compiler"),
    }
}

#[test]
fn an_env_module_without_instance_is_an_error() {
    let (creation, _) = perform(begin(0, false));
    let (creation, _) = perform(creation.advance(CreationEvent::Compiler(Ok(()))));
    assert_eq!(creation.host_functions().len(), 1);
    let event = CreationEvent::EnvInstance(Err(WasmError::Host("no code")));
    match finished(creation.advance(event)) {
        Err(WasmError::Host(error)) => assert_eq!(error, "no code"),
        _ => panic!("there is no instance"),
    }
}

#[test]
fn a_compiler_that_is_missing_for_the_guest_is_an_error() {
    let (creation, _) = perform(begin(0, false));
    let (creation, _) = perform(creation.advance(CreationEvent::Compiler(Ok(()))));
    let (creation, _) = perform(creation.advance(CreationEvent::EnvInstance(Ok(()))));
    let event = CreationEvent::Compiler(Err("gone".to_string()));
    match finished(creation.advance(event)) {
        Err(WasmError::Other(message)) => assert_eq!(message, "missing compiler support: gone"),
        _ => panic!("there is no compiler"),
    }
}

#[test]
fn code_that_does_not_compile_is_an_error() {
    let (creation, _) = up_to_compilation(0, false);
    let event = CreationEvent::CompiledUnit(Err("bad magic".to_string()));
    match finished(creation.advance(event)) {
        Err(WasmError::Other(message)) => assert_eq!(message, "boo: bad magic"),
        _ => panic!("the code does not compile"),
    }
}

#[test]
fn heap_pages_can_be_updated_within_the_limit() {
    let mut runtime = create(10, &module_with_memory(20, Some(120))).unwrap();
    assert!(runtime.update_heap_pages(100));
    assert_eq!(runtime.heap_pages(), 100);
    assert!(runtime.update_heap_pages(0));
    assert_eq!(runtime.heap_pages(), 0);
}

#[test]
fn a_refused_update_changes_nothing() {
    let mut runtime = create(10, &module_with_memory(20, Some(120))).unwrap();
    assert!(!runtime.update_heap_pages(101));
    assert_eq!(runtime.heap_pages(), 10);
    assert!(!runtime.update_heap_pages(0x1_0000_0000));
    assert_eq!(runtime.heap_pages(), 10);
    assert_eq!(runtime.host_functions().len(), 1);
}

#[test]
fn a_call_grows_the_memory_by_the_pages_that_were_accepted_last() {
    let mut runtime = create(10, &module_with_memory(20, Some(120))).unwrap();
    assert!(runtime.update_heap_pages(90));
    assert!(!runtime.update_heap_pages(101));
    let mut step: CallStep<()> = runtime.call("Core_version", b"");
    for report in vec![
        CallEvent::GlobalsCleared,
        CallEvent::Instantiated(Ok(())),
        CallEvent::Export(Some(InstanceExport::Memory)),
    ] {
        step = match step {
            CallStep::Perform(call, _) => call.advance(report),
            CallStep::Finished(_) => panic!("the call has ended"),
        };
    }
    assert!(matches!(step, CallStep::Perform(_, CallAction::GrowMemory(90))));
}

#[test]
fn an_exported_memory_has_to_be_one_that_the_module_holds() {
    assert!(exported_memory_is_planned(&module_with_memory(1, None)));
    assert!(exported_memory_is_planned(&Module::new()));

    let mut module = module_with_memories(&[(1, None), (2, None)]);
    module.exports.insert("memory".to_string(), Export::Memory(MemoryIndex::new(1)));
    assert!(exported_memory_is_planned(&module));
    module.exports.insert("memory".to_string(), Export::Memory(MemoryIndex::new(2)));
    assert!(!exported_memory_is_planned(&module));
    module.exports.insert("memory".to_string(), Export::Function(FuncIndex::new(2)));
    assert!(exported_memory_is_planned(&module));
}
