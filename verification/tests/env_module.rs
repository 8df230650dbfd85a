use cranelift_codegen::ir::{self, types, ArgumentPurpose};
use cranelift_codegen::isa;
use cranelift_entity::EntityRef;
use sc_executor_wasmtime::env_module::{
    env_instantiated, instantiate_env_module, target_isa, EnvModule, TargetIsa,
};
use sc_executor_wasmtime::error::WasmError;
use sc_executor_wasmtime::module::{CallConv, PointerWidth};
use sc_executor_wasmtime::resolver::{Resolution, RuntimeInterfaceResolver};
use sc_executor_wasmtime::value::{FunctionSignature, HostFunction, ValueType};
use wasmtime_environ::{Export, Module};

const ISA: TargetIsa = TargetIsa {
    call_conv: CallConv::SystemV,
    pointer_width: PointerWidth::U64,
};

fn function(name: &str, args: Vec<ValueType>, return_value: Option<ValueType>) -> HostFunction {
    HostFunction { name: name.to_string(), signature: FunctionSignature { args, return_value } }
}

fn begin(functions: Vec<HostFunction>, isa: TargetIsa) -> EnvModule {
    let env: Result<EnvModule, WasmError<()>> = instantiate_env_module(&functions, Ok(isa));
    env.unwrap()
}

fn describe(functions: Vec<HostFunction>, isa: TargetIsa) -> Module {
    begin(functions, isa).into_module()
}

fn types_of(params: &[ir::AbiParam]) -> Vec<ir::Type> {
    params.iter().map(|param| param.value_type).collect()
}

#[test]
fn a_module_without_functions_is_empty() {
    let module = describe(vec![], ISA);
    assert_eq!(module.signatures.len(), 0);
    assert_eq!(module.functions.len(), 0);
    assert_eq!(module.exports.len(), 0);
    assert_eq!(module.memory_plans.len(), 0);
}

#[test]
fn the_module_imports_nothing_and_holds_functions_alone() {
    let functions = vec![function("a", vec![], None), function("b", vec![], None)];
    let module = describe(functions, ISA);
    assert_eq!(module.imported_funcs.len(), 0);
    assert_eq!(module.imported_tables.len(), 0);
    assert_eq!(module.imported_memories.len(), 0);
    assert_eq!(module.imported_globals.len(), 0);
    assert_eq!(module.table_plans.len(), 0);
    assert_eq!(module.memory_plans.len(), 0);
    assert_eq!(module.globals.len(), 0);
    assert_eq!(module.table_elements.len(), 0);
    assert!(module.start_func.is_none());
    for (index, _) in module.functions.iter() {
        let defined = module.defined_func_index(index).unwrap();
        assert_eq!(defined.index(), index.index());
    }
}

#[test]
fn the_context_comes_before_the_arguments() {
    let all = vec![ValueType::I32, ValueType::I64, ValueType::F32, ValueType::F64];
    let module = describe(vec![function("ext_a", all, Some(ValueType::F32))], ISA);
    let signature = module.signatures.values().next().unwrap();
    assert_eq!(
        types_of(&signature.params),
        vec![types::I64, types::I32, types::I64, types::F32, types::F64]
    );
    assert_eq!(signature.params[0].purpose, ArgumentPurpose::VMContext);
    for param in signature.params[1..].iter() {
        assert_eq!(param.purpose, ArgumentPurpose::Normal);
    }
    assert_eq!(types_of(&signature.returns), vec![types::F32]);
    assert_eq!(signature.returns[0].purpose, ArgumentPurpose::Normal);
    assert_eq!(signature.call_conv, isa::CallConv::SystemV);
}

#[test]
fn a_function_without_result_returns_nothing() {
    let module = describe(vec![function("ext_a", vec![], None)], ISA);
    let signature = module.signatures.values().next().unwrap();
    assert_eq!(types_of(&signature.params), vec![types::I64]);
    assert!(signature.returns.is_empty());
}

#[test]
fn each_result_type_is_kept() {
    let results = [
        (ValueType::I32, types::I32),
        (ValueType::I64, types::I64),
        (ValueType::F32, types::F32),
        (ValueType::F64, types::F64),
    ];
    for (result, native) in results.iter() {
        let module = describe(vec![function("ext_a", vec![], Some(*result))], ISA);
        let signature = module.signatures.values().next().unwrap();
        assert_eq!(types_of(&signature.returns), vec![*native]);
    }
}

#[test]
fn the_context_has_the_width_of_a_pointer() {
    let widths = [
        (PointerWidth::U16, types::I16),
        (PointerWidth::U32, types::I32),
        (PointerWidth::U64, types::I64),
    ];
    for (pointer_width, native) in widths.iter() {
        let isa = TargetIsa { call_conv: CallConv::SystemV, pointer_width: *pointer_width };
        let module = describe(vec![function("ext_a", vec![ValueType::F64], None)], isa);
        let signature = module.signatures.values().next().unwrap();
        assert_eq!(types_of(&signature.params), vec![*native, types::F64]);
    }
}

#[test]
fn the_calling_convention_is_that_of_the_machine() {
    let conventions = [
        (CallConv::Fast, isa::CallConv::Fast),
        (CallConv::Cold, isa::CallConv::Cold),
        (CallConv::SystemV, isa::CallConv::SystemV),
        (CallConv::WindowsFastcall, isa::CallConv::WindowsFastcall),
        (CallConv::BaldrdashSystemV, isa::CallConv::BaldrdashSystemV),
        (CallConv::BaldrdashWindows, isa::CallConv::BaldrdashWindows),
        (CallConv::Probestack, isa::CallConv::Probestack),
    ];
    for (call_conv, native) in conventions.iter() {
        let isa = TargetIsa { call_conv: *call_conv, pointer_width: PointerWidth::U64 };
        let module = describe(vec![function("ext_a", vec![], None)], isa);
        let signature = module.signatures.values().next().unwrap();
        assert_eq!(signature.call_conv, *native);
    }
}

#[test]
fn each_function_is_exported_under_its_name() {
    let module = describe(
        vec![
            function("ext_malloc", vec![ValueType::I32], Some(ValueType::I32)),
            function("ext_free", vec![ValueType::I32], None),
            function("ext_now", vec![], Some(ValueType::I64)),
        ],
        ISA,
    );
    assert_eq!(module.signatures.len(), 3);
    let signature_indices: Vec<usize> =
        module.functions.values().map(|signature| signature.index()).collect();
    assert_eq!(signature_indices, vec![0, 1, 2]);
    let exports: Vec<(&str, usize)> = module
        .exports
        .iter()
        .map(|(name, export)| match export {
            Export::Function(index) => (name.as_str(), index.index()),
            _ => panic!("only functions are exported"),
        })
        .collect();
    assert_eq!(exports, vec![("ext_malloc", 0), ("ext_free", 1), ("ext_now", 2)]);
}

#[test]
fn the_last_function_of_a_name_is_exported() {
    let module = describe(
        vec![
            function("ext_a", vec![], None),
            function("ext_b", vec![], None),
            function("ext_a", vec![ValueType::I32], None),
        ],
        ISA,
    );
    assert_eq!(module.functions.len(), 3);
    assert_eq!(module.exports.len(), 2);
    match module.exports.get("ext_a") {
        Some(Export::Function(index)) => assert_eq!(index.index(), 2),
        _ => panic!("ext_a is a function"),
    }
    match module.exports.get("ext_b") {
        Some(Export::Function(index)) => assert_eq!(index.index(), 1),
        _ => panic!("ext_b is a function"),
    }
}

#[test]
fn a_machine_that_is_not_supported_is_an_error() {
    let reason = "unsupported architecture".to_string();
    let env: Result<EnvModule, WasmError<()>> = instantiate_env_module(&vec![], Err(reason));
    match env {
        Err(WasmError::Other(message)) => {
            assert_eq!(message, "missing compiler support: unsupported architecture")
        }
        _ => panic!("the machine is not supported"),
    }
    let isa: Result<TargetIsa, WasmError<()>> = target_isa(Ok(ISA));
    assert_eq!(isa.unwrap(), ISA);
}

#[test]
fn trampolines_are_generated_one_after_the_other() {
    let mut env = begin(vec![function("a", vec![], None), function("b", vec![], None)], ISA);
    assert_eq!(env.next_trampoline(), Some(0));
    env = env.trampoline_generated::<()>(Ok(())).unwrap();
    assert_eq!(env.next_trampoline(), Some(1));
    assert_eq!(env.module().functions.len(), 2);
    env = env.trampoline_generated::<()>(Ok(())).unwrap();
    assert_eq!(env.next_trampoline(), None);
}

#[test]
fn a_trampoline_that_cannot_be_generated_is_an_error() {
    let env = begin(vec![function("a", vec![], None)], ISA);
    match env.trampoline_generated(Err("no code")) {
        Err(WasmError::Host(error)) => assert_eq!(error, "no code"),
        _ => panic!("the trampoline was not generated"),
    }
}

#[test]
fn the_first_trampoline_that_cannot_be_generated_decides() {
    let functions = vec![
        function("a", vec![], None),
        function("b", vec![], None),
        function("c", vec![], None),
    ];
    let mut env = begin(functions, ISA);
    env = env.trampoline_generated::<&str>(Ok(())).unwrap();
    assert_eq!(env.next_trampoline(), Some(1));
    match env.trampoline_generated(Err("no code for b")) {
        Err(WasmError::Host(error)) => assert_eq!(error, "no code for b"),
        _ => panic!("the trampoline was not generated"),
    }
}

#[test]
fn host_functions_can_be_imported() {
    let module = describe(vec![function("ext_a", vec![], None)], ISA);
    let mut resolver = RuntimeInterfaceResolver::new(false);
    let exported = module.exports.contains_key("ext_a");
    assert_eq!(resolver.resolve("env", "ext_a", exported), Resolution::Env);
    let exported = module.exports.contains_key("ext_b");
    assert_eq!(resolver.resolve("env", "ext_b", exported), Resolution::Unresolved);
}

#[test]
fn no_trampoline_is_needed_without_functions() {
    assert_eq!(begin(vec![], ISA).next_trampoline(), None);
}

#[test]
fn an_instance_that_cannot_be_made_is_an_error() {
    let outcome: Result<(), WasmError<()>> = env_instantiated(Ok(()));
    assert!(outcome.is_ok());
    let outcome: Result<(), WasmError<()>> = env_instantiated(Err("out of memory".to_string()));
    match outcome {
        Err(WasmError::Other(message)) => {
            assert_eq!(message, "cannot instantiate env: out of memory")
        }
        _ => panic!("there is no instance"),
    }
}
