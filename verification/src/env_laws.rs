//! What holds of every `env` module.
use crate::env_module::{
    after_trampoline, cannot_instantiate_env, is_described, is_last_named,
    last_function_is_exported, missing_compiler_support, wanted_trampoline, EnvModuleView,
    TargetIsa,
};
use crate::error::WasmErrorView;
use crate::module::{
    module_contents, module_exports, module_functions, module_globals, module_imported_functions,
    module_imported_globals, module_imported_memories, module_imported_tables, module_memories,
    module_signatures, module_start, module_table_elements, module_tables, AbiParam, ModuleExport,
};
use crate::value::HostFunction;
use vstd::prelude::*;

verus! {

/// Each host function has a signature of its own in the `env` module. Before anything else comes
/// the context of the instance, then each argument of the function in turn, by its type, and
/// nothing more. The result is that of the function, if it has one, and the calling convention that
/// of the machine.
pub proof fn signature_is_that_of_function(
    env: EnvModuleView,
    host_functions: Vec<HostFunction>,
    isa: TargetIsa,
    i: int,
)
    requires
        is_described(env, host_functions.deep_view(), isa),
        0 <= i < host_functions@.len() < u32::MAX,
    ensures
        ({
            let function = host_functions@[i].signature;
            let signature = module_signatures(env.module)[i];
            &&& module_signatures(env.module).len() == host_functions@.len()
            &&& signature.params.len() == function.args@.len() + 1
            &&& signature.params[0] == AbiParam::VMContext(isa.pointer_width)
            &&& forall|k: int|
                0 <= k < function.args@.len() ==> signature.params[k + 1] == AbiParam::Normal(
                    #[trigger] function.args@[k],
                )
            &&& match function.return_value {
                Some(result) => signature.returns.len() == 1 && signature.returns[0]
                    == AbiParam::Normal(result),
                None => signature.returns.len() == 0,
            }
            &&& signature.call_conv == isa.call_conv
        }),
{
    assert(host_functions.deep_view()[i] == host_functions@[i]@);
    assert(module_contents(env.module).signatures == module_signatures(env.module));
}

/// The functions of the `env` module are the host functions, in their order: the function with an
/// index has the signature with the same index. There is nothing else in the module, and nothing
/// that it imports.
pub proof fn functions_are_those_of_host(
    env: EnvModuleView,
    host_functions: Vec<HostFunction>,
    isa: TargetIsa,
)
    requires
        is_described(env, host_functions.deep_view(), isa),
        host_functions@.len() < u32::MAX,
    ensures
        env.functions == host_functions@.len(),
        module_functions(env.module).len() == host_functions@.len(),
        forall|i: int|
            0 <= i < host_functions@.len() ==> #[trigger] module_functions(env.module)[i] == i,
        module_memories(env.module).len() == 0,
        module_tables(env.module).len() == 0,
        module_globals(env.module).len() == 0,
        module_imported_functions(env.module).len() == 0,
        module_imported_tables(env.module).len() == 0,
        module_imported_memories(env.module).len() == 0,
        module_imported_globals(env.module).len() == 0,
        module_table_elements(env.module).len() == 0,
        module_start(env.module) is None,
{
    assert(module_contents(env.module).functions == module_functions(env.module));
}

/// What the `env` module exports under a name: the last of the host functions that have the name,
/// by its index; and nothing if none has it.
pub proof fn exports_are_those_of_host(
    env: EnvModuleView,
    host_functions: Vec<HostFunction>,
    isa: TargetIsa,
    name: Seq<char>,
)
    requires
        is_described(env, host_functions.deep_view(), isa),
        host_functions@.len() < u32::MAX,
    ensures
        module_exports(env.module).contains_key(name) <==> exists|i: int|
            0 <= i < host_functions@.len() && (#[trigger] host_functions@[i]).name@ == name,
        forall|i: int|
            0 <= i < host_functions@.len() && (#[trigger] host_functions@[i]).name@ == name && (
            forall|j: int|
                i < j < host_functions@.len() ==> (#[trigger] host_functions@[j]).name@ != name)
                ==> module_exports(env.module)[name] == ModuleExport::Function(i as u32),
{
    let functions = host_functions.deep_view();
    last_function_is_exported(functions, name);
    assert(module_contents(env.module).exports == module_exports(env.module));
    assert(forall|i: int|
        0 <= i < functions.len() ==> #[trigger] functions[i] == host_functions@[i]@);
    if module_exports(env.module).contains_key(name) {
        let i = choose|i: int| 0 <= i < functions.len() && (#[trigger] functions[i]).name == name;
        assert(host_functions@[i].name@ == name);
    }
    assert forall|i: int|
        0 <= i < host_functions@.len() && (#[trigger] host_functions@[i]).name@
            == name implies module_exports(env.module).contains_key(name) by {
        assert(functions[i].name == name);
    }
    assert forall|i: int|
        0 <= i < host_functions@.len() && (#[trigger] host_functions@[i]).name@ == name && (forall|
            j: int,
        |
            i < j < host_functions@.len() ==> (#[trigger] host_functions@[j]).name@
                != name) implies module_exports(env.module)[name] == ModuleExport::Function(
        i as u32,
    ) by {
        assert forall|j: int| i < j < functions.len() implies (#[trigger] functions[j]).name
            != name by {
            assert(host_functions@[j].name@ != name);
        }
        assert(is_last_named(functions, name, i));
    }
}

/// The `env` module after this number of trampolines was generated.
pub open spec fn after_generating(env: EnvModuleView, count: nat) -> EnvModuleView
    decreases count,
{
    if count == 0 {
        env
    } else {
        match after_trampoline::<()>(after_generating(env, (count - 1) as nat), Ok(())) {
            Ok(followed) => followed,
            Err(_) => arbitrary(),
        }
    }
}

/// A trampoline is asked for each host function, one after the other, and for nothing else. That
/// does not change the description of the module.
pub proof fn each_function_gets_a_trampoline(
    env: EnvModuleView,
    host_functions: Vec<HostFunction>,
    isa: TargetIsa,
    count: nat,
)
    requires
        is_described(env, host_functions.deep_view(), isa),
        count <= host_functions@.len() < u32::MAX,
    ensures
        count < host_functions@.len() ==> wanted_trampoline(after_generating(env, count)) == Some(
            count as u32,
        ),
        count == host_functions@.len() ==> wanted_trampoline(after_generating(env, count)) is None,
        after_generating(env, count).module == env.module,
        after_generating(env, count).functions == env.functions,
        after_generating(env, count).trampolines == count,
    decreases count,
{
    if count > 0 {
        each_function_gets_a_trampoline(env, host_functions, isa, (count - 1) as nat);
    }
}

/// A trampoline that cannot be generated is an error, that of the host; and one that can be is
/// none.
pub proof fn error_of_trampoline_is_that_of_host<H>(env: EnvModuleView, generated: Result<(), H>)
    ensures
        after_trampoline(env, generated) is Ok <==> generated is Ok,
        generated matches Err(error) ==> after_trampoline(env, generated)->Err_0
            == WasmErrorView::Host(error),
{
}

/// The reasons that the host gives are handed on whole.
pub proof fn reasons_are_handed_on<H>(reason: Seq<char>)
    ensures
        missing_compiler_support::<H>(reason) == WasmErrorView::<H>::Other(
            "missing compiler support: "@ + reason,
        ),
        cannot_instantiate_env::<H>(reason) == WasmErrorView::<H>::Other(
            "cannot instantiate env: "@ + reason,
        ),
{
}

/// What is known of host functions by their counterparts is all of it: their number, and of each
/// its name, its arguments and its result.
pub proof fn host_functions_are_known_whole(host_functions: Vec<HostFunction>, i: int)
    requires
        0 <= i < host_functions@.len(),
    ensures
        host_functions.deep_view().len() == host_functions@.len(),
        host_functions.deep_view()[i] == host_functions@[i]@,
        host_functions@[i]@.name == host_functions@[i].name@,
        host_functions@[i]@.signature.args == host_functions@[i].signature.args@,
        host_functions@[i]@.signature.return_value == host_functions@[i].signature.return_value,
{
}

} // verus!
