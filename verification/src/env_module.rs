//! The module named `env`, through which a guest reaches the functions of its host.
use crate::error::{prefixed, WasmError, WasmErrorView};
use crate::module::{
    insert_function_export, module_contents, new_signature, push_function, push_param, push_return,
    push_signature, signature_contents, translate_signature, AbiParam, CallConv, IrSignature,
    ModuleContents, ModuleExport, ModuleImports, PointerWidth,
};
use crate::resolver::resolution;
use crate::value::{FunctionSignature, FunctionSignatureView, HostFunction, HostFunctionView};
use cranelift_codegen::ir;
use vstd::prelude::*;
use wasmtime_environ::Module;

verus! {

/// What native code has to know of the machine that it is generated for.
#[derive(Debug, Clone, Copy, PartialEq, Eq, Structural)]
pub struct TargetIsa {
    /// The calling convention of the machine.
    pub call_conv: CallConv,
    /// The width of a pointer on the machine.
    pub pointer_width: PointerWidth,
}

/// The native signature of a host function: its arguments and its result.
pub open spec fn ir_signature(
    signature: FunctionSignatureView,
    call_conv: CallConv,
) -> IrSignature {
    IrSignature {
        params: signature.args.map_values(|arg| AbiParam::Normal(arg)),
        returns: match signature.return_value {
            Some(result) => seq![AbiParam::Normal(result)],
            None => seq![],
        },
        call_conv,
    }
}

/// The native signature with which a host function is called from a guest: the context of the
/// instance comes before the arguments.
pub open spec fn host_call_signature(
    signature: FunctionSignatureView,
    isa: TargetIsa,
) -> IrSignature {
    IrSignature {
        params: seq![AbiParam::VMContext(isa.pointer_width)] + ir_signature(
            signature,
            isa.call_conv,
        ).params,
        ..ir_signature(signature, isa.call_conv)
    }
}

/// The exports of the `env` module: each host function is exported under its name. Where several
/// have the same name, the last one is.
pub open spec fn env_exports(functions: Seq<HostFunctionView>) -> Map<Seq<char>, ModuleExport>
    decreases functions.len(),
{
    if functions.len() == 0 {
        Map::empty()
    } else {
        env_exports(functions.drop_last()).insert(
            functions.last().name,
            ModuleExport::Function((functions.len() - 1) as u32),
        )
    }
}

/// What the description of the `env` module holds: a signature, a function and an export for each
/// host function, and nothing else. It imports nothing, so that the index of a function among all
/// those of the module is also its index among those that the module defines.
pub open spec fn env_module_contents(
    functions: Seq<HostFunctionView>,
    isa: TargetIsa,
) -> ModuleContents {
    ModuleContents {
        signatures: functions.map_values(
            |function: HostFunctionView| host_call_signature(function.signature, isa),
        ),
        functions: Seq::new(functions.len(), |i: int| i as u32),
        exports: env_exports(functions),
        memories: seq![],
        imports: ModuleImports {
            functions: seq![],
            tables: seq![],
            memories: seq![],
            globals: seq![],
        },
        tables: seq![],
        globals: seq![],
        table_elements: seq![],
        start: None,
    }
}

/// Builds the native signature of a host function.
fn cranelift_ir_signature(signature: &FunctionSignature, call_conv: CallConv) -> (native:
    ir::Signature)
    ensures
        signature_contents(native) == ir_signature(signature@, call_conv),
{
    let mut native = new_signature(call_conv);
    let mut done: usize = 0;
    while done < signature.args.len()
        invariant
            done <= signature.args@.len(),
            signature_contents(native) =~= (IrSignature {
                params: signature.args@.take(done as int).map_values(|arg| AbiParam::Normal(arg)),
                returns: seq![],
                call_conv,
            }),
        decreases signature.args@.len() - done,
    {
        push_param(&mut native, signature.args[done]);
        done = done + 1;
    }
    assert(signature.args@.take(done as int) == signature.args@);
    if let Some(result) = signature.return_value {
        push_return(&mut native, result);
    }
    assert(signature_contents(native) =~= ir_signature(signature@, call_conv));
    native
}

/// Builds the description of the `env` module.
fn describe_env_module(host_functions: &Vec<HostFunction>, isa: TargetIsa) -> (module: Module)
    requires
        host_functions@.len() < u32::MAX,
    ensures
        module_contents(module) == env_module_contents(host_functions.deep_view(), isa),
{
    let mut module = Module::new();
    let ghost functions = host_functions.deep_view();
    let mut done: usize = 0;
    while done < host_functions.len()
        invariant
            done <= host_functions@.len() < u32::MAX,
            functions == host_functions.deep_view(),
            module_contents(module) =~= env_module_contents(functions.take(done as int), isa),
        decreases host_functions@.len() - done,
    {
        let function = &host_functions[done];
        let native = translate_signature(
            cranelift_ir_signature(&function.signature, isa.call_conv),
            isa.pointer_width,
        );
        let signature_index: u32 = push_signature(&mut module, native);
        let function_index: u32 = push_function(&mut module, signature_index);
        insert_function_export(&mut module, function.name.clone(), function_index);
        assert(functions.take(done as int + 1).drop_last() == functions.take(done as int));
        assert(functions.take(done as int + 1).last() == function@);
        done = done + 1;
    }
    assert(functions.take(done as int) == functions);
    module
}

/// The `env` module on its way to an instance: its description is complete, and the host generates
/// a trampoline for one of its functions after the other.
pub struct EnvModule {
    module: Module,
    functions: u32,
    trampolines: u32,
}

/// The mathematical counterpart of [`EnvModule`].
pub struct EnvModuleView {
    /// The description of the module.
    pub module: Module,
    /// The number of functions.
    pub functions: u32,
    /// The number of trampolines that were generated.
    pub trampolines: u32,
}

impl View for EnvModule {
    type V = EnvModuleView;

    closed spec fn view(&self) -> EnvModuleView {
        EnvModuleView {
            module: self.module,
            functions: self.functions,
            trampolines: self.trampolines,
        }
    }
}

/// Whether this is the `env` module of some host functions on a machine, before any trampoline was
/// generated.
pub open spec fn is_described(
    env: EnvModuleView,
    functions: Seq<HostFunctionView>,
    isa: TargetIsa,
) -> bool {
    &&& module_contents(env.module) == env_module_contents(functions, isa)
    &&& env.functions == functions.len()
    &&& env.trampolines == 0
}

/// The index of the function that a trampoline is needed for next, if there is one.
pub open spec fn wanted_trampoline(env: EnvModuleView) -> Option<u32> {
    if env.trampolines < env.functions {
        Some(env.trampolines)
    } else {
        None
    }
}

/// What becomes of the `env` module when the host has tried to generate the next trampoline.
pub open spec fn after_trampoline<H>(env: EnvModuleView, generated: Result<(), H>) -> Result<
    EnvModuleView,
    WasmErrorView<H>,
> {
    match generated {
        Ok(()) => Ok(EnvModuleView { trampolines: (env.trampolines + 1) as u32, ..env }),
        Err(error) => Err(WasmErrorView::Host(error)),
    }
}

/// What becomes of the `env` module in the end, where `trampolines` says for each function whether
/// its trampoline can be generated.
pub open spec fn after_all_trampolines<H>(
    env: EnvModuleView,
    trampolines: Seq<Result<(), H>>,
) -> Result<EnvModuleView, WasmErrorView<H>>
    decreases env.functions - env.trampolines,
{
    if env.trampolines < env.functions {
        match after_trampoline(env, trampolines[env.trampolines as int]) {
            Ok(followed) => after_all_trampolines(followed, trampolines),
            Err(error) => Err(error),
        }
    } else {
        Ok(env)
    }
}

/// The error for a machine that native code cannot be generated for.
pub open spec fn missing_compiler_support<H>(reason: Seq<char>) -> WasmErrorView<H> {
    WasmErrorView::Other("missing compiler support: "@ + reason)
}

/// The error for an `env` module that cannot be instantiated.
pub open spec fn cannot_instantiate_env<H>(reason: Seq<char>) -> WasmErrorView<H> {
    WasmErrorView::Other("cannot instantiate env: "@ + reason)
}

/// The error for a machine that native code cannot be generated for.
pub(crate) fn target_error<H>(reason: String) -> (error: WasmError<H>)
    ensures
        error@ == missing_compiler_support::<H>(reason@),
{
    WasmError::Other(prefixed("missing compiler support: ", reason.as_str()))
}

/// The outcome of looking for a code generator for the machine that the host runs on.
pub fn target_isa<H>(native: Result<TargetIsa, String>) -> (isa: Result<TargetIsa, WasmError<H>>)
    ensures
        native matches Ok(found) ==> isa == Ok::<TargetIsa, WasmError<H>>(found),
        native matches Err(reason) ==> (isa matches Err(error) && error@
            == missing_compiler_support::<H>(reason@)),
{
    match native {
        Ok(found) => Ok(found),
        Err(reason) => Err(target_error(reason)),
    }
}

/// Begins to instantiate the `env` module, on a machine that `native` describes if it is supported.
///
/// Indices into a module have 32 bits, with one value set apart.
pub fn instantiate_env_module<H>(
    host_functions: &Vec<HostFunction>,
    native: Result<TargetIsa, String>,
) -> (env: Result<EnvModule, WasmError<H>>)
    requires
        host_functions@.len() < u32::MAX,
    ensures
        native matches Ok(isa) ==> {
            &&& env matches Ok(env)
            &&& module_contents(env@.module) == env_module_contents(host_functions.deep_view(), isa)
            &&& env@.functions == host_functions@.len()
            &&& env@.trampolines == 0
            &&& is_described(env@, host_functions.deep_view(), isa)
        },
        native matches Err(reason) ==> (env matches Err(error) && error@
            == missing_compiler_support::<H>(reason@)),
{
    match target_isa(native) {
        Ok(isa) => Ok(
            EnvModule {
                module: describe_env_module(host_functions, isa),
                functions: host_functions.len() as u32,
                trampolines: 0,
            },
        ),
        Err(error) => Err(error),
    }
}

impl EnvModule {
    /// The description of the module.
    pub fn module(&self) -> (module: &Module)
        ensures
            *module == self@.module,
    {
        &self.module
    }

    /// The index of the function that a trampoline is needed for next. `None` when there is one for
    /// each function: the module can then be instantiated.
    pub fn next_trampoline(&self) -> (index: Option<u32>)
        ensures
            index == (if self@.trampolines < self@.functions {
                Some(self@.trampolines)
            } else {
                None
            }),
            index == wanted_trampoline(self@),
    {
        if self.trampolines < self.functions {
            Some(self.trampolines)
        } else {
            None
        }
    }

    /// Takes note of how the generation of the next trampoline ended. An error ends the
    /// instantiation.
    pub fn trampoline_generated<H>(self, generated: Result<(), H>) -> (env: Result<
        EnvModule,
        WasmError<H>,
    >)
        requires
            self@.trampolines < self@.functions,
        ensures
            match env {
                Ok(env) => after_trampoline(self@, generated) == Ok::<_, WasmErrorView<H>>(env@),
                Err(error) => after_trampoline(self@, generated) == Err::<EnvModuleView, _>(error@),
            },
    {
        match generated {
            Ok(()) => Ok(
                EnvModule {
                    module: self.module,
                    functions: self.functions,
                    trampolines: self.trampolines + 1,
                },
            ),
            Err(error) => Err(WasmError::Host(error)),
        }
    }

    /// Hands over the description of the module, to be instantiated.
    pub fn into_module(self) -> (module: Module)
        ensures
            module == self@.module,
    {
        self.module
    }
}

/// The outcome of instantiating the `env` module.
pub fn env_instantiated<H>(instance: Result<(), String>) -> (outcome: Result<(), WasmError<H>>)
    ensures
        instance is Ok <==> outcome is Ok,
        instance matches Err(reason) ==> (outcome matches Err(error) && error@
            == cannot_instantiate_env::<H>(reason@)),
{
    match instance {
        Ok(()) => Ok(()),
        Err(reason) => Err(
            WasmError::Other(prefixed("cannot instantiate env: ", reason.as_str())),
        ),
    }
}

/// Whether `i` is the index of the last function named `name`.
pub open spec fn is_last_named(functions: Seq<HostFunctionView>, name: Seq<char>, i: int) -> bool {
    &&& 0 <= i < functions.len()
    &&& functions[i].name == name
    &&& forall|j: int| i < j < functions.len() ==> (#[trigger] functions[j]).name != name
}

/// With a function of another name behind them, the last function of a name stays what it is.
proof fn last_named_before_another(functions: Seq<HostFunctionView>, name: Seq<char>, i: int)
    requires
        functions.len() > 0,
        functions.last().name != name,
    ensures
        is_last_named(functions, name, i) <==> is_last_named(functions.drop_last(), name, i),
{
    let before = functions.drop_last();
    assert(forall|j: int| 0 <= j < before.len() ==> #[trigger] before[j] == functions[j]);
    if is_last_named(functions, name, i) {
        assert(i != functions.len() - 1);
        assert forall|j: int| i < j < before.len() implies (#[trigger] before[j]).name != name by {
            assert(functions[j].name != name);
        }
    }
    if is_last_named(before, name, i) {
        assert forall|j: int| i < j < functions.len() implies (#[trigger] functions[j]).name
            != name by {
            if j < before.len() {
                assert(before[j].name != name);
            }
        }
    }
}

/// A name is exported if there is a last function that has it, and for that function.
#[verifier::spinoff_prover]
proof fn exports_go_by_last_name(functions: Seq<HostFunctionView>, name: Seq<char>)
    requires
        functions.len() < u32::MAX,
    ensures
        env_exports(functions).contains_key(name) <==> exists|i: int|
            #[trigger] is_last_named(functions, name, i),
        forall|i: int| #[trigger]
            is_last_named(functions, name, i) ==> env_exports(functions)[name]
                == ModuleExport::Function(i as u32),
    decreases functions.len(),
{
    if functions.len() > 0 {
        let before = functions.drop_last();
        if functions.last().name == name {
            assert(is_last_named(functions, name, functions.len() - 1));
            assert forall|i: int| #[trigger] is_last_named(functions, name, i) implies i
                == functions.len() - 1 by {
                if i < functions.len() - 1 {
                    assert(functions[functions.len() - 1].name != name);
                }
            }
        } else {
            exports_go_by_last_name(before, name);
            assert forall|i: int| #[trigger] is_last_named(functions, name, i) == is_last_named(
                before,
                name,
                i,
            ) by {
                last_named_before_another(functions, name, i);
            }
            if env_exports(before).contains_key(name) {
                let i = choose|i: int| #[trigger] is_last_named(before, name, i);
                assert(is_last_named(functions, name, i));
            }
        }
    }
}

/// Each name of a host function is that of some last function.
proof fn some_function_is_last(functions: Seq<HostFunctionView>, i: int)
    requires
        0 <= i < functions.len(),
    ensures
        exists|k: int| #[trigger] is_last_named(functions, functions[i].name, k),
    decreases functions.len() - i,
{
    if !is_last_named(functions, functions[i].name, i) {
        let j = choose|j: int|
            i < j < functions.len() && (#[trigger] functions[j]).name == functions[i].name;
        some_function_is_last(functions, j);
    }
}

/// The `env` module exports the names of the host functions and no others, each name for the last
/// function that has it.
#[verifier::spinoff_prover]
pub proof fn last_function_is_exported(functions: Seq<HostFunctionView>, name: Seq<char>)
    requires
        functions.len() < u32::MAX,
    ensures
        env_exports(functions).contains_key(name) <==> exists|i: int|
            0 <= i < functions.len() && (#[trigger] functions[i]).name == name,
        forall|i: int| #[trigger]
            is_last_named(functions, name, i) ==> env_exports(functions)[name]
                == ModuleExport::Function(i as u32),
{
    exports_go_by_last_name(functions, name);
    if env_exports(functions).contains_key(name) {
        let i = choose|i: int| #[trigger] is_last_named(functions, name, i);
        assert(functions[i].name == name);
    }
    assert forall|i: int|
        0 <= i < functions.len() && (#[trigger] functions[i]).name == name implies env_exports(
        functions,
    ).contains_key(name) by {
        some_function_is_last(functions, i);
    }
}

/// Every name of a host function is one that a guest can import from `env`.
pub proof fn host_functions_are_resolved(
    functions: Seq<HostFunctionView>,
    i: int,
    enable_stub: bool,
)
    requires
        0 <= i < functions.len() < u32::MAX,
    ensures
        resolution(
            "env"@,
            env_exports(functions).contains_key(functions[i].name),
            enable_stub,
        ) is Env,
{
    last_function_is_exported(functions, functions[i].name);
}

/// The first trampoline that cannot be generated ends the instantiation, with the error of the
/// host. Without one, there is in the end a trampoline for each function, and the description of
/// the module is what it was.
pub proof fn first_failed_trampoline_decides<H>(
    env: EnvModuleView,
    trampolines: Seq<Result<(), H>>,
)
    requires
        env.trampolines <= env.functions,
    ensures
        (forall|i: int|
            env.trampolines <= i < env.functions ==> (#[trigger] trampolines[i]) is Ok)
            ==> after_all_trampolines(env, trampolines) == Ok::<_, WasmErrorView<H>>(
            EnvModuleView { trampolines: env.functions, ..env },
        ),
        forall|i: int|
            env.trampolines <= i < env.functions && (#[trigger] trampolines[i]) is Err && (forall|
                j: int,
            |
                env.trampolines <= j < i ==> (#[trigger] trampolines[j]) is Ok)
                ==> after_all_trampolines(env, trampolines) == Err::<EnvModuleView, _>(
                WasmErrorView::Host(trampolines[i]->Err_0),
            ),
    decreases env.functions - env.trampolines,
{
    if env.trampolines < env.functions {
        let k = env.trampolines as int;
        if trampolines[k] is Ok {
            first_failed_trampoline_decides(
                EnvModuleView { trampolines: (env.trampolines + 1) as u32, ..env },
                trampolines,
            );
        }
    }
}

} // verus!
