//! The parts of `wasmtime_environ` and `cranelift_codegen` that describe a module.
//!
//! What stands here is trusted: it says what the containers of a module description hold, and what
//! each operation on them does.
use crate::heap_pages::MemoryLimits;
use crate::value::{GlobalType, ValueType};
use cranelift_codegen::ir;
use cranelift_codegen::isa;
use cranelift_wasm::{FuncIndex, MemoryIndex, SignatureIndex};
use vstd::prelude::*;
use wasmtime_environ::{Export, Module};

verus! {

/// The calling conventions of native code.
#[derive(Debug, Clone, Copy, PartialEq, Eq, Structural)]
pub enum CallConv {
    /// Best performance, not stable.
    Fast,
    /// Smallest caller code size, not stable.
    Cold,
    /// The System V convention.
    SystemV,
    /// The Windows "fastcall" convention.
    WindowsFastcall,
    /// The SpiderMonkey convention on System V.
    BaldrdashSystemV,
    /// The SpiderMonkey convention on Windows.
    BaldrdashWindows,
    /// The convention of the stack probe.
    Probestack,
}

/// The width of a native pointer.
#[derive(Debug, Clone, Copy, PartialEq, Eq, Structural)]
pub enum PointerWidth {
    /// 16 bits.
    U16,
    /// 32 bits.
    U32,
    /// 64 bits.
    U64,
}

/// A parameter of native code.
#[derive(Debug, Clone, Copy, PartialEq, Eq, Structural)]
pub enum AbiParam {
    /// A value of the function's own.
    Normal(ValueType),
    /// The pointer to the context of the instance.
    VMContext(PointerWidth),
}

/// What a module exports under a name, by its index in the module.
#[derive(Debug, Clone, Copy, PartialEq, Eq, Structural)]
pub enum ModuleExport {
    /// A function.
    Function(u32),
    /// A table.
    Table(u32),
    /// A linear memory.
    Memory(u32),
    /// A global.
    Global(u32),
}

/// The signature of native code.
#[verifier::ext_equal]
pub struct IrSignature {
    pub params: Seq<AbiParam>,
    pub returns: Seq<AbiParam>,
    pub call_conv: CallConv,
}

/// A signature of native code.
#[verifier::external_type_specification]
#[verifier::external_body]
pub struct ExSignature(ir::Signature);

/// The description of a module.
#[verifier::external_type_specification]
#[verifier::external_body]
pub struct ExModule(Module);

/// The parameters that a signature holds, in order.
pub uninterp spec fn signature_params(signature: ir::Signature) -> Seq<AbiParam>;

/// The results that a signature holds, in order.
pub uninterp spec fn signature_returns(signature: ir::Signature) -> Seq<AbiParam>;

/// The calling convention that a signature was made with.
pub uninterp spec fn signature_call_conv(signature: ir::Signature) -> CallConv;

/// The signatures that a module holds, in order of their indices.
pub uninterp spec fn module_signatures(module: Module) -> Seq<IrSignature>;

/// The functions that a module holds, in order of their indices, each by the index of its
/// signature.
pub uninterp spec fn module_functions(module: Module) -> Seq<u32>;

/// The exports that a module holds, by their names.
pub uninterp spec fn module_exports(module: Module) -> Map<Seq<char>, ModuleExport>;

/// The linear memories that a module holds, in order of their indices, each by its limits.
pub uninterp spec fn module_memories(module: Module) -> Seq<MemoryLimits>;

/// The functions that a module imports, in order, each by the names of its module and of itself.
pub uninterp spec fn module_imported_functions(module: Module) -> Seq<(Seq<char>, Seq<char>)>;

/// The tables that a module imports, in order, each by the names of its module and of itself.
pub uninterp spec fn module_imported_tables(module: Module) -> Seq<(Seq<char>, Seq<char>)>;

/// The memories that a module imports, in order, each by the names of its module and of itself.
pub uninterp spec fn module_imported_memories(module: Module) -> Seq<(Seq<char>, Seq<char>)>;

/// The globals that a module imports, in order, each by the names of its module and of itself.
pub uninterp spec fn module_imported_globals(module: Module) -> Seq<(Seq<char>, Seq<char>)>;

/// The tables that a module holds, in order of their indices, each by its smallest and its largest
/// size.
pub uninterp spec fn module_tables(module: Module) -> Seq<(u32, Option<u32>)>;

/// The globals that a module holds, in order of their indices, each by its type.
pub uninterp spec fn module_globals(module: Module) -> Seq<GlobalType>;

/// The initializers of tables that a module holds, in order, each by the indices of its functions.
pub uninterp spec fn module_table_elements(module: Module) -> Seq<Seq<u32>>;

/// The index of the function that is run when a module is instantiated, if there is one.
pub uninterp spec fn module_start(module: Module) -> Option<u32>;

/// What a signature holds.
pub open spec fn signature_contents(signature: ir::Signature) -> IrSignature {
    IrSignature {
        params: signature_params(signature),
        returns: signature_returns(signature),
        call_conv: signature_call_conv(signature),
    }
}

/// What the description of a module holds.
#[verifier::ext_equal]
pub struct ModuleContents {
    pub signatures: Seq<IrSignature>,
    pub functions: Seq<u32>,
    pub exports: Map<Seq<char>, ModuleExport>,
    pub memories: Seq<MemoryLimits>,
    pub imports: ModuleImports,
    pub tables: Seq<(u32, Option<u32>)>,
    pub globals: Seq<GlobalType>,
    pub table_elements: Seq<Seq<u32>>,
    pub start: Option<u32>,
}

/// What a module imports. Among the functions of a module, and among its tables, memories and
/// globals, the imported ones come first.
#[verifier::ext_equal]
pub struct ModuleImports {
    pub functions: Seq<(Seq<char>, Seq<char>)>,
    pub tables: Seq<(Seq<char>, Seq<char>)>,
    pub memories: Seq<(Seq<char>, Seq<char>)>,
    pub globals: Seq<(Seq<char>, Seq<char>)>,
}

/// What the description of a module holds.
pub open spec fn module_contents(module: Module) -> ModuleContents {
    ModuleContents {
        signatures: module_signatures(module),
        functions: module_functions(module),
        exports: module_exports(module),
        memories: module_memories(module),
        imports: ModuleImports {
            functions: module_imported_functions(module),
            tables: module_imported_tables(module),
            memories: module_imported_memories(module),
            globals: module_imported_globals(module),
        },
        tables: module_tables(module),
        globals: module_globals(module),
        table_elements: module_table_elements(module),
        start: module_start(module),
    }
}

/// `ir::Signature::new` makes a signature without parameters and results, with the calling
/// convention that it is given.
#[verifier::external_body]
pub(crate) fn new_signature(call_conv: CallConv) -> (signature: ir::Signature)
    ensures
        signature_params(signature) == Seq::<AbiParam>::empty(),
        signature_returns(signature) == Seq::<AbiParam>::empty(),
        signature_call_conv(signature) == call_conv,
{
    ir::Signature::new(match call_conv {
        CallConv::Fast => isa::CallConv::Fast,
        CallConv::Cold => isa::CallConv::Cold,
        CallConv::SystemV => isa::CallConv::SystemV,
        CallConv::WindowsFastcall => isa::CallConv::WindowsFastcall,
        CallConv::BaldrdashSystemV => isa::CallConv::BaldrdashSystemV,
        CallConv::BaldrdashWindows => isa::CallConv::BaldrdashWindows,
        CallConv::Probestack => isa::CallConv::Probestack,
    })
}

/// `ir::AbiParam::new` makes a parameter without a special purpose; it is put behind the
/// parameters that the signature holds.
#[verifier::external_body]
pub(crate) fn push_param(signature: &mut ir::Signature, value_type: ValueType)
    ensures
        signature_contents(*final(signature)) == (IrSignature {
            params: signature_params(*old(signature)).push(AbiParam::Normal(value_type)),
            ..signature_contents(*old(signature))
        }),
{
    signature.params.push(ir::AbiParam::new(match value_type {
        ValueType::I32 => ir::types::I32,
        ValueType::I64 => ir::types::I64,
        ValueType::F32 => ir::types::F32,
        ValueType::F64 => ir::types::F64,
    }));
}

/// `ir::AbiParam::new` makes a result without a special purpose; it is put behind the results that
/// the signature holds.
#[verifier::external_body]
pub(crate) fn push_return(signature: &mut ir::Signature, value_type: ValueType)
    ensures
        signature_contents(*final(signature)) == (IrSignature {
            returns: signature_returns(*old(signature)).push(AbiParam::Normal(value_type)),
            ..signature_contents(*old(signature))
        }),
{
    signature.returns.push(ir::AbiParam::new(match value_type {
        ValueType::I32 => ir::types::I32,
        ValueType::I64 => ir::types::I64,
        ValueType::F32 => ir::types::F32,
        ValueType::F64 => ir::types::F64,
    }));
}

/// `wasmtime_environ::translate_signature` puts a parameter for the context of the instance, of the
/// given pointer type, before all others and leaves the rest as it is.
#[verifier::external_body]
pub(crate) fn translate_signature(
    signature: ir::Signature,
    pointer_width: PointerWidth,
) -> (translated: ir::Signature)
    ensures
        signature_contents(translated) == (IrSignature {
            params: seq![AbiParam::VMContext(pointer_width)] + signature_params(signature),
            ..signature_contents(signature)
        }),
{
    let pointer_type = match pointer_width {
        PointerWidth::U16 => ir::types::I16,
        PointerWidth::U32 => ir::types::I32,
        PointerWidth::U64 => ir::types::I64,
    };
    wasmtime_environ::translate_signature(signature, pointer_type)
}

/// `Module::new` makes a description that holds nothing and imports nothing.
pub assume_specification[ Module::new ]() -> (module: Module)
    ensures
        module_signatures(module).len() == 0,
        module_functions(module).len() == 0,
        module_exports(module).dom() == Set::<Seq<char>>::empty(),
        module_memories(module).len() == 0,
        module_imported_functions(module).len() == 0,
        module_imported_tables(module).len() == 0,
        module_imported_memories(module).len() == 0,
        module_imported_globals(module).len() == 0,
        module_tables(module).len() == 0,
        module_globals(module).len() == 0,
        module_table_elements(module).len() == 0,
        module_start(module) is None,
;

/// `PrimaryMap::push` puts a signature behind those that the module holds and returns its index.
#[verifier::external_body]
pub(crate) fn push_signature(module: &mut Module, signature: ir::Signature) -> (index: u32)
    requires
        module_signatures(*old(module)).len() < u32::MAX,
    ensures
        index == module_signatures(*old(module)).len(),
        module_contents(*final(module)) == (ModuleContents {
            signatures: module_signatures(*old(module)).push(signature_contents(signature)),
            ..module_contents(*old(module))
        }),
{
    module.signatures.push(signature).as_u32()
}

/// `PrimaryMap::push` puts a function with the given signature behind those that the module holds
/// and returns its index.
#[verifier::external_body]
pub(crate) fn push_function(module: &mut Module, signature: u32) -> (index: u32)
    requires
        signature < u32::MAX,
        module_functions(*old(module)).len() < u32::MAX,
    ensures
        index == module_functions(*old(module)).len(),
        module_contents(*final(module)) == (ModuleContents {
            functions: module_functions(*old(module)).push(signature),
            ..module_contents(*old(module))
        }),
{
    module.functions.push(SignatureIndex::from_u32(signature)).as_u32()
}

/// `IndexMap::insert` enters an export of the function with the given index under `name`. Where the
/// module has an export of that name already, it is replaced.
#[verifier::external_body]
pub(crate) fn insert_function_export(module: &mut Module, name: String, function: u32)
    requires
        function < u32::MAX,
    ensures
        module_contents(*final(module)) == (ModuleContents {
            exports: module_exports(*old(module)).insert(name@, ModuleExport::Function(function)),
            ..module_contents(*old(module))
        }),
{
    module.exports.insert(name, Export::Function(FuncIndex::from_u32(function)));
}

/// `IndexMap::get` finds the export of the given name, if the module has one.
#[verifier::external_body]
pub(crate) fn get_export(module: &Module, name: &str) -> (export: Option<ModuleExport>)
    ensures
        export == (if module_exports(*module).contains_key(name@) {
            Some(module_exports(*module)[name@])
        } else {
            None
        }),
{
    module.exports.get(name).map(|export| match export {
        Export::Function(index) => ModuleExport::Function(index.as_u32()),
        Export::Table(index) => ModuleExport::Table(index.as_u32()),
        Export::Memory(index) => ModuleExport::Memory(index.as_u32()),
        Export::Global(index) => ModuleExport::Global(index.as_u32()),
    })
}

/// `PrimaryMap::get` finds the plan of the linear memory with the given index, if the module has
/// that many.
#[verifier::external_body]
pub(crate) fn get_memory_plan(module: &Module, index: u32) -> (limits: Option<MemoryLimits>)
    requires
        index < u32::MAX,
    ensures
        limits == (if index < module_memories(*module).len() {
            Some(module_memories(*module)[index as int])
        } else {
            None
        }),
{
    module.memory_plans.get(MemoryIndex::from_u32(index)).map(
        |plan| MemoryLimits { minimum: plan.memory.minimum, maximum: plan.memory.maximum },
    )
}

} // verus!
