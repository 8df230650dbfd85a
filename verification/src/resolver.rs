//! Where the imports of a guest come from.
use vstd::prelude::*;

verus! {

/// What an import of a guest is linked to.
#[derive(Debug, Clone, Copy, PartialEq, Eq, Structural)]
pub enum Resolution {
    /// The export of the `env` module that has the name of the import.
    Env,
    /// A function that does nothing, in place of one that the host lacks.
    Stub,
    /// Nothing: the guest cannot be linked.
    Unresolved,
}

/// Resolves the imports of a guest.
#[derive(Debug)]
pub struct RuntimeInterfaceResolver {
    enable_stub: bool,
    missing_functions: Vec<String>,
}

/// The mathematical counterpart of [`RuntimeInterfaceResolver`].
#[verifier::ext_equal]
pub struct ResolverView {
    /// Whether functions that the host lacks are replaced.
    pub enable_stub: bool,
    /// The names of the functions that were replaced, in the order of their resolution.
    pub missing_functions: Seq<Seq<char>>,
}

impl View for RuntimeInterfaceResolver {
    type V = ResolverView;

    closed spec fn view(&self) -> ResolverView {
        ResolverView {
            enable_stub: self.enable_stub,
            missing_functions: self.missing_functions@.map_values(|name: String| name@),
        }
    }
}

/// What an import from `module` is linked to, where `exported` says whether the `env` module
/// exports its name.
pub open spec fn resolution(module: Seq<char>, exported: bool, enable_stub: bool) -> Resolution {
    if module != "env"@ {
        Resolution::Unresolved
    } else if exported {
        Resolution::Env
    } else if enable_stub {
        Resolution::Stub
    } else {
        Resolution::Unresolved
    }
}

/// Whether imports from `module` are looked for among the exports of the `env` module.
pub open spec fn looked_for_in_env(module: Seq<char>) -> bool {
    module == "env"@
}

/// Whether imports from `module` are looked for among the exports of the `env` module.
pub fn is_env(module: &str) -> (env: bool)
    ensures
        env == (module@ == "env"@),
        env == looked_for_in_env(module@),
{
    module.to_owned() == "env".to_owned()
}

impl RuntimeInterfaceResolver {
    /// Creates a resolver that has not met any missing function.
    pub fn new(enable_stub: bool) -> (resolver: RuntimeInterfaceResolver)
        ensures
            resolver@ == (ResolverView { enable_stub, missing_functions: seq![] }),
    {
        let resolver = RuntimeInterfaceResolver { enable_stub, missing_functions: Vec::new() };
        assert(resolver@.missing_functions =~= seq![]);
        resolver
    }

    /// Resolves the import named `field` from `module`. `exported` says whether the `env` module
    /// exports `field`.
    pub fn resolve(&mut self, module: &str, field: &str, exported: bool) -> (resolved: Resolution)
        ensures
            resolved == resolution(module@, exported, old(self)@.enable_stub),
            final(self)@ == after_import(
                old(self)@,
                Import { module: module@, field: field@, exported },
            ),
    {
        if !is_env(module) {
            return Resolution::Unresolved;
        }
        if exported {
            return Resolution::Env;
        }
        if self.enable_stub {
            self.missing_functions.push(field.to_owned());
            Resolution::Stub
        } else {
            Resolution::Unresolved
        }
    }

    /// The names of the functions that were replaced.
    pub fn into_missing_functions(self) -> (missing_functions: Vec<String>)
        ensures
            missing_functions@.map_values(|name: String| name@) == self@.missing_functions,
    {
        self.missing_functions
    }
}

/// An import that is to be resolved.
pub struct Import {
    /// The module that the guest imports from.
    pub module: Seq<char>,
    /// The name of the import.
    pub field: Seq<char>,
    /// Whether the `env` module exports the name.
    pub exported: bool,
}

/// What a resolver is after it has resolved an import.
pub open spec fn after_import(resolver: ResolverView, import: Import) -> ResolverView {
    ResolverView {
        missing_functions: if resolution(
            import.module,
            import.exported,
            resolver.enable_stub,
        ) is Stub {
            resolver.missing_functions.push(import.field)
        } else {
            resolver.missing_functions
        },
        ..resolver
    }
}

/// What a resolver is after it has resolved these imports, one after the other.
pub open spec fn after_imports(resolver: ResolverView, imports: Seq<Import>) -> ResolverView
    decreases imports.len(),
{
    if imports.len() == 0 {
        resolver
    } else {
        after_import(after_imports(resolver, imports.drop_last()), imports.last())
    }
}

/// The names of those imports that are replaced, in their order.
pub open spec fn replaced(imports: Seq<Import>, enable_stub: bool) -> Seq<Seq<char>>
    decreases imports.len(),
{
    if imports.len() == 0 {
        seq![]
    } else {
        let before = replaced(imports.drop_last(), enable_stub);
        if enable_stub && imports.last().module == "env"@ && !imports.last().exported {
            before.push(imports.last().field)
        } else {
            before
        }
    }
}

/// The missing functions of a resolver are the imports from `env` that the `env` module does not
/// export, in the order of their resolution; without replacement, there are none.
pub proof fn missing_functions_are_the_replaced_ones(enable_stub: bool, imports: Seq<Import>)
    ensures
        after_imports(ResolverView { enable_stub, missing_functions: seq![] }, imports) == (
        ResolverView { enable_stub, missing_functions: replaced(imports, enable_stub) }),
        !enable_stub ==> replaced(imports, enable_stub).len() == 0,
    decreases imports.len(),
{
    if imports.len() > 0 {
        missing_functions_are_the_replaced_ones(enable_stub, imports.drop_last());
    }
}

/// What an import is linked to, in all cases: an import from `env` to what the `env` module
/// exports, if it does, else to a replacement, if that is allowed; and any other import to nothing.
pub proof fn imports_come_from_env(module: Seq<char>, exported: bool, enable_stub: bool)
    ensures
        resolution(module, exported, enable_stub) is Env <==> module == "env"@ && exported,
        resolution(module, exported, enable_stub) is Stub <==> module == "env"@ && !exported
            && enable_stub,
        looked_for_in_env(module) <==> resolution(module, true, enable_stub) is Env,
{
}

/// Resolving imports takes note of the names of those that the host lacks, each as often as it is
/// resolved and in that order, and changes nothing else.
pub proof fn lacking_imports_are_noted(resolver: ResolverView, imports: Seq<Import>)
    ensures
        after_imports(resolver, imports).enable_stub == resolver.enable_stub,
        resolver.enable_stub ==> after_imports(resolver, imports).missing_functions
            == resolver.missing_functions + imports.filter(
            |import: Import| import.module == "env"@ && !import.exported,
        ).map_values(|import: Import| import.field),
        !resolver.enable_stub ==> after_imports(resolver, imports).missing_functions
            == resolver.missing_functions,
    decreases imports.len(),
{
    let lacking = |import: Import| import.module == "env"@ && !import.exported;
    let field = |import: Import| import.field;
    reveal(Seq::filter);
    if imports.len() > 0 {
        let before = imports.drop_last();
        lacking_imports_are_noted(resolver, before);
        if lacking(imports.last()) {
            assert(imports.filter(lacking).map_values(field) =~= before.filter(
                lacking,
            ).map_values(field).push(imports.last().field));
        }
    }
}

} // verus!
