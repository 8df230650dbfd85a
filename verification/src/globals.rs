//! The exports that all instances share.
use std::collections::HashMap;
use vstd::prelude::*;
use wasmtime_runtime::Export;

verus! {

/// The value of an export, passed from one instance to another.
#[verifier::external_type_specification]
#[verifier::external_body]
pub struct ExExport(Export);

/// The exports, by their names. `None` stands for a name that several instances export.
pub open spec fn by_name(exports: Map<String, Option<Export>>) -> Map<Seq<char>, Option<Export>> {
    Map::new(
        |name: Seq<char>| exists|key: String| #[trigger] exports.contains_key(key) && key@ == name,
        |name: Seq<char>|
            exports[choose|key: String| #[trigger] exports.contains_key(key) && key@ == name],
    )
}

/// The names of the exports that every instance of a runtime has.
pub open spec fn is_instance_global(name: Seq<char>) -> bool {
    ||| name == "memory"@
    ||| name == "__heap_base"@
    ||| name == "__indirect_function_table"@
}

/// The exports without those that every instance of a runtime has.
pub open spec fn cleared(exports: Map<Seq<char>, Option<Export>>) -> Map<
    Seq<char>,
    Option<Export>,
> {
    exports.remove_keys(Set::new(|name: Seq<char>| is_instance_global(name)))
}

/// `HashMap::remove` takes the entry of the given name out of the map, if there is one, and leaves
/// all others as they are.
#[verifier::external_body]
fn remove(global_exports: &mut HashMap<String, Option<Export>>, name: &str)
    ensures
        by_name(final(global_exports)@) == by_name(old(global_exports)@).remove(name@),
{
    global_exports.remove(name);
}

/// Removes the exports of the instance that a runtime had last.
///
/// An instance that comes to export a name which is taken already does not replace the old export:
/// neither can be found any more.
pub fn clear_globals(global_exports: &mut HashMap<String, Option<Export>>)
    ensures
        by_name(final(global_exports)@) == cleared(by_name(old(global_exports)@)),
{
    let ghost before = by_name(global_exports@);
    remove(global_exports, "memory");
    remove(global_exports, "__heap_base");
    remove(global_exports, "__indirect_function_table");
    assert(by_name(global_exports@) =~= cleared(before));
}

/// Once the exports are cleared, the names of an instance are free, every other export is still
/// there, and clearing them again changes nothing.
pub proof fn clearing_frees_instance_names(exports: Map<Seq<char>, Option<Export>>)
    ensures
        forall|name: Seq<char>|
            is_instance_global(name) ==> !(#[trigger] cleared(exports).contains_key(name)),
        forall|name: Seq<char>|
            !is_instance_global(name) ==> {
                &&& #[trigger] cleared(exports).contains_key(name) == exports.contains_key(name)
                &&& exports.contains_key(name) ==> cleared(exports)[name] == exports[name]
            },
        cleared(cleared(exports)) == cleared(exports),
{
    assert(cleared(cleared(exports)) =~= cleared(exports));
}

/// Clearing the exports takes `memory`, `__heap_base` and `__indirect_function_table` away, and
/// nothing else.
pub proof fn these_names_are_cleared(exports: Map<Seq<char>, Option<Export>>, name: Seq<char>)
    ensures
        name == "memory"@ || name == "__heap_base"@ || name == "__indirect_function_table"@
            ==> !cleared(exports).contains_key(name),
        name != "memory"@ && name != "__heap_base"@ && name != "__indirect_function_table"@ ==> {
            &&& cleared(exports).contains_key(name) <==> exports.contains_key(name)
            &&& exports.contains_key(name) ==> cleared(exports)[name] == exports[name]
        },
{
}

/// The exports are known by all of their names, and each by the name that it has.
pub proof fn exports_are_known_by_name(exports: Map<String, Option<Export>>, key: String)
    ensures
        exports.contains_key(key) ==> by_name(exports).contains_key(key@),
        by_name(exports).contains_key(key@) ==> exists|other: String| #[trigger]
            exports.contains_key(other) && other@ == key@,
        exports.contains_key(key) && (forall|other: String| #[trigger]
            exports.contains_key(other) && other@ == key@ ==> other == key) ==> by_name(
            exports,
        )[key@] == exports[key],
{
}

} // verus!
