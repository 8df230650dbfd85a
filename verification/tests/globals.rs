use sc_executor_wasmtime::globals::clear_globals;
use std::collections::HashMap;
use wasmtime_runtime::Export;

fn with_names(names: &[&str]) -> HashMap<String, Option<Export>> {
    names.iter().map(|name| (name.to_string(), None)).collect()
}

fn names_of(global_exports: &HashMap<String, Option<Export>>) -> Vec<&str> {
    let mut names: Vec<&str> = global_exports.keys().map(|name| name.as_str()).collect();
    names.sort();
    names
}

#[test]
fn the_exports_of_an_instance_are_removed() {
    let mut global_exports = with_names(&[
        "memory",
        "__heap_base",
        "__indirect_function_table",
        "ext_malloc",
        "memory2",
    ]);
    clear_globals(&mut global_exports);
    assert_eq!(names_of(&global_exports), vec!["ext_malloc", "memory2"]);
}

#[test]
fn names_that_are_not_there_are_passed_over() {
    let mut global_exports = with_names(&["__heap_base", "Memory"]);
    clear_globals(&mut global_exports);
    assert_eq!(names_of(&global_exports), vec!["Memory"]);
    let mut global_exports = with_names(&[]);
    clear_globals(&mut global_exports);
    assert!(global_exports.is_empty());
}

#[test]
fn clearing_twice_is_clearing_once() {
    let mut global_exports = with_names(&["memory", "main"]);
    clear_globals(&mut global_exports);
    clear_globals(&mut global_exports);
    assert_eq!(names_of(&global_exports), vec!["main"]);
}
