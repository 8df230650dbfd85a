use sc_executor_wasmtime::resolver::{is_env, Resolution, RuntimeInterfaceResolver};
use sc_executor_wasmtime::wasmtime_missing_externals::missing_external_function;

#[test]
fn exports_of_env_are_resolved() {
    let mut resolver = RuntimeInterfaceResolver::new(false);
    assert_eq!(resolver.resolve("env", "ext_malloc", true), Resolution::Env);
    let mut resolver = RuntimeInterfaceResolver::new(true);
    assert_eq!(resolver.resolve("env", "ext_malloc", true), Resolution::Env);
    assert_eq!(resolver.into_missing_functions(), Vec::<String>::new());
}

#[test]
fn other_modules_are_not_resolved() {
    let mut resolver = RuntimeInterfaceResolver::new(true);
    assert_eq!(resolver.resolve("wasi", "ext_malloc", true), Resolution::Unresolved);
    assert_eq!(resolver.resolve("", "ext_malloc", true), Resolution::Unresolved);
    assert_eq!(resolver.resolve("env2", "ext_free", false), Resolution::Unresolved);
    assert_eq!(resolver.into_missing_functions(), Vec::<String>::new());
}

#[test]
fn missing_functions_are_not_resolved_without_stubs() {
    let mut resolver = RuntimeInterfaceResolver::new(false);
    assert_eq!(resolver.resolve("env", "ext_malloc", false), Resolution::Unresolved);
    assert_eq!(resolver.into_missing_functions(), Vec::<String>::new());
}

#[test]
fn missing_functions_are_replaced_and_listed_with_stubs() {
    let mut resolver = RuntimeInterfaceResolver::new(true);
    assert_eq!(resolver.resolve("env", "ext_b", false), Resolution::Stub);
    assert_eq!(resolver.resolve("env", "ext_malloc", true), Resolution::Env);
    assert_eq!(resolver.resolve("wasi", "ext_c", false), Resolution::Unresolved);
    assert_eq!(resolver.resolve("env", "ext_a", false), Resolution::Stub);
    assert_eq!(resolver.resolve("env", "ext_b", false), Resolution::Stub);
    assert_eq!(resolver.into_missing_functions(), vec!["ext_b", "ext_a", "ext_b"]);
}

#[test]
fn the_replacement_does_nothing() {
    let function = missing_external_function();
    assert_eq!(function.name(), "missing_external");
    assert!(function.signature().args.is_empty());
    assert_eq!(function.signature().return_value, None);
    assert_eq!(function.execute(&vec![]), Ok(None));
}

#[test]
fn only_env_is_looked_into() {
    assert!(is_env("env"));
    assert!(!is_env("Env"));
    assert!(!is_env(""));
    assert!(!is_env("env2"));
}
