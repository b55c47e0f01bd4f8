use std::sync::Arc;

use foundry_sandbox::idmap::IdMap;
use foundry_sandbox::registry::Registry;
use foundry_sandbox::sandbox::{Error, ExportSpec, Sandbox, Sandboxer};
use foundry_sandbox::stub::{ModuleRepo, StubSandboxer};

fn stub(id: &str, types: &[&str], modules: &[(&str, &str)]) -> StubSandboxer {
    let mut repo = ModuleRepo::new();
    for (path, ty) in modules {
        repo.add_module((*path).to_owned(), (*ty).to_owned());
    }
    let supported: Vec<String> = types.iter().map(|t| (*t).to_owned()).collect();
    StubSandboxer::new(id.to_owned(), supported, repo)
}

fn two_backend_registry() -> Registry<StubSandboxer> {
    let native = stub("native", &["wasm"], &[("mods/hello", "script")]);
    let interp = stub("interp", &["script"], &[("mods/hello", "script")]);
    Registry::new(vec![Arc::new(native), Arc::new(interp)])
}

#[test]
fn repeated_lookups_share_one_instance() {
    let reg = two_backend_registry();
    let a = reg.sandboxer(&"native".to_owned()).unwrap();
    let b = reg.sandboxer(&"native".to_owned()).unwrap();
    assert!(Arc::ptr_eq(&a, &b));
    assert_eq!(a.id(), "native");
}

#[test]
fn distinct_ids_never_alias() {
    let reg = two_backend_registry();
    let a = reg.sandboxer(&"native".to_owned()).unwrap();
    let b = reg.sandboxer(&"interp".to_owned()).unwrap();
    assert!(!Arc::ptr_eq(&a, &b));
    assert_eq!(a.id(), "native");
    assert_eq!(b.id(), "interp");
}

#[test]
fn unknown_id_is_absence_not_fault() {
    let reg = two_backend_registry();
    assert!(reg.sandboxer(&"nonexistent".to_owned()).is_none());
}

#[test]
fn lookups_before_and_after_build_see_the_same_directory() {
    let reg = two_backend_registry();
    // The first call builds the directory; the later ones read it.
    let first = reg.sandboxer(&"interp".to_owned()).unwrap();
    for _ in 0..3 {
        let again = reg.sandboxer(&"interp".to_owned()).unwrap();
        assert!(Arc::ptr_eq(&first, &again));
    }
    assert!(reg.sandboxer(&"nonexistent".to_owned()).is_none());
}

#[test]
fn duplicate_id_last_registered_wins() {
    let old = stub("native", &["wasm"], &[]);
    let newer = stub("native", &["script"], &[]);
    let reg = Registry::new(vec![Arc::new(old), Arc::new(newer)]);
    let h = reg.sandboxer(&"native".to_owned()).unwrap();
    assert_eq!(h.supported_module_types(), vec!["script".to_owned()]);
}

#[test]
fn load_unresolved_reference_is_module_not_found() {
    let backend = Arc::new(stub("native", &["wasm"], &[]));
    let r = backend.load(
        &"mods/ghost".to_owned(),
        &IdMap::new(),
        &Vec::new(),
        &ExportSpec::new(),
    );
    match r {
        Err(Error::ModuleNotFound { path }) => assert_eq!(path, "mods/ghost"),
        _ => panic!("expected ModuleNotFound"),
    }
}

#[test]
fn load_unsupported_type_names_reference_and_type() {
    let backend = Arc::new(stub("native", &["wasm"], &[("mods/hello", "script")]));
    let r = backend.load(
        &"mods/hello".to_owned(),
        &IdMap::new(),
        &Vec::new(),
        &ExportSpec::new(),
    );
    match r {
        Err(Error::UnsupportedModuleType { path, ty }) => {
            assert_eq!(path, "mods/hello");
            assert_eq!(ty, "script");
        }
        _ => panic!("expected UnsupportedModuleType"),
    }
}

#[test]
fn error_messages_name_the_context() {
    let missing = Error::ModuleNotFound { path: "mods/ghost".to_owned() };
    assert_eq!(missing.message(), "could not find the specified module: mods/ghost");
    assert_eq!(missing.path().as_str(), "mods/ghost");
    let unsupported = Error::UnsupportedModuleType {
        path: "mods/hello".to_owned(),
        ty: "script".to_owned(),
    };
    assert_eq!(
        unsupported.message(),
        "the module is not supported: type 'script' at 'mods/hello'"
    );
    assert_eq!(unsupported.path().as_str(), "mods/hello");
}

#[test]
fn id_map_positions_are_the_identifiers() {
    let backend = Arc::new(stub("interp", &["script"], &[("mods/hello", "script")]));
    let mut id_map = IdMap::new();
    id_map.push_service("Svc".to_owned(), vec!["m0".to_owned(), "m1".to_owned()]);
    let sandbox = backend
        .load(&"mods/hello".to_owned(), &id_map, &Vec::new(), &ExportSpec::new())
        .unwrap();
    assert_eq!(
        sandbox.resolve_name(0, 1),
        Some(("Svc".to_owned(), "m1".to_owned()))
    );
    assert_eq!(
        sandbox.resolve_name(0, 0),
        Some(("Svc".to_owned(), "m0".to_owned()))
    );
    // No other (service, member) pair resolves to Svc.m1.
    for i in 0..4usize {
        for j in 0..4usize {
            if (i, j) != (0, 1) {
                let hit = sandbox.resolve_name(i, j);
                assert_ne!(hit, Some(("Svc".to_owned(), "m1".to_owned())));
            }
        }
    }
    assert_eq!(sandbox.resolve_name(0, 2), None);
    assert_eq!(sandbox.resolve_name(1, 0), None);
}

#[test]
fn exports_are_addressed_in_specification_order() {
    let backend = Arc::new(stub("interp", &["script"], &[("mods/hello", "script")]));
    let args_a = vec![1u8, 2, 3];
    let args_b = vec![9u8];
    let mut exports = ExportSpec::new();
    exports.push_export("make_a".to_owned(), args_a.clone());
    exports.push_export("make_b".to_owned(), args_b.clone());
    let sandbox = backend
        .clone()
        .load(&"mods/hello".to_owned(), &IdMap::new(), &Vec::new(), &exports)
        .unwrap();
    assert_eq!(sandbox.export_count(), 2);
    assert_eq!(sandbox.exported(0), Some(("make_a".to_owned(), args_a.clone())));
    assert_eq!(sandbox.exported(1), Some(("make_b".to_owned(), args_b.clone())));
    assert_eq!(sandbox.exported(2), None);

    // Reordering the specification changes which index maps to which
    // constructed service.
    let mut reordered = ExportSpec::new();
    reordered.push_export("make_b".to_owned(), args_b.clone());
    reordered.push_export("make_a".to_owned(), args_a.clone());
    let swapped = backend
        .load(&"mods/hello".to_owned(), &IdMap::new(), &Vec::new(), &reordered)
        .unwrap();
    assert_eq!(swapped.exported(0), Some(("make_b".to_owned(), args_b)));
    assert_eq!(swapped.exported(1), Some(("make_a".to_owned(), args_a)));
}

#[test]
fn init_bytes_reach_the_sandbox_unchanged() {
    let backend = Arc::new(stub("interp", &["script"], &[("mods/hello", "script")]));
    let init = vec![0xa0u8, 0x01, 0xff];
    let sandbox = backend
        .load(&"mods/hello".to_owned(), &IdMap::new(), &init, &ExportSpec::new())
        .unwrap();
    assert_eq!(sandbox.init_bytes(), &init);
}

#[test]
fn disjoint_backends_accept_only_their_module_types() {
    let reg = two_backend_registry();
    let id_map = IdMap::new();
    let init: Vec<u8> = Vec::new();
    let exports = ExportSpec::new();

    let native = reg.sandboxer(&"native".to_owned()).unwrap();
    assert_eq!(native.supported_module_types(), vec!["wasm".to_owned()]);
    let refused = native.load(&"mods/hello".to_owned(), &id_map, &init, &exports);
    match refused {
        Err(Error::UnsupportedModuleType { path, ty }) => {
            assert_eq!(path, "mods/hello");
            assert_eq!(ty, "script");
        }
        _ => panic!("expected UnsupportedModuleType"),
    }

    let interp = reg.sandboxer(&"interp".to_owned()).unwrap();
    assert_eq!(interp.supported_module_types(), vec!["script".to_owned()]);
    let sandbox = interp.load(&"mods/hello".to_owned(), &id_map, &init, &exports).unwrap();
    assert_eq!(sandbox.sandboxer().id(), "interp");
    assert_eq!(sandbox.sandboxer_id(), "interp");
}

#[test]
fn sandbox_back_reference_is_the_creating_instance() {
    let backend = Arc::new(stub("interp", &["script"], &[("mods/hello", "script")]));
    let sandbox = backend
        .clone()
        .load(&"mods/hello".to_owned(), &IdMap::new(), &Vec::new(), &ExportSpec::new())
        .unwrap();
    assert!(Arc::ptr_eq(&sandbox.sandboxer(), &backend));
}

#[test]
fn empty_registry_has_no_backends() {
    let reg: Registry<StubSandboxer> = Registry::new(Vec::new());
    assert!(reg.sandboxer(&"native".to_owned()).is_none());
}

#[test]
fn empty_id_map_resolves_nothing() {
    let map = IdMap::new();
    assert_eq!(map.len(), 0);
    assert_eq!(map.resolve(0, 0), None);
}
