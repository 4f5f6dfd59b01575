use spork::deps::{Dependencies, ManifestStore, ResolveOutcome};
use spork::error::FatalError;
use spork::targets::Target;

fn store(entries: &[(&str, Option<&str>)]) -> ManifestStore {
    let mut s = ManifestStore::new();
    for (path, text) in entries {
        s.add(path.to_string(), text.map(|t| t.to_string()));
    }
    s
}

fn paths(ps: &[&str]) -> Vec<String> {
    ps.iter().map(|p| p.to_string()).collect()
}

fn linux() -> Target {
    Target::new("x86_64-linux", false).unwrap()
}

fn windows() -> Target {
    Target::new("x86_64-windows", false).unwrap()
}

const MATHLIB: &str = "[project]\nname = \"mathlib\"\nkind = \"library\"\n";

#[test]
fn resolving_nothing_yields_an_empty_tree() {
    let s = store(&[]);
    match Dependencies::new(&s, &paths(&[]), &linux()) {
        ResolveOutcome::Resolved(ds) => assert_eq!(ds.path_to_deps.len(), 0),
        other => panic!("expected an empty tree, got {:?}", other),
    }
}

#[test]
fn a_missing_manifest_is_asked_for_by_its_path() {
    let s = store(&[]);
    match Dependencies::new(&s, &paths(&["../mathlib"]), &linux()) {
        ResolveOutcome::NeedManifest(p) => assert_eq!(p, "./../mathlib/Spork.toml"),
        other => panic!("expected a request for the manifest, got {:?}", other),
    }
}

#[test]
fn an_unreadable_manifest_is_the_missing_manifest_error() {
    let s = store(&[("./../mathlib/Spork.toml", None)]);
    match Dependencies::new(&s, &paths(&["../mathlib"]), &linux()) {
        ResolveOutcome::Failed(FatalError::NoSporkToml { path }) => {
            assert_eq!(path, "./../mathlib/Spork.toml");
        }
        other => panic!("expected the missing-manifest error, got {:?}", other),
    }
}

#[test]
fn a_library_dependency_resolves_with_its_name() {
    let s = store(&[("./../mathlib/Spork.toml", Some(MATHLIB))]);
    match Dependencies::new(&s, &paths(&["../mathlib"]), &linux()) {
        ResolveOutcome::Resolved(ds) => {
            assert_eq!(ds.path_to_deps.len(), 1);
            assert_eq!(ds.path_to_deps[0].0, "../mathlib");
            assert_eq!(ds.path_to_deps[0].1.name, "mathlib");
            assert!(ds.path_to_deps[0].1.deps.is_none());
        }
        other => panic!("expected a resolved tree, got {:?}", other),
    }
}

#[test]
fn resolution_is_idempotent() {
    let s = store(&[
        ("./libs/a/Spork.toml", Some("[project]\nname = \"a\"\nkind = \"library\"\ndependencies = [\"../b\"]\n")),
        ("./libs/a/../b/Spork.toml", Some("[project]\nname = \"b\"\nkind = \"library\"\n")),
    ]);
    let first = Dependencies::new(&s, &paths(&["libs/a"]), &linux());
    let second = Dependencies::new(&s, &paths(&["libs/a"]), &linux());
    assert_eq!(first, second);
    match first {
        ResolveOutcome::Resolved(_) => {}
        other => panic!("expected a resolved tree, got {:?}", other),
    }
}

#[test]
fn an_executable_dependency_always_fails_resolution() {
    let text = "[project]\nname = \"tool\"\nkind = \"executable\"\n";
    for target in [linux(), windows()] {
        let s = store(&[("./tool/Spork.toml", Some(text))]);
        match Dependencies::new(&s, &paths(&["tool"]), &target) {
            ResolveOutcome::Failed(FatalError::NoExecutableDependencies { name }) => {
                assert_eq!(name, "tool");
            }
            other => panic!("expected the executable-dependency error, got {:?}", other),
        }
    }
}

#[test]
fn a_target_restricted_dependency_rejects_other_targets() {
    let text = "[project]\nname = \"mathlib\"\nkind = \"library\"\ntargets = [\"x86_64-linux\"]\n";
    let s = store(&[("./../mathlib/Spork.toml", Some(text))]);
    match Dependencies::new(&s, &paths(&["../mathlib"]), &windows()) {
        ResolveOutcome::Failed(FatalError::NoTargetSupportDependency { dep, target }) => {
            assert_eq!(dep, "mathlib");
            assert_eq!(target, windows());
        }
        other => panic!("expected the target-support error, got {:?}", other),
    }
    match Dependencies::new(&s, &paths(&["../mathlib"]), &linux()) {
        ResolveOutcome::Resolved(ds) => assert_eq!(ds.path_to_deps[0].1.name, "mathlib"),
        other => panic!("expected a resolved tree, got {:?}", other),
    }
}

#[test]
fn an_empty_targets_list_supports_no_target_at_all() {
    let text = "[project]\nname = \"mathlib\"\nkind = \"library\"\ntargets = []\n";
    let s = store(&[("./../mathlib/Spork.toml", Some(text))]);
    match Dependencies::new(&s, &paths(&["../mathlib"]), &linux()) {
        ResolveOutcome::Failed(FatalError::NoTargetSupportDependency { dep, .. }) => {
            assert_eq!(dep, "mathlib");
        }
        other => panic!("expected the target-support error, got {:?}", other),
    }
}

#[test]
fn nested_dependencies_resolve_relative_to_their_own_directory() {
    let s = store(&[
        ("./libs/a/Spork.toml", Some("[project]\nname = \"a\"\nkind = \"library\"\ndependencies = [\"../b\"]\n")),
        ("./libs/a/../b/Spork.toml", Some("[project]\nname = \"b\"\nkind = \"library\"\n")),
    ]);
    match Dependencies::new(&s, &paths(&["libs/a"]), &linux()) {
        ResolveOutcome::Resolved(ds) => {
            let a = &ds.path_to_deps[0].1;
            assert_eq!(a.name, "a");
            let nested = a.deps.as_ref().unwrap();
            assert_eq!(nested.path_to_deps[0].0, "../b");
            assert_eq!(nested.path_to_deps[0].1.name, "b");
        }
        other => panic!("expected a resolved tree, got {:?}", other),
    }
}

#[test]
fn a_duplicate_path_is_resolved_once() {
    let s = store(&[("./../mathlib/Spork.toml", Some(MATHLIB))]);
    match Dependencies::new(&s, &paths(&["../mathlib", "../mathlib"]), &linux()) {
        ResolveOutcome::Resolved(ds) => assert_eq!(ds.path_to_deps.len(), 1),
        other => panic!("expected a resolved tree, got {:?}", other),
    }
}

#[test]
fn a_broken_dependency_manifest_carries_its_diagnostic() {
    let s = store(&[("./x/Spork.toml", Some("not a manifest"))]);
    match Dependencies::new(&s, &paths(&["x"]), &linux()) {
        ResolveOutcome::Failed(FatalError::BuildFileParseError { .. }) => {}
        other => panic!("expected a parse error, got {:?}", other),
    }
}

#[test]
fn the_first_store_entry_for_a_path_wins() {
    let s = store(&[
        ("./x/Spork.toml", Some(MATHLIB)),
        ("./x/Spork.toml", Some("garbage")),
    ]);
    match Dependencies::new(&s, &paths(&["x"]), &linux()) {
        ResolveOutcome::Resolved(ds) => assert_eq!(ds.path_to_deps[0].1.name, "mathlib"),
        other => panic!("expected a resolved tree, got {:?}", other),
    }
}
