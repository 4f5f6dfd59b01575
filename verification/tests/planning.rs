use spork::deps::ManifestStore;
use spork::error::FatalError;
use spork::plan::{
    after_compiles, after_link, out_dir, plan_for_target, run_selection, select_targets,
    BuildInfo, OneBuild, SourceListings, TargetSelection,
};
use spork::project::{parse_spork_file, ProjectType};
use spork::targets::Target;

fn linux() -> Target {
    Target::new("x86_64-linux", false).unwrap()
}

fn windows() -> Target {
    Target::new("x86_64-windows", false).unwrap()
}

fn listings(entries: &[(&str, &[&str])]) -> SourceListings {
    let mut ls = SourceListings::new();
    for (dir, files) in entries {
        ls.add(
            dir.to_string(),
            files.iter().map(|f| f.to_string()).collect(),
        );
    }
    ls
}

const MATHLIB: &str = "[project]\nname = \"mathlib\"\nkind = \"library\"\n";

#[test]
fn the_output_directory_encodes_target_and_configuration() {
    assert_eq!(out_dir(".", &linux(), false), "./bin/x86_64-linux/debug");
    assert_eq!(out_dir(".", &linux(), true), "./bin/x86_64-linux/release");
    assert_eq!(out_dir("/work", &windows(), false), "/work/bin/x86_64-windows/debug");
}

#[test]
fn a_library_build_for_linux_plans_the_shared_object() {
    let project = parse_spork_file(MATHLIB).unwrap().project;
    let store = ManifestStore::new();
    let ls = listings(&[(".", &["src/math.c"])]);
    match plan_for_target(&project, false, &linux(), &store, &ls, ".") {
        OneBuild::Planned(pb) => {
            assert_eq!(pb.plans.len(), 1);
            let p = &pb.plans[0];
            assert_eq!(p.name, "mathlib");
            assert_eq!(p.obj_dir, "./bin/x86_64-linux/debug/obj");
            assert_eq!(p.artifact_path, "./bin/x86_64-linux/debug/libmathlib.so");
            assert_eq!(p.recorded_path, "./bin/x86_64-linux/debug/mathlib.so");
            assert_eq!(p.compiles.len(), 1);
            assert_eq!(
                p.compiles[0],
                vec![
                    "cc",
                    "-std=c17",
                    "-Wall",
                    "-Wextra",
                    "-Wpedantic",
                    "-target",
                    "x86_64-linux-gnu",
                    "-c",
                    "./src/math.c",
                    "-o",
                    "./bin/x86_64-linux/debug/obj/math.o",
                    "-I./src",
                    "-I./include",
                    "-DSPORK_EXPORT",
                    "-O0",
                    "-g",
                    "-DSPORK_DEBUG",
                ]
            );
            assert_eq!(
                p.link_args,
                vec![
                    "cc",
                    "-std=c17",
                    "-Wall",
                    "-Wextra",
                    "-Wpedantic",
                    "-target",
                    "x86_64-linux-gnu",
                    "-L./bin/x86_64-linux/debug",
                    "./bin/x86_64-linux/debug/obj/math.o",
                    "-shared",
                    "-o",
                    "./bin/x86_64-linux/debug/libmathlib.so",
                    "-O0",
                    "-g",
                ]
            );
        }
        other => panic!("expected a planned build, got {:?}", other),
    }
}

#[test]
fn a_library_build_for_windows_plans_the_dll_and_import_library() {
    let project = parse_spork_file(MATHLIB).unwrap().project;
    let store = ManifestStore::new();
    let ls = listings(&[(".", &["src/math.c"])]);
    match plan_for_target(&project, false, &windows(), &store, &ls, ".") {
        OneBuild::Planned(pb) => {
            let p = &pb.plans[0];
            assert_eq!(p.artifact_path, "./bin/x86_64-windows/debug/mathlib.dll");
            assert_eq!(p.recorded_path, "./bin/x86_64-windows/debug/mathlib.dll");
            assert!(p.link_args.contains(
                &"-Wl,--out-implib,./bin/x86_64-windows/debug/mathlib.lib".to_string()
            ));
        }
        other => panic!("expected a planned build, got {:?}", other),
    }
}

#[test]
fn release_builds_optimize_and_strip() {
    let project = parse_spork_file(MATHLIB).unwrap().project;
    let store = ManifestStore::new();
    let ls = listings(&[(".", &["src/math.c"])]);
    match plan_for_target(&project, true, &linux(), &store, &ls, ".") {
        OneBuild::Planned(pb) => {
            let p = &pb.plans[0];
            assert_eq!(p.obj_dir, "./bin/x86_64-linux/release/obj");
            assert!(p.compiles[0].contains(&"-O3".to_string()));
            assert!(p.compiles[0].contains(&"-s".to_string()));
            assert!(!p.compiles[0].contains(&"-g".to_string()));
            assert!(!p.compiles[0].contains(&"-DSPORK_DEBUG".to_string()));
        }
        other => panic!("expected a planned build, got {:?}", other),
    }
}

#[test]
fn source_paths_in_subdirectories_flatten_into_object_names() {
    let project = parse_spork_file(MATHLIB).unwrap().project;
    let store = ManifestStore::new();
    let ls = listings(&[(".", &["src/util/io.c"])]);
    match plan_for_target(&project, false, &linux(), &store, &ls, ".") {
        OneBuild::Planned(pb) => {
            let args = &pb.plans[0].compiles[0];
            assert!(args.contains(&"./bin/x86_64-linux/debug/obj/util-io.o".to_string()));
        }
        other => panic!("expected a planned build, got {:?}", other),
    }
}

#[test]
fn a_project_without_c_sources_fails_before_any_link() {
    let project = parse_spork_file(MATHLIB).unwrap().project;
    let store = ManifestStore::new();
    let ls = listings(&[(".", &["src/defs.h", "src/readme.txt"])]);
    match plan_for_target(&project, false, &linux(), &store, &ls, ".") {
        OneBuild::Failed(FatalError::NoSourceFiles) => {}
        other => panic!("expected the no-sources error, got {:?}", other),
    }
}

#[test]
fn unrecognized_files_are_skipped_with_a_warning_and_headers_silently() {
    let project = parse_spork_file(MATHLIB).unwrap().project;
    let store = ManifestStore::new();
    let ls = listings(&[(".", &["src/math.c", "src/math.h", "src/notes.txt"])]);
    match plan_for_target(&project, false, &linux(), &store, &ls, ".") {
        OneBuild::Planned(pb) => {
            let p = &pb.plans[0];
            assert_eq!(p.skipped, vec!["src/notes.txt"]);
            assert_eq!(p.compiles.len(), 1);
        }
        other => panic!("expected a planned build, got {:?}", other),
    }
}

#[test]
fn an_executable_links_its_dependencies_after_building_them() {
    let text = "[project]\nname = \"app\"\nkind = \"executable\"\ndependencies = [\"../mathlib\"]\n";
    let project = parse_spork_file(text).unwrap().project;
    let mut store = ManifestStore::new();
    store.add("./../mathlib/Spork.toml".to_string(), Some(MATHLIB.to_string()));
    let ls = listings(&[
        (".", &["src/main.c"]),
        ("./../mathlib", &["src/math.c"]),
    ]);
    match plan_for_target(&project, false, &linux(), &store, &ls, ".") {
        OneBuild::Planned(pb) => {
            assert_eq!(pb.plans.len(), 2);
            assert_eq!(pb.plans[0].name, "mathlib");
            assert_eq!(pb.plans[0].base_dir, "./../mathlib");
            assert_eq!(pb.plans[1].name, "app");
            assert_eq!(pb.plans[1].base_dir, ".");
            let dep_compile = &pb.plans[0].compiles[0];
            assert!(dep_compile.contains(&"./../mathlib/src/math.c".to_string()));
            assert!(dep_compile.contains(&"-I./../mathlib/src".to_string()));
            let app_compile = &pb.plans[1].compiles[0];
            assert!(app_compile.contains(&"-I./../mathlib/include".to_string()));
            let link = &pb.plans[1].link_args;
            assert!(link.contains(&"-Wl,-rpath,.".to_string()));
            assert!(link.contains(&"-lmathlib".to_string()));
            assert_eq!(pb.plans[1].artifact_path, "./bin/x86_64-linux/debug/app");
            assert_eq!(pb.info.name, "app");
            assert_eq!(pb.info.output_path, None);
        }
        other => panic!("expected a planned build, got {:?}", other),
    }
}

#[test]
fn planning_asks_for_missing_manifests_and_listings() {
    let text = "[project]\nname = \"app\"\nkind = \"executable\"\ndependencies = [\"../mathlib\"]\n";
    let project = parse_spork_file(text).unwrap().project;
    let store = ManifestStore::new();
    let ls = SourceListings::new();
    match plan_for_target(&project, false, &linux(), &store, &ls, ".") {
        OneBuild::NeedManifest(p) => assert_eq!(p, "./../mathlib/Spork.toml"),
        other => panic!("expected a request for the manifest, got {:?}", other),
    }
    let mut store = ManifestStore::new();
    store.add("./../mathlib/Spork.toml".to_string(), Some(MATHLIB.to_string()));
    match plan_for_target(&project, false, &linux(), &store, &ls, ".") {
        OneBuild::NeedSources(d) => assert_eq!(d, "./../mathlib"),
        other => panic!("expected a request for sources, got {:?}", other),
    }
}

#[test]
fn an_empty_targets_list_builds_nothing_and_only_warns() {
    let text = "[project]\nname = \"app\"\nkind = \"executable\"\ntargets = []\n";
    let project = parse_spork_file(text).unwrap().project;
    assert_eq!(
        select_targets(&project, true).unwrap(),
        TargetSelection::NoneDeclared
    );
    assert_eq!(
        select_targets(&project, false).unwrap(),
        TargetSelection::NoneDeclared
    );
}

#[test]
fn no_declared_targets_means_the_host_target() {
    let project = parse_spork_file(MATHLIB).unwrap().project;
    assert_eq!(
        select_targets(&project, false).unwrap(),
        TargetSelection::HostNeeded
    );
}

#[test]
fn without_all_only_the_first_declared_target_builds() {
    let text = "[project]\nname = \"app\"\nkind = \"executable\"\ntargets = [\"x86-linux\", \"x86_64-windows\"]\n";
    let project = parse_spork_file(text).unwrap().project;
    assert_eq!(
        select_targets(&project, false).unwrap(),
        TargetSelection::Chosen(vec![Target::new("x86-linux", false).unwrap()])
    );
    assert_eq!(
        select_targets(&project, true).unwrap(),
        TargetSelection::Chosen(vec![
            Target::new("x86-linux", false).unwrap(),
            Target::new("x86_64-windows", false).unwrap(),
        ])
    );
}

#[test]
fn a_bad_declared_triple_fails_selection() {
    let text = "[project]\nname = \"app\"\nkind = \"executable\"\ntargets = [\"sparc-linux\"]\n";
    let project = parse_spork_file(text).unwrap().project;
    match select_targets(&project, false) {
        Err(FatalError::InvalidTargetArch { arch }) => assert_eq!(arch, "sparc"),
        other => panic!("expected an invalid-architecture error, got {:?}", other),
    }
}

fn built_info(kind: ProjectType, target: Target, path: Option<&str>) -> BuildInfo {
    BuildInfo {
        name: "app".to_string(),
        release: false,
        kind,
        target,
        output_path: path.map(|p| p.to_string()),
        dependencies: None,
    }
}

#[test]
fn running_a_library_fails() {
    let infos = vec![built_info(ProjectType::library, linux(), Some("./x"))];
    match run_selection(&infos, &linux()) {
        Err(FatalError::CannotRunLib) => {}
        other => panic!("expected the cannot-run-library error, got {:?}", other),
    }
}

#[test]
fn running_with_no_host_build_fails() {
    let infos = vec![built_info(ProjectType::executable, windows(), Some("./x"))];
    match run_selection(&infos, &linux()) {
        Err(FatalError::NoSupportedTargets) => {}
        other => panic!("expected the no-supported-targets error, got {:?}", other),
    }
}

#[test]
fn running_picks_every_host_artifact_in_order() {
    let infos = vec![
        built_info(ProjectType::executable, windows(), Some("./w")),
        built_info(ProjectType::executable, linux(), Some("./first")),
        built_info(ProjectType::executable, linux(), Some("./second")),
    ];
    assert_eq!(
        run_selection(&infos, &linux()).unwrap(),
        vec!["./first", "./second"]
    );
}

#[test]
fn any_failed_compile_fails_the_build_after_all_compiles() {
    assert_eq!(after_compiles(&vec![true, true]), Ok(()));
    assert_eq!(after_compiles(&vec![]), Ok(()));
    assert_eq!(
        after_compiles(&vec![true, false, true]),
        Err(FatalError::CompilationFailed)
    );
    assert_eq!(after_link(true), Ok(()));
    assert_eq!(after_link(false), Err(FatalError::LinkFailed));
}

#[test]
fn a_build_announces_its_kind_configuration_and_target() {
    let info = built_info(ProjectType::executable, linux(), None);
    assert_eq!(info.describe(), "executable, debug, x86_64-linux");
    let mut lib = built_info(ProjectType::library, windows(), None);
    lib.release = true;
    assert_eq!(lib.describe(), "library, release, x86_64-windows");
}
