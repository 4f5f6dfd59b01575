use spork::error::{FatalError, ParseDiag, ParseReason};
use spork::project::{parse_spork_file, serialize_project, ProjectFile, ProjectInfo, ProjectType};
use spork::workspace::{check_member_manifest, parse_manifest, parse_spork_workspace, SporkManifest};

#[test]
fn parses_a_minimal_project() {
    let text = "[project]\nname = \"demo\"\nkind = \"executable\"\n";
    let f = parse_spork_file(text).unwrap();
    assert_eq!(f.project.name, "demo");
    assert_eq!(f.project.kind, ProjectType::executable);
    assert_eq!(f.project.targets, None);
    assert_eq!(f.project.dependencies, None);
}

#[test]
fn parses_targets_and_dependencies_arrays() {
    let text = "# build description\n[project]\nname = \"demo\"\nkind = \"library\"\ntargets = [\"x86_64-linux\", \"x86-windows\"]\ndependencies = [\"../mathlib\"]\n";
    let f = parse_spork_file(text).unwrap();
    assert_eq!(f.project.kind, ProjectType::library);
    assert_eq!(
        f.project.targets,
        Some(vec!["x86_64-linux".to_string(), "x86-windows".to_string()])
    );
    assert_eq!(f.project.dependencies, Some(vec!["../mathlib".to_string()]));
}

#[test]
fn an_empty_targets_array_stays_distinct_from_an_absent_one() {
    let text = "[project]\nname = \"demo\"\nkind = \"executable\"\ntargets = []\n";
    let f = parse_spork_file(text).unwrap();
    assert_eq!(f.project.targets, Some(vec![]));
}

#[test]
fn unknown_keys_and_sections_are_ignored() {
    let text = "version = \"7\"\n[project]\nname = \"demo\"\nkind = \"executable\"\nmotto = \"onward\"\n[metadata]\nname = \"something else\"\n";
    let f = parse_spork_file(text).unwrap();
    assert_eq!(f.project.name, "demo");
}

#[test]
fn a_missing_name_is_reported_at_the_end_of_the_document() {
    let text = "[project]\nkind = \"executable\"\n";
    match parse_spork_file(text) {
        Err(FatalError::BuildFileParseError { diag }) => {
            assert_eq!(diag, ParseDiag { line: 0, reason: ParseReason::MissingName });
        }
        other => panic!("expected a parse error, got {:?}", other),
    }
}

#[test]
fn an_unknown_kind_is_reported_with_its_line() {
    let text = "[project]\nname = \"demo\"\nkind = \"plugin\"\n";
    match parse_spork_file(text) {
        Err(FatalError::BuildFileParseError { diag }) => {
            assert_eq!(diag, ParseDiag { line: 3, reason: ParseReason::UnknownKind });
        }
        other => panic!("expected a parse error, got {:?}", other),
    }
}

#[test]
fn a_duplicate_key_is_rejected() {
    let text = "[project]\nname = \"a\"\nname = \"b\"\nkind = \"executable\"\n";
    match parse_spork_file(text) {
        Err(FatalError::BuildFileParseError { diag }) => {
            assert_eq!(diag, ParseDiag { line: 3, reason: ParseReason::DuplicateKey });
        }
        other => panic!("expected a parse error, got {:?}", other),
    }
}

#[test]
fn a_garbled_line_is_a_syntax_error() {
    let text = "[project]\nname? whatever\n";
    match parse_spork_file(text) {
        Err(FatalError::BuildFileParseError { diag }) => {
            assert_eq!(diag, ParseDiag { line: 2, reason: ParseReason::Syntax });
        }
        other => panic!("expected a parse error, got {:?}", other),
    }
}

#[test]
fn a_kind_given_an_array_is_a_type_error() {
    let text = "[project]\nname = \"demo\"\nkind = [\"executable\"]\n";
    match parse_spork_file(text) {
        Err(FatalError::BuildFileParseError { diag }) => {
            assert_eq!(diag, ParseDiag { line: 3, reason: ParseReason::ExpectedString });
        }
        other => panic!("expected a parse error, got {:?}", other),
    }
}

#[test]
fn targets_given_a_string_is_a_type_error() {
    let text = "[project]\nname = \"demo\"\nkind = \"executable\"\ntargets = \"x86-linux\"\n";
    match parse_spork_file(text) {
        Err(FatalError::BuildFileParseError { diag }) => {
            assert_eq!(diag, ParseDiag { line: 4, reason: ParseReason::ExpectedArray });
        }
        other => panic!("expected a parse error, got {:?}", other),
    }
}

#[test]
fn serializing_and_parsing_gives_the_project_back() {
    let file = ProjectFile {
        project: ProjectInfo {
            name: "demo".to_string(),
            kind: ProjectType::library,
            targets: Some(vec!["x86_64-linux".to_string(), "x86-windows".to_string()]),
            dependencies: Some(vec!["../mathlib".to_string()]),
        },
    };
    let text = serialize_project(&file);
    let back = parse_spork_file(&text).unwrap();
    assert_eq!(back, file);
}

#[test]
fn serializing_keeps_absent_lists_absent() {
    let file = ProjectFile {
        project: ProjectInfo {
            name: "demo".to_string(),
            kind: ProjectType::executable,
            targets: None,
            dependencies: None,
        },
    };
    let text = serialize_project(&file);
    assert_eq!(text, "[project]\nname = \"demo\"\nkind = \"executable\"\n");
    let back = parse_spork_file(&text).unwrap();
    assert_eq!(back, file);
}

#[test]
fn parses_a_workspace() {
    let text = "[workspace]\ncore = \"https://example.org/core.git\"\ntools = \"https://example.org/tools.git\"\n";
    let w = parse_spork_workspace(text).unwrap();
    assert_eq!(
        w.workspace,
        vec![
            ("core".to_string(), "https://example.org/core.git".to_string()),
            ("tools".to_string(), "https://example.org/tools.git".to_string()),
        ]
    );
}

#[test]
fn a_duplicate_member_name_is_rejected() {
    let text = "[workspace]\ncore = \"a\"\ncore = \"b\"\n";
    match parse_spork_workspace(text) {
        Err(FatalError::BuildFileParseError { diag }) => {
            assert_eq!(diag, ParseDiag { line: 3, reason: ParseReason::DuplicateKey });
        }
        other => panic!("expected a parse error, got {:?}", other),
    }
}

#[test]
fn the_fallback_prefers_the_project_shape() {
    let text = "[project]\nname = \"demo\"\nkind = \"executable\"\n";
    match parse_manifest(text).unwrap() {
        SporkManifest::Project(p) => assert_eq!(p.project.name, "demo"),
        SporkManifest::Workspace(_) => panic!("parsed as a workspace"),
    }
}

#[test]
fn the_fallback_accepts_a_workspace() {
    let text = "[workspace]\ncore = \"https://example.org/core.git\"\n";
    match parse_manifest(text).unwrap() {
        SporkManifest::Workspace(w) => assert_eq!(w.workspace.len(), 1),
        SporkManifest::Project(_) => panic!("parsed as a project"),
    }
}

#[test]
fn when_both_shapes_fail_the_project_diagnostic_stands() {
    let text = "[settings]\nleft = \"right\"\n";
    match parse_manifest(text) {
        Err(FatalError::BuildFileParseError { diag }) => {
            assert_eq!(diag, ParseDiag { line: 0, reason: ParseReason::MissingName });
        }
        other => panic!("expected a parse error, got {:?}", other),
    }
}

#[test]
fn a_nested_workspace_member_is_rejected() {
    let member = parse_manifest("[workspace]\ninner = \"https://example.org/x.git\"\n").unwrap();
    match check_member_manifest(member) {
        Err(FatalError::NoNestedWorkspaces) => {}
        other => panic!("expected the nested-workspace error, got {:?}", other),
    }
}

#[test]
fn a_project_member_passes_the_member_check() {
    let member = parse_manifest("[project]\nname = \"demo\"\nkind = \"library\"\n").unwrap();
    let p = check_member_manifest(member).unwrap();
    assert_eq!(p.project.name, "demo");
}

#[test]
fn windows_line_endings_parse_the_same_way() {
    let text = "[project]\r\nname = \"demo\"\r\nkind = \"executable\"\r\n";
    let f = parse_spork_file(text).unwrap();
    assert_eq!(f.project.name, "demo");
}
