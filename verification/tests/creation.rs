use spork::error::FatalError;
use spork::init::{new_project, CreateStep};
use spork::project::{parse_spork_file, ProjectType};

fn file_contents<'a>(steps: &'a [CreateStep], path: &str) -> &'a str {
    for step in steps {
        if let CreateStep::File(p, c) = step {
            if p == path {
                return c;
            }
        }
    }
    panic!("no file step for {}", path);
}

#[test]
fn a_new_executable_manifest_reads_back_as_declared() {
    let steps = new_project("foo", "foo", ProjectType::executable).unwrap();
    let manifest = file_contents(&steps, "foo/Spork.toml");
    let parsed = parse_spork_file(manifest).unwrap();
    assert_eq!(parsed.project.name, "foo");
    assert_eq!(parsed.project.kind, ProjectType::executable);
    assert_eq!(parsed.project.targets, None);
    assert_eq!(parsed.project.dependencies, None);
}

#[test]
fn a_new_library_manifest_reads_back_as_declared() {
    let steps = new_project("mathlib", "mathlib", ProjectType::library).unwrap();
    let manifest = file_contents(&steps, "mathlib/Spork.toml");
    let parsed = parse_spork_file(manifest).unwrap();
    assert_eq!(parsed.project.name, "mathlib");
    assert_eq!(parsed.project.kind, ProjectType::library);
}

#[test]
fn an_executable_skeleton_has_its_template_source() {
    let steps = new_project("foo", "foo", ProjectType::executable).unwrap();
    assert_eq!(steps[0], CreateStep::Dir("foo".to_string()));
    assert_eq!(steps[1], CreateStep::Dir("foo/src".to_string()));
    let main = file_contents(&steps, "foo/src/main.c");
    assert!(main.contains("int main"));
    assert_eq!(file_contents(&steps, "foo/.gitignore"), ".vscode\nbin\n");
}

#[test]
fn a_library_skeleton_has_its_public_header_tree() {
    let steps = new_project("mathlib", "mathlib", ProjectType::library).unwrap();
    assert!(steps.contains(&CreateStep::Dir("mathlib/include".to_string())));
    assert!(steps.contains(&CreateStep::Dir("mathlib/include/mathlib".to_string())));
    assert_eq!(
        file_contents(&steps, "mathlib/include/mathlib/entry.h"),
        "#pragma once\n"
    );
    for step in &steps {
        if let CreateStep::File(p, _) = step {
            assert!(p != "mathlib/src/main.c");
        }
    }
}

#[test]
fn an_invalid_name_creates_nothing() {
    for name in ["Foo", "foo-bar", "foo bar", "foo/../bar", "f00"] {
        match new_project(name, name, ProjectType::executable) {
            Err(FatalError::InvalidProjectName) => {}
            other => panic!("expected the invalid-name error, got {:?}", other),
        }
    }
}

#[test]
fn underscored_lowercase_names_are_accepted() {
    assert!(new_project("foo_bar", "foo_bar", ProjectType::executable).is_ok());
}

#[test]
fn error_messages_read_as_the_command_reports_them() {
    assert_eq!(
        FatalError::InvalidProjectName.message(),
        "project names can only contain lowercase ASCII letters and underscores"
    );
    assert_eq!(
        FatalError::NoSporkToml { path: "./x/Spork.toml".to_string() }.message(),
        "couldn't find a 'Spork.toml' file at './x/Spork.toml'"
    );
    assert_eq!(
        FatalError::BadTarget { target: "x".to_string() }.message(),
        "target 'x' must follow format 'arch-os'"
    );
    assert_eq!(FatalError::CompilationFailed.message(), "compilation failed");
    assert_eq!(FatalError::LinkFailed.message(), "linking failed");
    assert_eq!(
        FatalError::CannotRunLib.message(),
        "only executable projects can be run (use 'spork build' instead)"
    );
}

#[test]
fn target_support_messages_name_the_dependency_and_triple() {
    let target = spork::targets::Target::new("x86_64-windows", false).unwrap();
    let err = FatalError::NoTargetSupportDependency { dep: "mathlib".to_string(), target };
    assert_eq!(
        err.message(),
        "dependency 'mathlib' does not support target 'x86_64-windows'"
    );
    assert_eq!(
        FatalError::NoExecutableDependencies { name: "tool".to_string() }.message(),
        "dependencies may only be library projects - 'tool' points to an executable project"
    );
}

#[test]
fn parse_error_messages_carry_the_line_number() {
    let err = match parse_spork_file("[project]\nname = \"a\"\nkind = \"plugin\"\n") {
        Err(e) => e,
        Ok(_) => panic!("expected a parse error"),
    };
    assert_eq!(
        err.message(),
        "failed to parse 'Spork.toml':\nline 3: kind must be 'executable' or 'library'"
    );
}

#[test]
fn decimal_line_numbers_render_in_full() {
    let text = "[project]\nname = \"a\"\n\n\n\n\n\n\n\n\n\n\nkind = \"plugin\"\n";
    let err = match parse_spork_file(text) {
        Err(e) => e,
        Ok(_) => panic!("expected a parse error"),
    };
    assert_eq!(
        err.message(),
        "failed to parse 'Spork.toml':\nline 13: kind must be 'executable' or 'library'"
    );
}
