//! Creation of new projects: the exact directories and files a
//! fresh project skeleton consists of.

use vstd::prelude::*;

use crate::error::{FatalError, FatalErrorView};
use crate::project::{spec_serialize_project, serialize_project, ProjectFile, ProjectInfo,
    ProjectInfoView, ProjectType};
use crate::util::{check_project_name, valid_project_name};

verus! {

/// One step of laying a project skeleton down.
#[derive(Debug, Clone, PartialEq)]
pub enum CreateStep {
    /// Create this directory if it does not exist.
    Dir(String),
    /// Create this file with these contents.
    File(String, String),
}

/// Mathematical image of a [`CreateStep`].
pub ghost enum CreateStepV {
    Dir(Seq<char>),
    File(Seq<char>, Seq<char>),
}

impl View for CreateStep {
    type V = CreateStepV;

    open spec fn view(&self) -> CreateStepV {
        match self {
            CreateStep::Dir(p) => CreateStepV::Dir(p@),
            CreateStep::File(p, c) => CreateStepV::File(p@, c@),
        }
    }
}

/// The views of a sequence of steps.
pub open spec fn steps_view(v: Seq<CreateStep>) -> Seq<CreateStepV> {
    Seq::new(v.len(), |i: int| v[i]@)
}

/// The template source file of a new executable project.
pub open spec fn spec_main_template() -> Seq<char> {
    "#include <stdio.h>\n\nint main(void) {\n    printf(\"Hello, world!\\n\");\n    return 0;\n}\n"@
}

/// The formatting-style configuration of a new project.
pub open spec fn spec_style_template() -> Seq<char> {
    "BasedOnStyle: LLVM\nIndentWidth: 4\n"@
}

/// The ignore file of a new project.
pub open spec fn spec_ignore_template() -> Seq<char> {
    ".vscode\nbin\n"@
}

/// The entry header of a new library project.
pub open spec fn spec_entry_header_template() -> Seq<char> {
    "#pragma once\n"@
}

/// The steps that lay a new project down under `path`: the project
/// and source directories; for an executable a template source
/// file; the style and ignore files; for a library the public
/// header tree with an entry header; and the manifest declaring
/// the name and kind.
pub open spec fn spec_new_project_steps(
    name: Seq<char>,
    path: Seq<char>,
    kind: ProjectType,
) -> Seq<CreateStepV> {
    seq![CreateStepV::Dir(path), CreateStepV::Dir(path + "/src"@)] + (if kind
        == ProjectType::executable {
        seq![CreateStepV::File(path + "/src/main.c"@, spec_main_template())]
    } else {
        Seq::<CreateStepV>::empty()
    }) + seq![
        CreateStepV::File(path + "/.clang-format"@, spec_style_template()),
        CreateStepV::File(path + "/.gitignore"@, spec_ignore_template()),
    ] + (if kind == ProjectType::library {
        seq![
            CreateStepV::Dir(path + "/include"@),
            CreateStepV::Dir(path + "/include/"@ + name),
            CreateStepV::File(path + "/include/"@ + name + "/entry.h"@, spec_entry_header_template()),
        ]
    } else {
        Seq::<CreateStepV>::empty()
    }) + seq![
        CreateStepV::File(
            path + seq!['/'] + crate::SPORK_FILE_NAME@,
            spec_serialize_project(
                ProjectInfoView { name, kind, targets: None, dependencies: None },
            ),
        ),
    ]
}

/// What creating a new project named `name` under `path` does:
/// nothing but an error for an invalid name, otherwise the exact
/// skeleton steps, in order.
pub open spec fn spec_new_project(name: Seq<char>, path: Seq<char>, kind: ProjectType) -> Result<
    Seq<CreateStepV>,
    FatalErrorView,
> {
    if !valid_project_name(name) {
        Err(FatalErrorView::InvalidProjectName)
    } else {
        Ok(spec_new_project_steps(name, path, kind))
    }
}

/// Plans a new project skeleton. The caller carries the steps out
/// in order and then initializes version control in the project
/// directory.
pub fn new_project(name: &str, path: &str, project_type: ProjectType) -> (r: Result<
    Vec<CreateStep>,
    FatalError,
>)
    ensures
        (spec_new_project(name@, path@, project_type) matches Ok(steps) ==> r matches Ok(v)
            && steps_view(v@) == steps),
        (spec_new_project(name@, path@, project_type) matches Err(e) ==> r matches Err(x) && x@
            == e),
{
    match check_project_name(name) {
        Err(e) => {
            return Err(e);
        },
        Ok(()) => {},
    }
    let mut v: Vec<CreateStep> = Vec::new();
    v.push(CreateStep::Dir(String::from_str(path)));
    v.push(CreateStep::Dir(String::from_str(path).concat("/src")));
    if matches!(project_type, ProjectType::executable) {
        v.push(
            CreateStep::File(
                String::from_str(path).concat("/src/main.c"),
                String::from_str(
                    "#include <stdio.h>\n\nint main(void) {\n    printf(\"Hello, world!\\n\");\n    return 0;\n}\n",
                ),
            ),
        );
    }
    v.push(
        CreateStep::File(
            String::from_str(path).concat("/.clang-format"),
            String::from_str("BasedOnStyle: LLVM\nIndentWidth: 4\n"),
        ),
    );
    v.push(
        CreateStep::File(
            String::from_str(path).concat("/.gitignore"),
            String::from_str(".vscode\nbin\n"),
        ),
    );
    if matches!(project_type, ProjectType::library) {
        v.push(CreateStep::Dir(String::from_str(path).concat("/include")));
        v.push(CreateStep::Dir(String::from_str(path).concat("/include/").concat(name)));
        v.push(
            CreateStep::File(
                String::from_str(path).concat("/include/").concat(name).concat("/entry.h"),
                String::from_str("#pragma once\n"),
            ),
        );
    }
    let manifest = ProjectFile {
        project: ProjectInfo {
            name: String::from_str(name),
            kind: project_type,
            targets: None,
            dependencies: None,
        },
    };
    let text = serialize_project(&manifest);
    v.push(
        CreateStep::File(String::from_str(path).concat("/").concat(crate::SPORK_FILE_NAME), text),
    );
    proof {
        reveal_strlit("/");
        assert("/"@ =~= seq!['/']);
        let sv = steps_view(v@);
        let sp = spec_new_project_steps(name@, path@, project_type);
        assert(sv.len() == sp.len());
        match project_type {
            ProjectType::executable => {
                assert(sp.len() == 6);
                assert(sv[0] == sp[0]);
                assert(sv[1] == sp[1]);
                assert(sv[2] == sp[2]);
                assert(sv[3] == sp[3]);
                assert(sv[4] == sp[4]);
                assert(sv[5] == sp[5]);
            },
            ProjectType::library => {
                assert(sp.len() == 8);
                assert(sv[0] == sp[0]);
                assert(sv[1] == sp[1]);
                assert(sv[2] == sp[2]);
                assert(sv[3] == sp[3]);
                assert(sv[4] == sp[4]);
                assert(sv[5] == sp[5]);
                assert(sv[6] == sp[6]);
                assert(sv[7] == sp[7]);
            },
        }
        assert(sv =~= sp);
    }
    Ok(v)
}

} // verus!
