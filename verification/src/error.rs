//! The closed taxonomy of fatal errors the engine can report.

use vstd::prelude::*;

use crate::targets::Target;

verus! {

/// Reason a manifest text was rejected by the manifest grammar.
#[derive(Clone, Copy, Debug, PartialEq, Eq, Structural)]
pub enum ParseReason {
    /// A line is not blank, not a comment, not a section header and
    /// not a well-formed `key = value` pair.
    Syntax,
    /// The same section header appears twice.
    DuplicateSection,
    /// The same key appears twice inside one section.
    DuplicateKey,
    /// A key that needs a quoted string got something else.
    ExpectedString,
    /// A key that needs an array of strings got something else.
    ExpectedArray,
    /// The `kind` key holds neither `executable` nor `library`.
    UnknownKind,
    /// The document ended without a `name` key in `[project]`.
    MissingName,
    /// The document ended without a `kind` key in `[project]`.
    MissingKind,
    /// The document has no `[workspace]` section.
    MissingWorkspace,
}

/// Where and why a manifest text was rejected. `line` is 1-based;
/// line 0 marks conditions detected at the end of the document.
#[derive(Clone, Copy, Debug, PartialEq, Eq, Structural)]
pub struct ParseDiag {
    pub line: usize,
    pub reason: ParseReason,
}

/// Mathematical image of a [`FatalError`]: the same variants with
/// string fields abstracted to character sequences.
pub enum FatalErrorView {
    InvalidProjectName,
    BuildFileParseError { diag: ParseDiag },
    CompilationFailed,
    LinkFailed,
    CannotRunLib,
    NoSporkToml { path: Seq<char> },
    NoSourceFiles,
    NoSupportedTargets,
    BadTarget { target: Seq<char> },
    InvalidTargetArch { arch: Seq<char> },
    InvalidTargetOS { os: Seq<char> },
    NoExecutableDependencies { name: Seq<char> },
    NoTargetSupportDependency { dep: Seq<char>, target: Target },
    NoNestedWorkspaces,
}

/// An error fatal to the current command. Every fallible operation
/// of the engine reports one of these; none of them panics.
#[derive(Debug, Clone, PartialEq)]
pub enum FatalError {
    /// A project or workspace-member name holds a character outside
    /// lowercase ASCII letters and underscores.
    InvalidProjectName,
    /// The manifest text does not follow the manifest grammar.
    BuildFileParseError { diag: ParseDiag },
    /// At least one source file failed to compile.
    CompilationFailed,
    /// The link step failed.
    LinkFailed,
    /// `run` was asked of a library project.
    CannotRunLib,
    /// No manifest file could be read at the given path.
    NoSporkToml { path: String },
    /// The project has no source files to compile.
    NoSourceFiles,
    /// No built artifact matches the host target.
    NoSupportedTargets,
    /// A target triple is not of the form `arch-os`.
    BadTarget { target: String },
    /// The architecture component of a triple is unknown.
    InvalidTargetArch { arch: String },
    /// The operating-system component of a triple is unknown.
    InvalidTargetOS { os: String },
    /// A dependency points at an executable project.
    NoExecutableDependencies { name: String },
    /// A dependency does not support the requested target.
    NoTargetSupportDependency { dep: String, target: Target },
    /// A workspace member is itself a workspace.
    NoNestedWorkspaces,
}

impl View for FatalError {
    type V = FatalErrorView;

    open spec fn view(&self) -> FatalErrorView {
        match self {
            FatalError::InvalidProjectName => FatalErrorView::InvalidProjectName,
            FatalError::BuildFileParseError { diag } => FatalErrorView::BuildFileParseError {
                diag: *diag,
            },
            FatalError::CompilationFailed => FatalErrorView::CompilationFailed,
            FatalError::LinkFailed => FatalErrorView::LinkFailed,
            FatalError::CannotRunLib => FatalErrorView::CannotRunLib,
            FatalError::NoSporkToml { path } => FatalErrorView::NoSporkToml { path: path@ },
            FatalError::NoSourceFiles => FatalErrorView::NoSourceFiles,
            FatalError::NoSupportedTargets => FatalErrorView::NoSupportedTargets,
            FatalError::BadTarget { target } => FatalErrorView::BadTarget { target: target@ },
            FatalError::InvalidTargetArch { arch } => FatalErrorView::InvalidTargetArch {
                arch: arch@,
            },
            FatalError::InvalidTargetOS { os } => FatalErrorView::InvalidTargetOS { os: os@ },
            FatalError::NoExecutableDependencies { name } => {
                FatalErrorView::NoExecutableDependencies { name: name@ }
            },
            FatalError::NoTargetSupportDependency { dep, target } => {
                FatalErrorView::NoTargetSupportDependency { dep: dep@, target: *target }
            },
            FatalError::NoNestedWorkspaces => FatalErrorView::NoNestedWorkspaces,
        }
    }
}

/// Outcome of every fallible operation of the engine.
pub type FatalResult<T> = Result<T, FatalError>;

/// The decimal digit character of `n < 10`.
pub open spec fn spec_digit(n: nat) -> char {
    if n == 0 {
        '0'
    } else if n == 1 {
        '1'
    } else if n == 2 {
        '2'
    } else if n == 3 {
        '3'
    } else if n == 4 {
        '4'
    } else if n == 5 {
        '5'
    } else if n == 6 {
        '6'
    } else if n == 7 {
        '7'
    } else if n == 8 {
        '8'
    } else {
        '9'
    }
}

/// The decimal text of `n`.
pub open spec fn spec_decimal(n: nat) -> Seq<char>
    decreases n,
{
    if n < 10 {
        seq![spec_digit(n)]
    } else {
        spec_decimal(n / 10) + seq![spec_digit(n % 10)]
    }
}

/// The decimal digit of `n < 10`, as text.
fn digit_str(n: usize) -> (r: &'static str)
    requires
        n < 10,
    ensures
        r@ == seq![spec_digit(n as nat)],
{
    let r = if n == 0 {
        "0"
    } else if n == 1 {
        "1"
    } else if n == 2 {
        "2"
    } else if n == 3 {
        "3"
    } else if n == 4 {
        "4"
    } else if n == 5 {
        "5"
    } else if n == 6 {
        "6"
    } else if n == 7 {
        "7"
    } else if n == 8 {
        "8"
    } else {
        "9"
    };
    proof {
        reveal_strlit("0");
        reveal_strlit("1");
        reveal_strlit("2");
        reveal_strlit("3");
        reveal_strlit("4");
        reveal_strlit("5");
        reveal_strlit("6");
        reveal_strlit("7");
        reveal_strlit("8");
        reveal_strlit("9");
        assert(r@ =~= seq![spec_digit(n as nat)]);
    }
    r
}

/// Renders `n` in decimal.
pub fn usize_to_string(n: usize) -> (r: String)
    ensures
        r@ == spec_decimal(n as nat),
    decreases n,
{
    if n < 10 {
        String::from_str(digit_str(n))
    } else {
        let r = usize_to_string(n / 10).concat(digit_str(n % 10));
        proof {
            assert(r@ =~= spec_decimal(n as nat));
        }
        r
    }
}

impl ParseReason {
    /// The text of this rejection reason.
    pub open spec fn spec_text(self) -> Seq<char> {
        match self {
            ParseReason::Syntax => "the line is not a header, a comment or a key/value pair"@,
            ParseReason::DuplicateSection => "a section appears twice"@,
            ParseReason::DuplicateKey => "a key appears twice"@,
            ParseReason::ExpectedString => "the value must be a quoted string"@,
            ParseReason::ExpectedArray => "the value must be an array of quoted strings"@,
            ParseReason::UnknownKind => "kind must be 'executable' or 'library'"@,
            ParseReason::MissingName => "the 'name' key is missing"@,
            ParseReason::MissingKind => "the 'kind' key is missing"@,
            ParseReason::MissingWorkspace => "the '[workspace]' section is missing"@,
        }
    }

    /// The text of this rejection reason.
    pub fn text(&self) -> (r: &'static str)
        ensures
            r@ == self.spec_text(),
    {
        match self {
            ParseReason::Syntax => "the line is not a header, a comment or a key/value pair",
            ParseReason::DuplicateSection => "a section appears twice",
            ParseReason::DuplicateKey => "a key appears twice",
            ParseReason::ExpectedString => "the value must be a quoted string",
            ParseReason::ExpectedArray => "the value must be an array of quoted strings",
            ParseReason::UnknownKind => "kind must be 'executable' or 'library'",
            ParseReason::MissingName => "the 'name' key is missing",
            ParseReason::MissingKind => "the 'kind' key is missing",
            ParseReason::MissingWorkspace => "the '[workspace]' section is missing",
        }
    }
}

impl ParseDiag {
    /// The text of this diagnostic: the 1-based line and the
    /// reason, or the reason alone for end-of-document conditions.
    pub open spec fn spec_message(self) -> Seq<char> {
        if self.line == 0 {
            self.reason.spec_text()
        } else {
            "line "@ + spec_decimal(self.line as nat) + ": "@ + self.reason.spec_text()
        }
    }

    /// Renders this diagnostic.
    pub fn message(&self) -> (r: String)
        ensures
            r@ == self.spec_message(),
    {
        if self.line == 0 {
            String::from_str(self.reason.text())
        } else {
            let n = usize_to_string(self.line);
            let r = String::from_str("line ").concat(n.as_str()).concat(": ").concat(
                self.reason.text(),
            );
            proof {
                assert(r@ =~= self.spec_message());
            }
            r
        }
    }
}

impl FatalError {
    /// The full text of this error, as the command reports it.
    pub open spec fn spec_message(self) -> Seq<char> {
        match self {
            FatalError::InvalidProjectName => {
                "project names can only contain lowercase ASCII letters and underscores"@
            },
            FatalError::BuildFileParseError { diag } => {
                "failed to parse 'Spork.toml':\n"@ + diag.spec_message()
            },
            FatalError::CompilationFailed => "compilation failed"@,
            FatalError::LinkFailed => "linking failed"@,
            FatalError::CannotRunLib => {
                "only executable projects can be run (use 'spork build' instead)"@
            },
            FatalError::NoSporkToml { path } => {
                "couldn't find a 'Spork.toml' file at '"@ + path@ + "'"@
            },
            FatalError::NoSourceFiles => "project has no source files"@,
            FatalError::NoSupportedTargets => {
                "unable to run - no built target matches the host target"@
            },
            FatalError::BadTarget { target } => {
                "target '"@ + target@ + "' must follow format 'arch-os'"@
            },
            FatalError::InvalidTargetArch { arch } => {
                "target architecture '"@ + arch@ + "' is invalid"@
            },
            FatalError::InvalidTargetOS { os } => "target os '"@ + os@ + "' is invalid"@,
            FatalError::NoExecutableDependencies { name } => {
                "dependencies may only be library projects - '"@ + name@
                    + "' points to an executable project"@
            },
            FatalError::NoTargetSupportDependency { dep, target } => {
                "dependency '"@ + dep@ + "' does not support target '"@ + target.spec_triple()
                    + "'"@
            },
            FatalError::NoNestedWorkspaces => "a workspace member may not itself be a workspace"@,
        }
    }

    /// Renders this error for the user.
    pub fn message(&self) -> (r: String)
        ensures
            r@ == self.spec_message(),
    {
        match self {
            FatalError::InvalidProjectName => String::from_str(
                "project names can only contain lowercase ASCII letters and underscores",
            ),
            FatalError::BuildFileParseError { diag } => {
                let d = diag.message();
                String::from_str("failed to parse 'Spork.toml':\n").concat(d.as_str())
            },
            FatalError::CompilationFailed => String::from_str("compilation failed"),
            FatalError::LinkFailed => String::from_str("linking failed"),
            FatalError::CannotRunLib => String::from_str(
                "only executable projects can be run (use 'spork build' instead)",
            ),
            FatalError::NoSporkToml { path } => String::from_str(
                "couldn't find a 'Spork.toml' file at '",
            ).concat(path.as_str()).concat("'"),
            FatalError::NoSourceFiles => String::from_str("project has no source files"),
            FatalError::NoSupportedTargets => String::from_str(
                "unable to run - no built target matches the host target",
            ),
            FatalError::BadTarget { target } => String::from_str("target '").concat(
                target.as_str(),
            ).concat("' must follow format 'arch-os'"),
            FatalError::InvalidTargetArch { arch } => String::from_str(
                "target architecture '",
            ).concat(arch.as_str()).concat("' is invalid"),
            FatalError::InvalidTargetOS { os } => String::from_str("target os '").concat(
                os.as_str(),
            ).concat("' is invalid"),
            FatalError::NoExecutableDependencies { name } => String::from_str(
                "dependencies may only be library projects - '",
            ).concat(name.as_str()).concat("' points to an executable project"),
            FatalError::NoTargetSupportDependency { dep, target } => {
                let triple = target.to_triple();
                String::from_str("dependency '").concat(dep.as_str()).concat(
                    "' does not support target '",
                ).concat(triple.as_str()).concat("'")
            },
            FatalError::NoNestedWorkspaces => String::from_str(
                "a workspace member may not itself be a workspace",
            ),
        }
    }
}

} // verus!
