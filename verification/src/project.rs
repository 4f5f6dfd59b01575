//! Project manifests: the typed model of one project and its
//! parsing and serialization.

use vstd::prelude::*;

use crate::error::{FatalError, ParseDiag, ParseReason};
use crate::manifest::{bare_key, classify_line, classify_line_exec, LineItemE, LineItemV, ValueE,
    ValueV};
use crate::strutil::{seq_views, split_on, split_str, str_eq};

verus! {

/// What a project builds into.
#[allow(non_camel_case_types)]
#[derive(Clone, Copy, Debug, PartialEq, Eq, Structural)]
pub enum ProjectType {
    executable,
    library,
}

impl ProjectType {
    /// The manifest text of this kind.
    pub open spec fn spec_text(self) -> Seq<char> {
        match self {
            ProjectType::executable => "executable"@,
            ProjectType::library => "library"@,
        }
    }

    /// The manifest text of this kind.
    pub fn text(&self) -> (r: &'static str)
        ensures
            r@ == self.spec_text(),
    {
        match self {
            ProjectType::executable => "executable",
            ProjectType::library => "library",
        }
    }
}

/// Mathematical image of a [`ProjectInfo`].
pub ghost struct ProjectInfoView {
    pub name: Seq<char>,
    pub kind: ProjectType,
    pub targets: Option<Seq<Seq<char>>>,
    pub dependencies: Option<Seq<Seq<char>>>,
}

/// One project as its manifest declares it: name, kind, the targets
/// it supports (absent means "host only", empty means "nothing"),
/// and the paths of the projects it depends on.
#[derive(Debug, Clone, PartialEq)]
pub struct ProjectInfo {
    pub name: String,
    pub kind: ProjectType,
    pub targets: Option<Vec<String>>,
    pub dependencies: Option<Vec<String>>,
}

impl View for ProjectInfo {
    type V = ProjectInfoView;

    open spec fn view(&self) -> ProjectInfoView {
        ProjectInfoView {
            name: self.name@,
            kind: self.kind,
            targets: match self.targets {
                None => None,
                Some(ts) => Some(seq_views(ts@)),
            },
            dependencies: match self.dependencies {
                None => None,
                Some(ds) => Some(seq_views(ds@)),
            },
        }
    }
}

/// A whole project manifest document.
#[derive(Debug, Clone, PartialEq)]
pub struct ProjectFile {
    pub project: ProjectInfo,
}

impl View for ProjectFile {
    type V = ProjectInfoView;

    open spec fn view(&self) -> ProjectInfoView {
        self.project@
    }
}

/// State while folding a document into a project: whether the
/// cursor is inside `[project]`, whether that section was seen, and
/// the keys collected so far.
pub ghost struct PStateV {
    pub sec: bool,
    pub seen: bool,
    pub name: Option<Seq<char>>,
    pub kind: Option<ProjectType>,
    pub targets: Option<Seq<Seq<char>>>,
    pub dependencies: Option<Seq<Seq<char>>>,
}

/// The fold state before any line.
pub open spec fn p_init() -> PStateV {
    PStateV { sec: false, seen: false, name: None, kind: None, targets: None, dependencies: None }
}

/// Folds one line into the project state. Keys outside `[project]`
/// and unknown keys inside it are ignored; known keys must have the
/// right shape of value and may appear only once.
pub open spec fn p_step(st: PStateV, line: Seq<char>, lineno: usize) -> Result<PStateV, ParseDiag> {
    match classify_line(line) {
        LineItemV::Blank => Ok(st),
        LineItemV::Bad => Err(ParseDiag { line: lineno, reason: ParseReason::Syntax }),
        LineItemV::Header(h) => if h == "project"@ {
            if st.seen {
                Err(ParseDiag { line: lineno, reason: ParseReason::DuplicateSection })
            } else {
                Ok(
                    PStateV {
                        sec: true,
                        seen: true,
                        name: st.name,
                        kind: st.kind,
                        targets: st.targets,
                        dependencies: st.dependencies,
                    },
                )
            }
        } else {
            Ok(
                PStateV {
                    sec: false,
                    seen: st.seen,
                    name: st.name,
                    kind: st.kind,
                    targets: st.targets,
                    dependencies: st.dependencies,
                },
            )
        },
        LineItemV::KeyVal(k, v) => if !st.sec {
            Ok(st)
        } else if k == "name"@ {
            match v {
                ValueV::VStr(s) => if st.name is Some {
                    Err(ParseDiag { line: lineno, reason: ParseReason::DuplicateKey })
                } else {
                    Ok(
                        PStateV {
                            sec: st.sec,
                            seen: st.seen,
                            name: Some(s),
                            kind: st.kind,
                            targets: st.targets,
                            dependencies: st.dependencies,
                        },
                    )
                },
                ValueV::VArr(_) => Err(
                    ParseDiag { line: lineno, reason: ParseReason::ExpectedString },
                ),
            }
        } else if k == "kind"@ {
            match v {
                ValueV::VStr(s) => if st.kind is Some {
                    Err(ParseDiag { line: lineno, reason: ParseReason::DuplicateKey })
                } else if s == "executable"@ || s == "library"@ {
                    Ok(
                        PStateV {
                            sec: st.sec,
                            seen: st.seen,
                            name: st.name,
                            kind: Some(
                                if s == "executable"@ {
                                    ProjectType::executable
                                } else {
                                    ProjectType::library
                                },
                            ),
                            targets: st.targets,
                            dependencies: st.dependencies,
                        },
                    )
                } else {
                    Err(ParseDiag { line: lineno, reason: ParseReason::UnknownKind })
                },
                ValueV::VArr(_) => Err(
                    ParseDiag { line: lineno, reason: ParseReason::ExpectedString },
                ),
            }
        } else if k == "targets"@ {
            match v {
                ValueV::VArr(a) => if st.targets is Some {
                    Err(ParseDiag { line: lineno, reason: ParseReason::DuplicateKey })
                } else {
                    Ok(
                        PStateV {
                            sec: st.sec,
                            seen: st.seen,
                            name: st.name,
                            kind: st.kind,
                            targets: Some(a),
                            dependencies: st.dependencies,
                        },
                    )
                },
                ValueV::VStr(_) => Err(
                    ParseDiag { line: lineno, reason: ParseReason::ExpectedArray },
                ),
            }
        } else if k == "dependencies"@ {
            match v {
                ValueV::VArr(a) => if st.dependencies is Some {
                    Err(ParseDiag { line: lineno, reason: ParseReason::DuplicateKey })
                } else {
                    Ok(
                        PStateV {
                            sec: st.sec,
                            seen: st.seen,
                            name: st.name,
                            kind: st.kind,
                            targets: st.targets,
                            dependencies: Some(a),
                        },
                    )
                },
                ValueV::VStr(_) => Err(
                    ParseDiag { line: lineno, reason: ParseReason::ExpectedArray },
                ),
            }
        } else {
            Ok(st)
        },
    }
}

/// Folds the lines from `i` on into the project state.
pub open spec fn p_run(lines: Seq<Seq<char>>, i: int, st: PStateV) -> Result<PStateV, ParseDiag>
    decreases lines.len() - i
        when 0 <= i <= lines.len()
{
    if i >= lines.len() {
        Ok(st)
    } else {
        match p_step(st, lines[i], (i + 1) as usize) {
            Err(d) => Err(d),
            Ok(st2) => p_run(lines, i + 1, st2),
        }
    }
}

/// The project a finished fold state describes; `name` and `kind`
/// are required.
pub open spec fn p_finalize(st: PStateV) -> Result<ProjectInfoView, ParseDiag> {
    match st.name {
        None => Err(ParseDiag { line: 0, reason: ParseReason::MissingName }),
        Some(name) => match st.kind {
            None => Err(ParseDiag { line: 0, reason: ParseReason::MissingKind }),
            Some(kind) => Ok(
                ProjectInfoView {
                    name,
                    kind,
                    targets: st.targets,
                    dependencies: st.dependencies,
                },
            ),
        },
    }
}

/// The project manifest a text describes, or the first diagnostic
/// that rejects it.
pub open spec fn spec_parse_project(text: Seq<char>) -> Result<ProjectInfoView, ParseDiag> {
    match p_run(split_on(text, '\n'), 0, p_init()) {
        Err(d) => Err(d),
        Ok(st) => p_finalize(st),
    }
}

/// Executable fold state.
pub struct PState {
    pub sec: bool,
    pub seen: bool,
    pub name: Option<String>,
    pub kind: Option<ProjectType>,
    pub targets: Option<Vec<String>>,
    pub dependencies: Option<Vec<String>>,
}

impl View for PState {
    type V = PStateV;

    open spec fn view(&self) -> PStateV {
        PStateV {
            sec: self.sec,
            seen: self.seen,
            name: match self.name {
                None => None,
                Some(s) => Some(s@),
            },
            kind: self.kind,
            targets: match self.targets {
                None => None,
                Some(ts) => Some(seq_views(ts@)),
            },
            dependencies: match self.dependencies {
                None => None,
                Some(ds) => Some(seq_views(ds@)),
            },
        }
    }
}

/// Folds one line into the executable project state.
fn p_step_exec(st: PState, line: &str, lineno: usize) -> (r: Result<PState, ParseDiag>)
    ensures
        (p_step(st@, line@, lineno) matches Ok(v) ==> r matches Ok(x) && x@ == v),
        (p_step(st@, line@, lineno) matches Err(d) ==> r matches Err(x) && x == d),
{
    match classify_line_exec(line) {
        LineItemE::Blank => Ok(st),
        LineItemE::Bad => Err(ParseDiag { line: lineno, reason: ParseReason::Syntax }),
        LineItemE::Header(h) => if str_eq(h.as_str(), "project") {
            if st.seen {
                Err(ParseDiag { line: lineno, reason: ParseReason::DuplicateSection })
            } else {
                Ok(PState { sec: true, seen: true, ..st })
            }
        } else {
            Ok(PState { sec: false, ..st })
        },
        LineItemE::KeyVal(k, v) => {
            if !st.sec {
                return Ok(st);
            }
            if str_eq(k.as_str(), "name") {
                match v {
                    ValueE::VStr(s) => if st.name.is_some() {
                        Err(ParseDiag { line: lineno, reason: ParseReason::DuplicateKey })
                    } else {
                        Ok(PState { name: Some(s), ..st })
                    },
                    ValueE::VArr(_) => Err(
                        ParseDiag { line: lineno, reason: ParseReason::ExpectedString },
                    ),
                }
            } else if str_eq(k.as_str(), "kind") {
                match v {
                    ValueE::VStr(s) => if st.kind.is_some() {
                        Err(ParseDiag { line: lineno, reason: ParseReason::DuplicateKey })
                    } else if str_eq(s.as_str(), "executable") {
                        Ok(PState { kind: Some(ProjectType::executable), ..st })
                    } else if str_eq(s.as_str(), "library") {
                        Ok(PState { kind: Some(ProjectType::library), ..st })
                    } else {
                        Err(ParseDiag { line: lineno, reason: ParseReason::UnknownKind })
                    },
                    ValueE::VArr(_) => Err(
                        ParseDiag { line: lineno, reason: ParseReason::ExpectedString },
                    ),
                }
            } else if str_eq(k.as_str(), "targets") {
                match v {
                    ValueE::VArr(a) => if st.targets.is_some() {
                        Err(ParseDiag { line: lineno, reason: ParseReason::DuplicateKey })
                    } else {
                        Ok(PState { targets: Some(a), ..st })
                    },
                    ValueE::VStr(_) => Err(
                        ParseDiag { line: lineno, reason: ParseReason::ExpectedArray },
                    ),
                }
            } else if str_eq(k.as_str(), "dependencies") {
                match v {
                    ValueE::VArr(a) => if st.dependencies.is_some() {
                        Err(ParseDiag { line: lineno, reason: ParseReason::DuplicateKey })
                    } else {
                        Ok(PState { dependencies: Some(a), ..st })
                    },
                    ValueE::VStr(_) => Err(
                        ParseDiag { line: lineno, reason: ParseReason::ExpectedArray },
                    ),
                }
            } else {
                Ok(st)
            }
        },
    }
}

/// Parses a project manifest text into its typed model, or reports
/// the first diagnostic that rejects the text.
pub fn parse_project_text(text: &str) -> (r: Result<ProjectInfo, ParseDiag>)
    ensures
        (spec_parse_project(text@) matches Ok(v) ==> r matches Ok(p) && p@ == v),
        (spec_parse_project(text@) matches Err(d) ==> r matches Err(x) && x == d),
{
    let lines = split_str(text, '\n');
    let ghost linesv = split_on(text@, '\n');
    let n = lines.len();
    let mut st = PState {
        sec: false,
        seen: false,
        name: None,
        kind: None,
        targets: None,
        dependencies: None,
    };
    let mut i: usize = 0;
    while i < n
        invariant
            i <= n,
            n == lines@.len(),
            linesv == seq_views(lines@),
            linesv == split_on(text@, '\n'),
            linesv.len() == n,
            p_run(linesv, 0, p_init()) == p_run(linesv, i as int, st@),
        decreases n - i,
    {
        proof {
            assert(lines@[i as int]@ == linesv[i as int]);
        }
        let ghost stv = st@;
        st = match p_step_exec(st, lines[i].as_str(), i + 1) {
            Ok(st2) => st2,
            Err(d) => {
                proof {
                    assert(p_run(linesv, i as int, stv) == Err::<PStateV, ParseDiag>(d));
                }
                return Err(d);
            },
        };
        i += 1;
    }
    match st.name {
        None => Err(ParseDiag { line: 0, reason: ParseReason::MissingName }),
        Some(name) => match st.kind {
            None => Err(ParseDiag { line: 0, reason: ParseReason::MissingKind }),
            Some(kind) => Ok(
                ProjectInfo { name, kind, targets: st.targets, dependencies: st.dependencies },
            ),
        },
    }
}

/// Parses a project manifest text, reporting grammar rejections as
/// the manifest-parse fatal error.
pub fn parse_spork_file(text: &str) -> (r: Result<ProjectFile, FatalError>)
    ensures
        (spec_parse_project(text@) matches Ok(v) ==> r matches Ok(p) && p@ == v),
        (spec_parse_project(text@) matches Err(d) ==> r matches Err(x) && x
            == FatalError::BuildFileParseError { diag: d }),
{
    match parse_project_text(text) {
        Ok(info) => Ok(ProjectFile { project: info }),
        Err(diag) => Err(FatalError::BuildFileParseError { diag }),
    }
}

/// The items of `items` from `i` on, each in quotes, separated by
/// comma and space.
pub open spec fn join_quoted_from(items: Seq<Seq<char>>, i: int) -> Seq<char>
    decreases items.len() - i
        when 0 <= i <= items.len()
{
    if i >= items.len() {
        Seq::empty()
    } else if i == items.len() - 1 {
        "\""@ + items[i] + "\""@
    } else {
        "\""@ + items[i] + "\""@ + ", "@ + join_quoted_from(items, i + 1)
    }
}

/// The canonical text of a project manifest: a `[project]` header,
/// then `name`, `kind`, and the optional `targets` and
/// `dependencies` arrays, one key per line.
pub open spec fn spec_serialize_project(info: ProjectInfoView) -> Seq<char> {
    "[project]\n"@ + "name = \""@ + info.name + "\"\n"@ + "kind = \""@ + info.kind.spec_text()
        + "\"\n"@ + (match info.targets {
        None => Seq::<char>::empty(),
        Some(ts) => "targets = ["@ + join_quoted_from(ts, 0) + "]\n"@,
    }) + (match info.dependencies {
        None => Seq::<char>::empty(),
        Some(ds) => "dependencies = ["@ + join_quoted_from(ds, 0) + "]\n"@,
    })
}

/// Quotes and joins the items of `items` from `i` on.
fn join_quoted_exec(items: &Vec<String>, i: usize) -> (r: String)
    requires
        i <= items@.len(),
    ensures
        r@ == join_quoted_from(seq_views(items@), i as int),
    decreases items@.len() - i,
{
    if i >= items.len() {
        let r = String::new();
        proof {
            assert(r@ =~= join_quoted_from(seq_views(items@), i as int));
        }
        r
    } else if i == items.len() - 1 {
        let r = String::from_str("\"").concat(items[i].as_str()).concat("\"");
        proof {
            assert(r@ =~= join_quoted_from(seq_views(items@), i as int));
        }
        r
    } else {
        let rest = join_quoted_exec(items, i + 1);
        let r = String::from_str("\"").concat(items[i].as_str()).concat("\", ").concat(
            rest.as_str(),
        );
        proof {
            reveal_strlit("\"");
            reveal_strlit("\", ");
            reveal_strlit(", ");
            assert(r@ =~= join_quoted_from(seq_views(items@), i as int));
        }
        r
    }
}

/// A string that survives serialization: no quote or backslash
/// (which the string grammar forbids) and no newline (which would
/// break the line).
pub open spec fn serializable_str(s: Seq<char>) -> bool {
    forall|j: int| 0 <= j < s.len() ==> s[j] != '"' && s[j] != '\\' && s[j] != '\n'
}

/// A project whose name, targets and dependency paths all survive
/// serialization.
pub open spec fn spec_serializable(info: ProjectInfoView) -> bool {
    &&& serializable_str(info.name)
    &&& (match info.targets {
        None => true,
        Some(ts) => forall|i: int| 0 <= i < ts.len() ==> serializable_str(#[trigger] ts[i]),
    })
    &&& (match info.dependencies {
        None => true,
        Some(ds) => forall|i: int| 0 <= i < ds.len() ==> serializable_str(#[trigger] ds[i]),
    })
}

/// No character of a joined item list is a newline when no item
/// holds one.
proof fn lemma_join_no_newline(items: Seq<Seq<char>>, i: int)
    requires
        0 <= i <= items.len(),
        forall|a: int| 0 <= a < items.len() ==> serializable_str(#[trigger] items[a]),
    ensures
        forall|j: int|
            0 <= j < join_quoted_from(items, i).len() ==> join_quoted_from(items, i)[j] != '\n',
    decreases items.len() - i,
{
    reveal_strlit("\"");
    reveal_strlit(", ");
    if i < items.len() {
        lemma_join_no_newline(items, i + 1);
        let joined = join_quoted_from(items, i);
        assert forall|j: int| 0 <= j < joined.len() implies joined[j] != '\n' by {
            if i == items.len() - 1 {
                assert(joined == "\""@ + items[i] + "\""@);
            } else {
                assert(joined == "\""@ + items[i] + "\""@ + ", "@ + join_quoted_from(
                    items,
                    i + 1,
                ));
            }
        }
    }
}

/// Folding the optional array lines and the final empty line after
/// the three mandatory lines completes the fold with the declared
/// lists recorded.
proof fn lemma_fold_tail(lines: Seq<Seq<char>>, i: int, st: PStateV, info: ProjectInfoView)
    requires
        spec_serializable(info),
        st.sec && st.seen,
        st.name == Some(info.name),
        st.kind == Some(info.kind),
        st.targets is None,
        st.dependencies is None,
        0 <= i,
        lines.len() == i + 1 + (if info.targets is Some {
            1int
        } else {
            0int
        }) + (if info.dependencies is Some {
            1int
        } else {
            0int
        }),
        (info.targets matches Some(ts) ==> lines[i] == "targets"@ + " = ["@ + join_quoted_from(
            ts,
            0,
        ) + "]"@),
        (info.dependencies matches Some(ds) ==> lines[lines.len() - 2] == "dependencies"@
            + " = ["@ + join_quoted_from(ds, 0) + "]"@),
        lines.last() == Seq::<char>::empty(),
    ensures
        p_run(lines, i, st) == Ok::<PStateV, ParseDiag>(
            PStateV {
                sec: true,
                seen: true,
                name: Some(info.name),
                kind: Some(info.kind),
                targets: info.targets,
                dependencies: info.dependencies,
            },
        ),
{
    reveal_strlit("name");
    reveal_strlit("kind");
    reveal_strlit("targets");
    reveal_strlit("dependencies");
    assert("targets"@.len() == 7 && "name"@.len() == 4 && "kind"@.len() == 4
        && "dependencies"@.len() == 12);
    assert(bare_key("targets"@) && bare_key("dependencies"@));
    let st_t = match info.targets {
        None => st,
        Some(ts) => {
            assert forall|a: int| 0 <= a < ts.len() implies crate::manifest::quotable(
                #[trigger] ts[a],
            ) by {
                assert(serializable_str(ts[a]));
            }
            crate::manifest::lemma_classify_arr_line("targets"@, ts);
            assert(classify_line(lines[i]) == LineItemV::KeyVal("targets"@, ValueV::VArr(ts)));
            PStateV {
                sec: true,
                seen: true,
                name: st.name,
                kind: st.kind,
                targets: Some(ts),
                dependencies: None,
            }
        },
    };
    let i2 = if info.targets is Some {
        i + 1
    } else {
        i
    };
    assert(p_run(lines, i, st) == p_run(lines, i2, st_t));
    let st_d = match info.dependencies {
        None => st_t,
        Some(ds) => {
            assert forall|a: int| 0 <= a < ds.len() implies crate::manifest::quotable(
                #[trigger] ds[a],
            ) by {
                assert(serializable_str(ds[a]));
            }
            crate::manifest::lemma_classify_arr_line("dependencies"@, ds);
            assert(lines[i2] == "dependencies"@ + " = ["@ + join_quoted_from(ds, 0) + "]"@);
            assert(classify_line(lines[i2]) == LineItemV::KeyVal(
                "dependencies"@,
                ValueV::VArr(ds),
            ));
            assert("dependencies"@ != "name"@ && "dependencies"@ != "kind"@ && "dependencies"@
                != "targets"@);
            PStateV {
                sec: true,
                seen: true,
                name: st.name,
                kind: st.kind,
                targets: st_t.targets,
                dependencies: Some(ds),
            }
        },
    };
    let i3 = if info.dependencies is Some {
        i2 + 1
    } else {
        i2
    };
    assert(p_run(lines, i2, st_t) == p_run(lines, i3, st_d));
    crate::manifest::lemma_classify_empty();
    assert(i3 == lines.len() - 1);
    assert(classify_line(lines[i3]) == LineItemV::Blank);
    assert(p_run(lines, i3, st_d) == p_run(lines, i3 + 1, st_d));
}

/// Serialization round-trips: parsing the canonical text of any
/// serializable project yields exactly that project back.
#[verifier::rlimit(100)]
pub proof fn lemma_serialize_then_parse(info: ProjectInfoView)
    requires
        spec_serializable(info),
    ensures
        spec_parse_project(spec_serialize_project(info)) == Ok::<ProjectInfoView, ParseDiag>(info),
{
    reveal_strlit("[project]\n");
    reveal_strlit("[project]");
    reveal_strlit("project");
    reveal_strlit("name = \"");
    reveal_strlit("name");
    reveal_strlit(" = \"");
    reveal_strlit("\"\n");
    reveal_strlit("\"");
    reveal_strlit("kind = \"");
    reveal_strlit("kind");
    reveal_strlit("executable");
    reveal_strlit("library");
    reveal_strlit("targets = [");
    reveal_strlit("targets");
    reveal_strlit(" = [");
    reveal_strlit("]\n");
    reveal_strlit("]");
    reveal_strlit("dependencies = [");
    reveal_strlit("dependencies");
    let text = spec_serialize_project(info);
    let nl = seq!['\n'];
    // The five line texts, separators kept out.
    let l0 = "[project]"@;
    let l1 = "name"@ + " = \""@ + info.name + "\""@;
    let ktext = info.kind.spec_text();
    let l2 = "kind"@ + " = \""@ + ktext + "\""@;
    let lt = match info.targets {
        None => Seq::<char>::empty(),
        Some(ts) => "targets"@ + " = ["@ + join_quoted_from(ts, 0) + "]"@,
    };
    let ld = match info.dependencies {
        None => Seq::<char>::empty(),
        Some(ds) => "dependencies"@ + " = ["@ + join_quoted_from(ds, 0) + "]"@,
    };
    let tail_d = match info.dependencies {
        None => Seq::<char>::empty(),
        Some(_) => ld + nl,
    };
    let tail_t = (match info.targets {
        None => Seq::<char>::empty(),
        Some(_) => lt + nl,
    }) + tail_d;
    assert(ktext == "executable"@ || ktext == "library"@);
    assert(text =~= l0 + nl + (l1 + nl + (l2 + nl + tail_t)));
    // No line contains a newline.
    assert(forall|j: int| 0 <= j < l0.len() ==> l0[j] != '\n');
    assert(forall|j: int| 0 <= j < l1.len() ==> l1[j] != '\n');
    assert(forall|j: int| 0 <= j < l2.len() ==> l2[j] != '\n');
    match info.targets {
        None => {},
        Some(ts) => {
            lemma_join_no_newline(ts, 0);
            assert(forall|j: int| 0 <= j < lt.len() ==> lt[j] != '\n');
        },
    }
    match info.dependencies {
        None => {},
        Some(ds) => {
            lemma_join_no_newline(ds, 0);
            assert(forall|j: int| 0 <= j < ld.len() ==> ld[j] != '\n');
        },
    }
    // Split the text into its lines.
    crate::strutil::lemma_split_line(l0, l1 + nl + (l2 + nl + tail_t), '\n');
    crate::strutil::lemma_split_line(l1, l2 + nl + tail_t, '\n');
    crate::strutil::lemma_split_line(l2, tail_t, '\n');
    match info.targets {
        None => {},
        Some(_) => {
            assert(tail_t =~= lt + nl + tail_d);
            crate::strutil::lemma_split_line(lt, tail_d, '\n');
        },
    }
    match info.dependencies {
        None => {},
        Some(_) => {
            assert(tail_d =~= ld + nl + Seq::<char>::empty());
            crate::strutil::lemma_split_line(ld, Seq::<char>::empty(), '\n');
        },
    }
    assert(Seq::<char>::empty().subrange(0, 0) =~= Seq::<char>::empty());
    assert(split_on(Seq::<char>::empty(), '\n') == seq![Seq::<char>::empty()]);
    let lines = split_on(text, '\n');
    let opt_t = match info.targets {
        None => Seq::<Seq<char>>::empty(),
        Some(_) => seq![lt],
    };
    let opt_d = match info.dependencies {
        None => Seq::<Seq<char>>::empty(),
        Some(_) => seq![ld],
    };
    assert(lines =~= seq![l0, l1, l2] + opt_t + opt_d + seq![Seq::<char>::empty()]);
    // Classify the three mandatory lines.
    assert(forall|j: int| 0 <= j < "project"@.len() ==> "project"@[j] != ']');
    assert(!crate::manifest::is_ws("project"@[0]) && "project"@[0] != '#');
    assert(l0 =~= seq!['['] + "project"@ + seq![']']);
    crate::manifest::lemma_classify_header("project"@);
    assert(classify_line(l0) == LineItemV::Header("project"@));
    assert(bare_key("name"@) && bare_key("kind"@));
    assert(crate::manifest::quotable(info.name));
    crate::manifest::lemma_classify_str_line("name"@, info.name);
    assert(crate::manifest::quotable(ktext));
    crate::manifest::lemma_classify_str_line("kind"@, ktext);
    // Fold the lines.
    let st0 = p_init();
    let st1 = PStateV {
        sec: true,
        seen: true,
        name: None,
        kind: None,
        targets: None,
        dependencies: None,
    };
    assert(p_step(st0, lines[0], 1) == Ok::<PStateV, ParseDiag>(st1));
    let st2 = PStateV {
        sec: true,
        seen: true,
        name: Some(info.name),
        kind: None,
        targets: None,
        dependencies: None,
    };
    assert(p_step(st1, lines[1], 2) == Ok::<PStateV, ParseDiag>(st2));
    assert("kind"@ != "name"@) by {
        assert("kind"@[0] == 'k' && "name"@[0] == 'n');
    }
    let st3 = PStateV {
        sec: true,
        seen: true,
        name: Some(info.name),
        kind: Some(info.kind),
        targets: None,
        dependencies: None,
    };
    assert(p_step(st2, lines[2], 3) == Ok::<PStateV, ParseDiag>(st3)) by {
        if info.kind == ProjectType::executable {
            assert(ktext == "executable"@);
            assert(ktext != "name"@ || true);
        } else {
            assert(ktext == "library"@);
            assert(ktext != "executable"@) by {
                assert("library"@.len() == 7 && "executable"@.len() == 10);
            }
        }
    }
    assert(p_run(lines, 0, st0) == p_run(lines, 1, st1));
    assert(p_run(lines, 1, st1) == p_run(lines, 2, st2));
    assert(p_run(lines, 2, st2) == p_run(lines, 3, st3));
    assert("targets"@ != "name"@ && "targets"@ != "kind"@) by {
        assert("targets"@.len() == 7 && "name"@.len() == 4 && "kind"@.len() == 4);
    }
    lemma_fold_tail(lines, 3, st3, info);
    let st_end = PStateV {
        sec: true,
        seen: true,
        name: Some(info.name),
        kind: Some(info.kind),
        targets: info.targets,
        dependencies: info.dependencies,
    };
    assert(p_run(lines, 0, st0) == Ok::<PStateV, ParseDiag>(st_end));
    assert(p_finalize(st_end) == Ok::<ProjectInfoView, ParseDiag>(
        ProjectInfoView {
            name: info.name,
            kind: info.kind,
            targets: info.targets,
            dependencies: info.dependencies,
        },
    ));
    assert(info == ProjectInfoView {
        name: info.name,
        kind: info.kind,
        targets: info.targets,
        dependencies: info.dependencies,
    });
}

/// Serializes a project manifest to its canonical text.
pub fn serialize_project(file: &ProjectFile) -> (r: String)
    ensures
        r@ == spec_serialize_project(file@),
{
    let info = &file.project;
    let mut r = String::from_str("[project]\n");
    r.append("name = \"");
    r.append(info.name.as_str());
    r.append("\"\n");
    r.append("kind = \"");
    r.append(info.kind.text());
    r.append("\"\n");
    match &info.targets {
        None => {},
        Some(ts) => {
            r.append("targets = [");
            let joined = join_quoted_exec(ts, 0);
            r.append(joined.as_str());
            r.append("]\n");
        },
    }
    match &info.dependencies {
        None => {},
        Some(ds) => {
            r.append("dependencies = [");
            let joined = join_quoted_exec(ds, 0);
            r.append(joined.as_str());
            r.append("]\n");
        },
    }
    proof {
        assert(r@ =~= spec_serialize_project(file@));
    }
    r
}

} // verus!
