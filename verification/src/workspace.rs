//! Workspace manifests: a named set of member projects, and the
//! fallback that decides whether a manifest text is a single
//! project or a workspace.

use vstd::prelude::*;

use crate::error::{FatalError, ParseDiag, ParseReason};
use crate::manifest::{classify_line, classify_line_exec, LineItemE, LineItemV, ValueE, ValueV};
use crate::project::{spec_parse_project, parse_project_text, ProjectFile, ProjectInfoView};
use crate::strutil::{split_on, split_str, seq_views, str_eq};

verus! {

/// The views of a sequence of string pairs.
pub open spec fn pair_views(v: Seq<(String, String)>) -> Seq<(Seq<char>, Seq<char>)> {
    Seq::new(v.len(), |i: int| (v[i].0@, v[i].1@))
}

/// Whether some entry's key equals `k`.
pub open spec fn keys_contain(entries: Seq<(Seq<char>, Seq<char>)>, k: Seq<char>) -> bool {
    exists|j: int| 0 <= j < entries.len() && entries[j].0 == k
}

/// No two entries share a key.
pub open spec fn keys_unique(entries: Seq<(Seq<char>, Seq<char>)>) -> bool {
    forall|i: int, j: int| 0 <= i < j < entries.len() ==> entries[i].0 != entries[j].0
}

/// A workspace manifest document: member names mapped to the
/// remote repositories they are fetched from, in document order,
/// each name at most once.
#[derive(Debug, Clone, PartialEq)]
pub struct WorkspaceFile {
    pub workspace: Vec<(String, String)>,
}

impl View for WorkspaceFile {
    type V = Seq<(Seq<char>, Seq<char>)>;

    open spec fn view(&self) -> Seq<(Seq<char>, Seq<char>)> {
        pair_views(self.workspace@)
    }
}

impl WorkspaceFile {
    /// Member names never repeat.
    pub open spec fn wf(&self) -> bool {
        keys_unique(self@)
    }
}

/// State while folding a document into a workspace.
pub ghost struct WStateV {
    pub sec: bool,
    pub seen: bool,
    pub entries: Seq<(Seq<char>, Seq<char>)>,
}

/// The fold state before any line.
pub open spec fn w_init() -> WStateV {
    WStateV { sec: false, seen: false, entries: Seq::empty() }
}

/// Folds one line into the workspace state. Every key inside
/// `[workspace]` is a member name and needs a string value; keys
/// in other sections are ignored.
pub open spec fn w_step(st: WStateV, line: Seq<char>, lineno: usize) -> Result<WStateV, ParseDiag> {
    match classify_line(line) {
        LineItemV::Blank => Ok(st),
        LineItemV::Bad => Err(ParseDiag { line: lineno, reason: ParseReason::Syntax }),
        LineItemV::Header(h) => if h == "workspace"@ {
            if st.seen {
                Err(ParseDiag { line: lineno, reason: ParseReason::DuplicateSection })
            } else {
                Ok(WStateV { sec: true, seen: true, entries: st.entries })
            }
        } else {
            Ok(WStateV { sec: false, seen: st.seen, entries: st.entries })
        },
        LineItemV::KeyVal(k, v) => if !st.sec {
            Ok(st)
        } else {
            match v {
                ValueV::VArr(_) => Err(
                    ParseDiag { line: lineno, reason: ParseReason::ExpectedString },
                ),
                ValueV::VStr(s) => if keys_contain(st.entries, k) {
                    Err(ParseDiag { line: lineno, reason: ParseReason::DuplicateKey })
                } else {
                    Ok(
                        WStateV {
                            sec: st.sec,
                            seen: st.seen,
                            entries: st.entries.push((k, s)),
                        },
                    )
                },
            }
        },
    }
}

/// Folds the lines from `i` on into the workspace state.
pub open spec fn w_run(lines: Seq<Seq<char>>, i: int, st: WStateV) -> Result<WStateV, ParseDiag>
    decreases lines.len() - i
        when 0 <= i <= lines.len()
{
    if i >= lines.len() {
        Ok(st)
    } else {
        match w_step(st, lines[i], (i + 1) as usize) {
            Err(d) => Err(d),
            Ok(st2) => w_run(lines, i + 1, st2),
        }
    }
}

/// The members a finished fold state collected; the `[workspace]`
/// section itself is required.
pub open spec fn w_finalize(st: WStateV) -> Result<Seq<(Seq<char>, Seq<char>)>, ParseDiag> {
    if !st.seen {
        Err(ParseDiag { line: 0, reason: ParseReason::MissingWorkspace })
    } else {
        Ok(st.entries)
    }
}

/// The workspace a text describes, or the first diagnostic that
/// rejects it.
pub open spec fn spec_parse_workspace(text: Seq<char>) -> Result<
    Seq<(Seq<char>, Seq<char>)>,
    ParseDiag,
> {
    match w_run(split_on(text, '\n'), 0, w_init()) {
        Err(d) => Err(d),
        Ok(st) => w_finalize(st),
    }
}

/// A successful fold keeps member names unique.
proof fn lemma_w_run_unique(lines: Seq<Seq<char>>, i: int, st: WStateV)
    requires
        0 <= i <= lines.len(),
        keys_unique(st.entries),
        w_run(lines, i, st) is Ok,
    ensures
        keys_unique(w_run(lines, i, st)->Ok_0.entries),
    decreases lines.len() - i,
{
    if i < lines.len() {
        match w_step(st, lines[i], (i + 1) as usize) {
            Err(_) => {},
            Ok(st2) => {
                assert(keys_unique(st2.entries)) by {
                    match classify_line(lines[i]) {
                        LineItemV::KeyVal(k, v) => {
                            if st.sec {
                                match v {
                                    ValueV::VStr(s) => {
                                        if !keys_contain(st.entries, k) {
                                            assert forall|a: int, b: int|
                                                0 <= a < b < st2.entries.len() implies st2.entries[a].0
                                                != st2.entries[b].0 by {
                                                if b == st2.entries.len() - 1 {
                                                    assert(st.entries[a].0 == st2.entries[a].0);
                                                }
                                            }
                                        }
                                    },
                                    _ => {},
                                }
                            }
                        },
                        _ => {},
                    }
                }
                lemma_w_run_unique(lines, i + 1, st2);
            },
        }
    }
}

/// Executable workspace fold state.
pub struct WState {
    pub sec: bool,
    pub seen: bool,
    pub entries: Vec<(String, String)>,
}

impl View for WState {
    type V = WStateV;

    open spec fn view(&self) -> WStateV {
        WStateV { sec: self.sec, seen: self.seen, entries: pair_views(self.entries@) }
    }
}

/// Whether some collected entry already uses the key `k`.
fn keys_contain_exec(entries: &Vec<(String, String)>, k: &str) -> (r: bool)
    ensures
        r == keys_contain(pair_views(entries@), k@),
{
    let mut i: usize = 0;
    while i < entries.len()
        invariant
            i <= entries@.len(),
            forall|j: int| 0 <= j < i ==> entries@[j].0@ != k@,
        decreases entries@.len() - i,
    {
        if str_eq(entries[i].0.as_str(), k) {
            assert(pair_views(entries@)[i as int].0 == k@);
            return true;
        }
        i += 1;
    }
    proof {
        if keys_contain(pair_views(entries@), k@) {
            let j = choose|j: int|
                0 <= j < pair_views(entries@).len() && pair_views(entries@)[j].0 == k@;
            assert(entries@[j].0@ == k@);
        }
    }
    false
}

/// Folds one line into the executable workspace state.
fn w_step_exec(st: WState, line: &str, lineno: usize) -> (r: Result<WState, ParseDiag>)
    ensures
        (w_step(st@, line@, lineno) matches Ok(v) ==> r matches Ok(x) && x@ == v),
        (w_step(st@, line@, lineno) matches Err(d) ==> r matches Err(x) && x == d),
{
    match classify_line_exec(line) {
        LineItemE::Blank => Ok(st),
        LineItemE::Bad => Err(ParseDiag { line: lineno, reason: ParseReason::Syntax }),
        LineItemE::Header(h) => if str_eq(h.as_str(), "workspace") {
            if st.seen {
                Err(ParseDiag { line: lineno, reason: ParseReason::DuplicateSection })
            } else {
                Ok(WState { sec: true, seen: true, ..st })
            }
        } else {
            Ok(WState { sec: false, ..st })
        },
        LineItemE::KeyVal(k, v) => {
            if !st.sec {
                return Ok(st);
            }
            match v {
                ValueE::VArr(_) => Err(
                    ParseDiag { line: lineno, reason: ParseReason::ExpectedString },
                ),
                ValueE::VStr(s) => {
                    if keys_contain_exec(&st.entries, k.as_str()) {
                        Err(ParseDiag { line: lineno, reason: ParseReason::DuplicateKey })
                    } else {
                        let mut entries = st.entries;
                        let ghost oldv = pair_views(entries@);
                        entries.push((k, s));
                        proof {
                            assert(pair_views(entries@) =~= oldv.push(
                                (entries@.last().0@, entries@.last().1@),
                            ));
                        }
                        Ok(WState { sec: st.sec, seen: st.seen, entries })
                    }
                },
            }
        },
    }
}

/// Parses a workspace manifest text into its typed model, or
/// reports the first diagnostic that rejects the text. The member
/// names of a successful parse are unique.
pub fn parse_workspace_text(text: &str) -> (r: Result<WorkspaceFile, ParseDiag>)
    ensures
        (spec_parse_workspace(text@) matches Ok(v) ==> r matches Ok(w) && w@ == v && w.wf()),
        (spec_parse_workspace(text@) matches Err(d) ==> r matches Err(x) && x == d),
{
    let lines = split_str(text, '\n');
    let ghost linesv = split_on(text@, '\n');
    let n = lines.len();
    let mut st = WState { sec: false, seen: false, entries: Vec::new() };
    proof {
        assert(st@.entries =~= w_init().entries);
    }
    let mut i: usize = 0;
    while i < n
        invariant
            i <= n,
            n == lines@.len(),
            linesv == seq_views(lines@),
            linesv == split_on(text@, '\n'),
            linesv.len() == n,
            w_run(linesv, 0, w_init()) == w_run(linesv, i as int, st@),
        decreases n - i,
    {
        proof {
            assert(lines@[i as int]@ == linesv[i as int]);
        }
        let ghost stv = st@;
        st = match w_step_exec(st, lines[i].as_str(), i + 1) {
            Ok(st2) => st2,
            Err(d) => {
                proof {
                    assert(w_run(linesv, i as int, stv) == Err::<WStateV, ParseDiag>(d));
                }
                return Err(d);
            },
        };
        i += 1;
    }
    if !st.seen {
        Err(ParseDiag { line: 0, reason: ParseReason::MissingWorkspace })
    } else {
        proof {
            lemma_w_run_unique(linesv, 0, w_init());
        }
        Ok(WorkspaceFile { workspace: st.entries })
    }
}

/// Parses a workspace manifest text, reporting grammar rejections
/// as the manifest-parse fatal error.
pub fn parse_spork_workspace(text: &str) -> (r: Result<WorkspaceFile, FatalError>)
    ensures
        (spec_parse_workspace(text@) matches Ok(v) ==> r matches Ok(w) && w@ == v && w.wf()),
        (spec_parse_workspace(text@) matches Err(d) ==> r matches Err(x) && x
            == FatalError::BuildFileParseError { diag: d }),
{
    match parse_workspace_text(text) {
        Ok(w) => Ok(w),
        Err(diag) => Err(FatalError::BuildFileParseError { diag }),
    }
}

/// A manifest text read from disk: one project, or a workspace of
/// members.
#[derive(Debug, PartialEq)]
pub enum SporkManifest {
    Project(ProjectFile),
    Workspace(WorkspaceFile),
}

/// Mathematical image of a [`SporkManifest`].
pub ghost enum SporkManifestView {
    Project(ProjectInfoView),
    Workspace(Seq<(Seq<char>, Seq<char>)>),
}

impl SporkManifest {
    /// A parsed workspace keeps its member names unique.
    pub open spec fn wf(&self) -> bool {
        match self {
            SporkManifest::Project(_) => true,
            SporkManifest::Workspace(w) => w.wf(),
        }
    }
}

impl View for SporkManifest {
    type V = SporkManifestView;

    open spec fn view(&self) -> SporkManifestView {
        match self {
            SporkManifest::Project(p) => SporkManifestView::Project(p@),
            SporkManifest::Workspace(w) => SporkManifestView::Workspace(w@),
        }
    }
}

/// What a manifest text means: a text that parses as a project is a
/// project; otherwise one that parses as a workspace is a
/// workspace; otherwise the project diagnostic stands, since the
/// two shapes are told apart only by this fallback.
pub open spec fn spec_parse_manifest(text: Seq<char>) -> Result<SporkManifestView, ParseDiag> {
    match spec_parse_project(text) {
        Ok(p) => Ok(SporkManifestView::Project(p)),
        Err(d) => match spec_parse_workspace(text) {
            Ok(w) => Ok(SporkManifestView::Workspace(w)),
            Err(_) => Err(d),
        },
    }
}

/// Parses a manifest text as a project, falling back to a
/// workspace; when both shapes reject the text the project
/// diagnostic is reported.
pub fn parse_manifest(text: &str) -> (r: Result<SporkManifest, FatalError>)
    ensures
        (spec_parse_manifest(text@) matches Ok(v) ==> r matches Ok(m) && m@ == v),
        (spec_parse_manifest(text@) matches Err(d) ==> r matches Err(x) && x
            == FatalError::BuildFileParseError { diag: d }),
        (r matches Ok(m) ==> m.wf()),
{
    match parse_project_text(text) {
        Ok(p) => Ok(SporkManifest::Project(ProjectFile { project: p })),
        Err(d) => match parse_workspace_text(text) {
            Ok(w) => {
                proof {
                    assert(spec_parse_workspace(text@) is Ok);
                }
                Ok(SporkManifest::Workspace(w))
            },
            Err(_) => Err(FatalError::BuildFileParseError { diag: d }),
        },
    }
}

/// A workspace member must itself be a single project; a nested
/// workspace is rejected.
pub fn check_member_manifest(m: SporkManifest) -> (r: Result<ProjectFile, FatalError>)
    ensures
        (m matches SporkManifest::Project(p) ==> r matches Ok(x) && x == p),
        (m matches SporkManifest::Workspace(_) ==> r matches Err(e) && e
            == FatalError::NoNestedWorkspaces),
{
    match m {
        SporkManifest::Project(p) => Ok(p),
        SporkManifest::Workspace(_) => Err(FatalError::NoNestedWorkspaces),
    }
}

} // verus!
