//! Recursive dependency resolution.
//!
//! Resolution is a pure tree construction: it reads manifests and
//! mutates nothing. The manifests live in a [`ManifestStore`], a
//! map from manifest path to file text filled in by the caller;
//! when a needed manifest is not in the store yet, resolution stops
//! and names it, so the caller can read the file and try again.
//! Dependency directories are joined explicitly: a dependency of a
//! dependency is resolved relative to the latter's directory.

use vstd::prelude::*;

use crate::error::{FatalError, FatalErrorView};
use crate::project::{spec_parse_project, parse_project_text, ProjectType};
use crate::strutil::{seq_views, str_eq, contains_str};
use crate::targets::Target;

verus! {

broadcast use vstd::std_specs::vec::group_vec_axioms;

/// The views of a store's entries.
pub open spec fn store_views(v: Seq<(String, Option<String>)>) -> Seq<
    (Seq<char>, Option<Seq<char>>),
> {
    Seq::new(
        v.len(),
        |i: int|
            (
                v[i].0@,
                match v[i].1 {
                    None => None,
                    Some(t) => Some(t@),
                },
            ),
    )
}

/// Manifest texts by manifest path. An entry holding `None` records
/// that the file at that path could not be read. The first entry
/// for a path wins.
#[derive(Debug, Clone, PartialEq)]
pub struct ManifestStore {
    pub entries: Vec<(String, Option<String>)>,
}

impl View for ManifestStore {
    type V = Seq<(Seq<char>, Option<Seq<char>>)>;

    open spec fn view(&self) -> Seq<(Seq<char>, Option<Seq<char>>)> {
        store_views(self.entries@)
    }
}

/// The first entry for `key` at or after `i`, if any.
pub open spec fn assoc_from(
    store: Seq<(Seq<char>, Option<Seq<char>>)>,
    i: int,
    key: Seq<char>,
) -> Option<Option<Seq<char>>>
    decreases store.len() - i
        when 0 <= i <= store.len()
{
    if i >= store.len() {
        None
    } else if store[i].0 == key {
        Some(store[i].1)
    } else {
        assoc_from(store, i + 1, key)
    }
}

/// What the store holds for `key`: nothing yet, an unreadable file,
/// or a text.
pub open spec fn store_lookup(
    store: Seq<(Seq<char>, Option<Seq<char>>)>,
    key: Seq<char>,
) -> Option<Option<Seq<char>>> {
    assoc_from(store, 0, key)
}

/// Length of the longest path in the store from `i` on.
pub open spec fn max_key_len(store: Seq<(Seq<char>, Option<Seq<char>>)>, i: int) -> nat
    decreases store.len() - i
        when 0 <= i <= store.len()
{
    if i >= store.len() {
        0
    } else {
        let m = max_key_len(store, i + 1);
        if store[i].0.len() > m {
            store[i].0.len()
        } else {
            m
        }
    }
}

/// A key the store answers is no longer than the longest key.
pub proof fn lemma_assoc_key_len(
    store: Seq<(Seq<char>, Option<Seq<char>>)>,
    i: int,
    key: Seq<char>,
)
    requires
        0 <= i <= store.len(),
        assoc_from(store, i, key) is Some,
    ensures
        key.len() <= max_key_len(store, i),
    decreases store.len() - i,
{
    if i < store.len() && store[i].0 != key {
        lemma_assoc_key_len(store, i + 1, key);
    }
}

/// How much longer a directory path may still grow before every
/// store lookup under it must miss. Resolution descends into ever
/// longer directory paths, so this bounds its depth.
pub open spec fn budget(store: Seq<(Seq<char>, Option<Seq<char>>)>, dir: Seq<char>) -> nat {
    let cap = max_key_len(store, 0) + 2;
    if dir.len() < cap {
        (cap - dir.len()) as nat
    } else {
        0
    }
}

/// The directory of a dependency referenced by `path` from `base`.
pub open spec fn spec_join_dir(base: Seq<char>, path: Seq<char>) -> Seq<char> {
    base + seq!['/'] + path
}

/// The manifest path of a project directory.
pub open spec fn spec_manifest_path(dir: Seq<char>) -> Seq<char> {
    dir + seq!['/'] + crate::SPORK_FILE_NAME@
}

/// One resolved dependency: its declared name and, when its own
/// manifest declares dependencies, their resolved subtree.
#[derive(Debug, PartialEq)]
pub struct Dependency {
    pub name: String,
    pub deps: Option<Dependencies>,
}

/// A set of resolved dependencies keyed by the path that referenced
/// each of them, in first-reference order; a path referenced twice
/// is resolved once.
#[derive(Debug, PartialEq)]
pub struct Dependencies {
    pub path_to_deps: Vec<(String, Dependency)>,
}

/// Mathematical image of a [`Dependency`].
pub ghost struct DependencyView {
    pub name: Seq<char>,
    pub deps: Option<Seq<(Seq<char>, DependencyView)>>,
}

/// The view of a resolved dependency.
pub open spec fn dep_view(d: Dependency) -> DependencyView
    decreases d, 0nat,
{
    DependencyView {
        name: d.name@,
        deps: match d.deps {
            None => None,
            Some(ds) => Some(deps_view_from(ds, 0)),
        },
    }
}

/// The views of the resolved dependencies of `ds` from entry `i`
/// on.
pub open spec fn deps_view_from(ds: Dependencies, i: int) -> Seq<(Seq<char>, DependencyView)>
    decreases ds, ds.path_to_deps@.len() - i
        when 0 <= i <= ds.path_to_deps@.len()
{
    if i >= ds.path_to_deps@.len() {
        Seq::empty()
    } else {
        seq![(ds.path_to_deps[i].0@, dep_view(ds.path_to_deps[i].1))] + deps_view_from(ds, i + 1)
    }
}

/// The view of a set of resolved dependencies.
pub open spec fn deps_view(ds: Dependencies) -> Seq<(Seq<char>, DependencyView)> {
    deps_view_from(ds, 0)
}

/// The view of an optional set of resolved dependencies.
pub open spec fn deps_opt_view(o: Option<Dependencies>) -> Option<Seq<(Seq<char>, DependencyView)>> {
    match o {
        None => None,
        Some(ds) => Some(deps_view(ds)),
    }
}

/// Whether `entries` already holds a dependency for `path`.
pub open spec fn dep_keys_contain(
    entries: Seq<(Seq<char>, DependencyView)>,
    path: Seq<char>,
) -> bool {
    exists|j: int| 0 <= j < entries.len() && entries[j].0 == path
}

/// Outcome of resolving one dependency directory.
pub ghost enum OneOutcomeV {
    OkDep(DependencyView),
    Failed(FatalErrorView),
    Need(Seq<char>),
}

/// Outcome of resolving a list of dependency paths.
pub ghost enum ResolveOutcomeV {
    Resolved(Seq<(Seq<char>, DependencyView)>),
    Failed(FatalErrorView),
    Need(Seq<char>),
}

/// Resolves the project in directory `dir` as a dependency for
/// `target`: its manifest must be in the store and readable, must
/// parse as a project, must declare `kind = library`, must either
/// declare no `targets` or list the requested target, and its own
/// dependencies must resolve in turn, relative to `dir`.
pub open spec fn spec_resolve_one(
    store: Seq<(Seq<char>, Option<Seq<char>>)>,
    dir: Seq<char>,
    target: Target,
) -> OneOutcomeV
    decreases budget(store, dir), 1nat, 0nat
        via spec_resolve_one_decreases
{
    match store_lookup(store, spec_manifest_path(dir)) {
        None => OneOutcomeV::Need(spec_manifest_path(dir)),
        Some(None) => OneOutcomeV::Failed(
            FatalErrorView::NoSporkToml { path: spec_manifest_path(dir) },
        ),
        Some(Some(text)) => match spec_parse_project(text) {
            Err(d) => OneOutcomeV::Failed(FatalErrorView::BuildFileParseError { diag: d }),
            Ok(info) => if info.kind != ProjectType::library {
                OneOutcomeV::Failed(FatalErrorView::NoExecutableDependencies { name: info.name })
            } else if (match info.targets {
                Some(ts) => !ts.contains(target.spec_triple()),
                None => false,
            }) {
                OneOutcomeV::Failed(
                    FatalErrorView::NoTargetSupportDependency { dep: info.name, target },
                )
            } else {
                match info.dependencies {
                    None => OneOutcomeV::OkDep(DependencyView { name: info.name, deps: None }),
                    Some(ps) => match spec_resolve_list(store, dir, ps, 0, Seq::empty(), target) {
                        ResolveOutcomeV::Resolved(entries) => OneOutcomeV::OkDep(
                            DependencyView { name: info.name, deps: Some(entries) },
                        ),
                        ResolveOutcomeV::Failed(e) => OneOutcomeV::Failed(e),
                        ResolveOutcomeV::Need(p) => OneOutcomeV::Need(p),
                    },
                }
            },
        },
    }
}

#[via_fn]
proof fn spec_resolve_one_decreases(
    store: Seq<(Seq<char>, Option<Seq<char>>)>,
    dir: Seq<char>,
    target: Target,
) {
    match store_lookup(store, spec_manifest_path(dir)) {
        Some(_) => {
            lemma_assoc_key_len(store, 0, spec_manifest_path(dir));
        },
        None => {},
    }
}

/// Resolves the dependency paths of `paths` from `i` on, referenced
/// from directory `base`, accumulating into `acc`. The first
/// failure or missing manifest wins; a path already accumulated is
/// skipped, since resolving it again would rebuild the same
/// subtree.
pub open spec fn spec_resolve_list(
    store: Seq<(Seq<char>, Option<Seq<char>>)>,
    base: Seq<char>,
    paths: Seq<Seq<char>>,
    i: int,
    acc: Seq<(Seq<char>, DependencyView)>,
    target: Target,
) -> ResolveOutcomeV
    decreases budget(store, base), 0nat, paths.len() - i
        when 0 <= i <= paths.len() && budget(store, base) > 0
        via spec_resolve_list_decreases
{
    if i >= paths.len() {
        ResolveOutcomeV::Resolved(acc)
    } else {
        let p = paths[i];
        if dep_keys_contain(acc, p) {
            spec_resolve_list(store, base, paths, i + 1, acc, target)
        } else {
            match spec_resolve_one(store, spec_join_dir(base, p), target) {
                OneOutcomeV::OkDep(d) => spec_resolve_list(
                    store,
                    base,
                    paths,
                    i + 1,
                    acc.push((p, d)),
                    target,
                ),
                OneOutcomeV::Failed(e) => ResolveOutcomeV::Failed(e),
                OneOutcomeV::Need(p2) => ResolveOutcomeV::Need(p2),
            }
        }
    }
}

#[via_fn]
proof fn spec_resolve_list_decreases(
    store: Seq<(Seq<char>, Option<Seq<char>>)>,
    base: Seq<char>,
    paths: Seq<Seq<char>>,
    i: int,
    acc: Seq<(Seq<char>, DependencyView)>,
    target: Target,
) {
    if 0 <= i < paths.len() {
        let dir = spec_join_dir(base, paths[i]);
        assert(dir.len() >= base.len() + 1);
        assert(budget(store, dir) < budget(store, base));
    }
}

/// Resolves a project's declared dependency paths against a target.
/// The project's own directory is the reference point, written
/// `.`, so a path `p` names the directory `./p`.
pub open spec fn spec_resolve_deps(
    store: Seq<(Seq<char>, Option<Seq<char>>)>,
    paths: Seq<Seq<char>>,
    target: Target,
) -> ResolveOutcomeV {
    spec_resolve_list(store, seq!['.'], paths, 0, Seq::empty(), target)
}

/// The view of an optional text.
pub open spec fn opt_text_view(o: Option<String>) -> Option<Seq<char>> {
    match o {
        None => None,
        Some(t) => Some(t@),
    }
}

impl ManifestStore {
    /// An empty store.
    pub fn new() -> (r: Self)
        ensures
            r@ =~= Seq::<(Seq<char>, Option<Seq<char>>)>::empty(),
    {
        ManifestStore { entries: Vec::new() }
    }

    /// Records what reading the file at `path` gave: its text, or
    /// `None` for an unreadable file.
    pub fn add(&mut self, path: String, contents: Option<String>)
        ensures
            final(self)@ =~= old(self)@.push((path@, opt_text_view(contents))),
    {
        self.entries.push((path, contents));
    }

    /// Looks `key` up; the first entry wins.
    fn lookup(&self, key: &str) -> (r: Option<Option<String>>)
        ensures
            (store_lookup(self@, key@) matches Some(t) ==> r matches Some(x) && opt_text_view(x)
                == t),
            (store_lookup(self@, key@) is None ==> r is None),
    {
        let n = self.entries.len();
        let mut i: usize = 0;
        while i < n
            invariant
                i <= n,
                n == self.entries@.len(),
                self@.len() == n,
                assoc_from(self@, 0, key@) == assoc_from(self@, i as int, key@),
            decreases n - i,
        {
            if str_eq(self.entries[i].0.as_str(), key) {
                proof {
                    assert(self@[i as int].0 == key@);
                }
                return match &self.entries[i].1 {
                    None => Some(None),
                    Some(t) => Some(Some(t.clone())),
                };
            }
            proof {
                assert(self@[i as int].0 != key@);
            }
            i += 1;
        }
        None
    }
}

/// The views of accumulated resolved entries.
pub open spec fn entries_view(v: Seq<(String, Dependency)>) -> Seq<(Seq<char>, DependencyView)> {
    Seq::new(v.len(), |i: int| (v[i].0@, dep_view(v[i].1)))
}

/// The two ways of viewing a finished accumulation agree.
pub proof fn lemma_deps_view_from(ds: Dependencies, i: int)
    requires
        0 <= i <= ds.path_to_deps@.len(),
    ensures
        deps_view_from(ds, i) =~= entries_view(ds.path_to_deps@).skip(i),
    decreases ds.path_to_deps@.len() - i,
{
    if i < ds.path_to_deps@.len() {
        lemma_deps_view_from(ds, i + 1);
    }
}

/// A set of resolved dependencies views as its entries.
pub proof fn lemma_deps_view(ds: Dependencies)
    ensures
        deps_view(ds) =~= entries_view(ds.path_to_deps@),
{
    lemma_deps_view_from(ds, 0);
    assert(entries_view(ds.path_to_deps@).skip(0) =~= entries_view(ds.path_to_deps@));
}

/// Whether `acc` already holds an entry for `p`.
fn dep_keys_contain_exec(acc: &Vec<(String, Dependency)>, p: &str) -> (r: bool)
    ensures
        r == dep_keys_contain(entries_view(acc@), p@),
{
    let mut i: usize = 0;
    while i < acc.len()
        invariant
            i <= acc@.len(),
            forall|j: int| 0 <= j < i ==> acc@[j].0@ != p@,
        decreases acc@.len() - i,
    {
        if str_eq(acc[i].0.as_str(), p) {
            assert(entries_view(acc@)[i as int].0 == p@);
            return true;
        }
        i += 1;
    }
    proof {
        if dep_keys_contain(entries_view(acc@), p@) {
            let j = choose|j: int|
                0 <= j < entries_view(acc@).len() && entries_view(acc@)[j].0 == p@;
            assert(acc@[j].0@ == p@);
        }
    }
    false
}

/// Outcome of resolving one dependency directory, executable form.
enum OneOutcome {
    OkDep(Dependency),
    Failed(FatalError),
    NeedManifest(String),
}

/// Outcome of resolving a set of dependency paths: the resolved
/// tree, the first fatal error, or the path of a manifest the
/// store does not hold yet.
#[derive(Debug, PartialEq)]
pub enum ResolveOutcome {
    Resolved(Dependencies),
    Failed(FatalError),
    NeedManifest(String),
}

/// Resolves the project in directory `dir` as a dependency.
fn resolve_one_exec(store: &ManifestStore, dir: &str, target: &Target) -> (r: OneOutcome)
    ensures
        (spec_resolve_one(store@, dir@, *target) matches OneOutcomeV::OkDep(dv) ==> r matches
            OneOutcome::OkDep(d) && dep_view(d) == dv),
        (spec_resolve_one(store@, dir@, *target) matches OneOutcomeV::Failed(e) ==> r matches
            OneOutcome::Failed(x) && x@ == e),
        (spec_resolve_one(store@, dir@, *target) matches OneOutcomeV::Need(p) ==> r matches
            OneOutcome::NeedManifest(s) && s@ == p),
    decreases budget(store@, dir@), 1nat, 0nat,
{
    let mpath = String::from_str(dir).concat("/").concat(crate::SPORK_FILE_NAME);
    proof {
        reveal_strlit("/");
        assert(mpath@ =~= spec_manifest_path(dir@));
    }
    let text = match store.lookup(mpath.as_str()) {
        None => {
            return OneOutcome::NeedManifest(mpath);
        },
        Some(None) => {
            return OneOutcome::Failed(FatalError::NoSporkToml { path: mpath });
        },
        Some(Some(text)) => text,
    };
    let info = match parse_project_text(text.as_str()) {
        Err(d) => {
            return OneOutcome::Failed(FatalError::BuildFileParseError { diag: d });
        },
        Ok(info) => info,
    };
    match info.kind {
        ProjectType::executable => {
            return OneOutcome::Failed(FatalError::NoExecutableDependencies { name: info.name });
        },
        ProjectType::library => {},
    }
    match &info.targets {
        None => {},
        Some(ts) => {
            let triple = target.to_triple();
            if !contains_str(ts, triple.as_str()) {
                return OneOutcome::Failed(
                    FatalError::NoTargetSupportDependency { dep: info.name, target: *target },
                );
            }
        },
    }
    match info.dependencies {
        None => OneOutcome::OkDep(Dependency { name: info.name, deps: None }),
        Some(ps) => {
            proof {
                lemma_assoc_key_len(store@, 0, spec_manifest_path(dir@));
                assert(entries_view(Seq::<(String, Dependency)>::empty()) =~= Seq::<
                    (Seq<char>, DependencyView),
                >::empty());
            }
            match resolve_list_exec(store, dir, &ps, 0, Vec::new(), target) {
                ResolveOutcome::Resolved(ds) => OneOutcome::OkDep(
                    Dependency { name: info.name, deps: Some(ds) },
                ),
                ResolveOutcome::Failed(e) => OneOutcome::Failed(e),
                ResolveOutcome::NeedManifest(p) => OneOutcome::NeedManifest(p),
            }
        },
    }
}

/// Resolves the paths of `paths` from `i` on, referenced from
/// directory `base`, accumulating into `acc`.
fn resolve_list_exec(
    store: &ManifestStore,
    base: &str,
    paths: &Vec<String>,
    i: usize,
    acc: Vec<(String, Dependency)>,
    target: &Target,
) -> (r: ResolveOutcome)
    requires
        i <= paths@.len(),
        budget(store@, base@) > 0,
    ensures
        (spec_resolve_list(store@, base@, seq_views(paths@), i as int, entries_view(acc@), *target)
            matches ResolveOutcomeV::Resolved(es) ==> r matches ResolveOutcome::Resolved(ds)
            && deps_view(ds) == es),
        (spec_resolve_list(store@, base@, seq_views(paths@), i as int, entries_view(acc@), *target)
            matches ResolveOutcomeV::Failed(e) ==> r matches ResolveOutcome::Failed(x) && x@ == e),
        (spec_resolve_list(store@, base@, seq_views(paths@), i as int, entries_view(acc@), *target)
            matches ResolveOutcomeV::Need(p) ==> r matches ResolveOutcome::NeedManifest(s) && s@
            == p),
    decreases budget(store@, base@), 0nat, paths@.len() - i,
{
    if i >= paths.len() {
        let ds = Dependencies { path_to_deps: acc };
        proof {
            lemma_deps_view(ds);
        }
        return ResolveOutcome::Resolved(ds);
    }
    let p = &paths[i];
    proof {
        assert(seq_views(paths@)[i as int] == p@);
    }
    if dep_keys_contain_exec(&acc, p.as_str()) {
        return resolve_list_exec(store, base, paths, i + 1, acc, target);
    }
    let dir = String::from_str(base).concat("/").concat(p.as_str());
    proof {
        reveal_strlit("/");
        assert(dir@ =~= spec_join_dir(base@, p@));
        assert(budget(store@, dir@) < budget(store@, base@));
    }
    match resolve_one_exec(store, dir.as_str(), target) {
        OneOutcome::OkDep(d) => {
            let ghost oldacc = entries_view(acc@);
            let ghost dv = dep_view(d);
            let mut acc2 = acc;
            acc2.push((p.clone(), d));
            proof {
                assert(entries_view(acc2@) =~= oldacc.push((p@, dv)));
            }
            resolve_list_exec(store, base, paths, i + 1, acc2, target)
        },
        OneOutcome::Failed(e) => ResolveOutcome::Failed(e),
        OneOutcome::NeedManifest(s) => ResolveOutcome::NeedManifest(s),
    }
}

impl Dependencies {
    /// Resolves the dependency paths of a project, read relative to
    /// the project's own directory, against one target. Resolution
    /// only reads manifests: when one is missing from the store its
    /// path is handed back so the caller can supply it.
    pub fn new(store: &ManifestStore, paths: &Vec<String>, target: &Target) -> (r: ResolveOutcome)
        ensures
            (spec_resolve_deps(store@, seq_views(paths@), *target) matches
                ResolveOutcomeV::Resolved(es) ==> r matches ResolveOutcome::Resolved(ds)
                && deps_view(ds) == es),
            (spec_resolve_deps(store@, seq_views(paths@), *target) matches
                ResolveOutcomeV::Failed(e) ==> r matches ResolveOutcome::Failed(x) && x@ == e),
            (spec_resolve_deps(store@, seq_views(paths@), *target) matches ResolveOutcomeV::Need(p)
                ==> r matches ResolveOutcome::NeedManifest(s) && s@ == p),
    {
        proof {
            reveal_strlit(".");
            assert("."@ =~= seq!['.']);
            assert(entries_view(Seq::<(String, Dependency)>::empty()) =~= Seq::<
                (Seq<char>, DependencyView),
            >::empty());
        }
        resolve_list_exec(store, ".", paths, 0, Vec::new(), target)
    }
}

/// Resolution is a function of the store, the paths and the
/// target alone, so resolving the same dependency paths twice
/// against the same store and target yields structurally identical
/// outcomes: dependency resolution is idempotent.
pub proof fn lemma_resolution_idempotent(
    store: Seq<(Seq<char>, Option<Seq<char>>)>,
    paths: Seq<Seq<char>>,
    target: Target,
    r1: ResolveOutcomeV,
    r2: ResolveOutcomeV,
)
    requires
        r1 == spec_resolve_deps(store, paths, target),
        r2 == spec_resolve_deps(store, paths, target),
    ensures
        r1 == r2,
{
}

/// A dependency whose manifest declares `kind = executable` is
/// rejected with the executable-dependency error naming it — for
/// every requested target.
pub proof fn lemma_executable_dependency_rejected(
    store: Seq<(Seq<char>, Option<Seq<char>>)>,
    dir: Seq<char>,
    target: Target,
    text: Seq<char>,
    info: crate::project::ProjectInfoView,
)
    requires
        store_lookup(store, spec_manifest_path(dir)) == Some(Some(text)),
        spec_parse_project(text) == Ok::<crate::project::ProjectInfoView, crate::error::ParseDiag>(
            info,
        ),
        info.kind == ProjectType::executable,
    ensures
        spec_resolve_one(store, dir, target) == OneOutcomeV::Failed(
            FatalErrorView::NoExecutableDependencies { name: info.name },
        ),
{
}

/// A dependency that declares a `targets` list supports exactly
/// the targets whose canonical triple text the list holds: with
/// the requested target listed the check passes, with it missing
/// resolution fails with the target-support error naming the
/// dependency and the target.
pub proof fn lemma_dependency_target_support(
    store: Seq<(Seq<char>, Option<Seq<char>>)>,
    dir: Seq<char>,
    target: Target,
    text: Seq<char>,
    info: crate::project::ProjectInfoView,
    ts: Seq<Seq<char>>,
)
    requires
        store_lookup(store, spec_manifest_path(dir)) == Some(Some(text)),
        spec_parse_project(text) == Ok::<crate::project::ProjectInfoView, crate::error::ParseDiag>(
            info,
        ),
        info.kind == ProjectType::library,
        info.targets == Some(ts),
    ensures
        !ts.contains(target.spec_triple()) ==> spec_resolve_one(store, dir, target)
            == OneOutcomeV::Failed(
            FatalErrorView::NoTargetSupportDependency { dep: info.name, target },
        ),
        (ts.contains(target.spec_triple()) && info.dependencies is None) ==> spec_resolve_one(
            store,
            dir,
            target,
        ) == OneOutcomeV::OkDep(DependencyView { name: info.name, deps: None }),
{
}

} // verus!
