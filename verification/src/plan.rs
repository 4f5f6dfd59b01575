//! Build planning: from a resolved project to the exact toolchain
//! command lines, object names and artifact paths of one build.
//!
//! Planning is pure. The caller supplies the launch directory, the
//! manifest store and the source listings; the plan lists, for each
//! project in dependency-first order, the object directory to
//! create, one compile command per source, and the link command.
//! Executing the commands, collecting their exit statuses and
//! creating directories stay outside the library.

use vstd::prelude::*;

use crate::deps::{
    dep_view, deps_view, spec_join_dir, spec_resolve_deps, Dependencies, Dependency,
    DependencyView, ManifestStore, ResolveOutcome, ResolveOutcomeV,
};
use crate::error::{FatalError, FatalErrorView};
use crate::project::{ProjectInfo, ProjectInfoView, ProjectType};
use crate::strutil::{seq_views, spec_ends_with, str_ends_with};
use crate::targets::{OperatingSystem, Target};

verus! {

broadcast use vstd::std_specs::vec::group_vec_axioms, vstd::seq::group_seq_axioms;

/// The output directory of one (target, configuration) pair,
/// rooted at the launch directory: `bin/<triple>/<configuration>`.
/// Every project of one build, dependencies included, shares this
/// directory, which is how the link step finds the dependency
/// artifacts built before it.
pub open spec fn spec_out_dir(launch: Seq<char>, target: Target, release: bool) -> Seq<char> {
    launch + "/bin/"@ + target.spec_triple() + seq!['/'] + (if release {
        "release"@
    } else {
        "debug"@
    })
}

/// Where the object files of one build go.
pub open spec fn spec_obj_dir(out_dir: Seq<char>) -> Seq<char> {
    out_dir + "/obj"@
}

/// `s` with every path separator replaced by a hyphen, so a source
/// path maps to a flat object name without subdirectories.
pub open spec fn flatten_from(s: Seq<char>, i: int) -> Seq<char>
    decreases s.len() - i
        when 0 <= i <= s.len()
{
    if i >= s.len() {
        Seq::empty()
    } else {
        seq![
            if s[i] == '/' || s[i] == '\\' {
                '-'
            } else {
                s[i]
            },
        ] + flatten_from(s, i + 1)
    }
}

/// The object path of one source file: the source path without its
/// leading `src/` and trailing `.c`, flattened, under the object
/// directory.
pub open spec fn spec_obj_path(out_dir: Seq<char>, file: Seq<char>) -> Seq<char> {
    out_dir + "/obj/"@ + flatten_from(file.subrange(4, file.len() - 2), 0) + ".o"@
}

/// The directory of a file referenced by `path` from `base`.
pub open spec fn spec_join(base: Seq<char>, path: Seq<char>) -> Seq<char> {
    base + seq!['/'] + path
}

/// Arguments common to every toolchain call: the compiler
/// subcommand, dialect and warning flags, and the target triple in
/// the toolchain's spelling.
pub open spec fn spec_common_args(target: Target) -> Seq<Seq<char>> {
    seq![
        "cc"@,
        "-std=c17"@,
        "-Wall"@,
        "-Wextra"@,
        "-Wpedantic"@,
        "-target"@,
        target.spec_ziggified(),
    ]
}

/// One public-header include flag per dependency, addressed as a
/// sibling directory of the project being compiled.
pub open spec fn spec_dep_include_flags(base: Seq<char>, names: Seq<Seq<char>>, i: int) -> Seq<
    Seq<char>,
>
    decreases names.len() - i
        when 0 <= i <= names.len()
{
    if i >= names.len() {
        Seq::empty()
    } else {
        seq!["-I"@ + base + "/../"@ + names[i] + "/include"@] + spec_dep_include_flags(
            base,
            names,
            i + 1,
        )
    }
}

/// The full compile command for one source file: the common
/// arguments; the source, object and local-header paths; for a
/// library the public-header path and the export define, for an
/// executable one include flag per dependency; and the
/// configuration flags, optimizing and stripping in release,
/// debugging symbols and the debug define otherwise.
pub open spec fn spec_compile_args(
    launch: Seq<char>,
    base: Seq<char>,
    kind: ProjectType,
    release: bool,
    target: Target,
    dep_names: Seq<Seq<char>>,
    file: Seq<char>,
) -> Seq<Seq<char>> {
    let out = spec_out_dir(launch, target, release);
    spec_common_args(target) + seq![
        "-c"@,
        spec_join(base, file),
        "-o"@,
        spec_obj_path(out, file),
        "-I"@ + spec_join(base, "src"@),
    ] + (if kind == ProjectType::library {
        seq!["-I"@ + spec_join(base, "include"@), "-DSPORK_EXPORT"@]
    } else {
        spec_dep_include_flags(base, dep_names, 0)
    }) + (if release {
        seq!["-O3"@, "-s"@]
    } else {
        seq!["-O0"@, "-g"@, "-DSPORK_DEBUG"@]
    })
}

/// The path of the artifact the link step writes: the bare name
/// (with `.exe` on Windows) for an executable; for a library a
/// `lib`-prefixed `.so` on Unix-like targets and an unprefixed
/// `.dll` on Windows.
pub open spec fn spec_artifact_path(
    out_dir: Seq<char>,
    name: Seq<char>,
    kind: ProjectType,
    os: OperatingSystem,
) -> Seq<char> {
    match kind {
        ProjectType::executable => out_dir + seq!['/'] + name + (if os
            == OperatingSystem::Windows {
            ".exe"@
        } else {
            Seq::empty()
        }),
        ProjectType::library => if os == OperatingSystem::Windows {
            out_dir + seq!['/'] + name + ".dll"@
        } else {
            out_dir + "/lib"@ + name + ".so"@
        },
    }
}

/// The output path recorded on a finished build: for a library the
/// unprefixed shared-object name, as the build reports it.
pub open spec fn spec_recorded_path(
    out_dir: Seq<char>,
    name: Seq<char>,
    kind: ProjectType,
    os: OperatingSystem,
) -> Seq<char> {
    match kind {
        ProjectType::executable => spec_artifact_path(out_dir, name, kind, os),
        ProjectType::library => out_dir + seq!['/'] + name + (if os == OperatingSystem::Windows {
            ".dll"@
        } else {
            ".so"@
        }),
    }
}

/// The import-library side artifact a Windows library link also
/// writes.
pub open spec fn spec_implib_path(out_dir: Seq<char>, name: Seq<char>) -> Seq<char> {
    out_dir + seq!['/'] + name + ".lib"@
}

/// One `-l` flag per dependency, linking it by name.
pub open spec fn spec_link_l_flags(names: Seq<Seq<char>>, i: int) -> Seq<Seq<char>>
    decreases names.len() - i
        when 0 <= i <= names.len()
{
    if i >= names.len() {
        Seq::empty()
    } else {
        seq!["-l"@ + names[i]] + spec_link_l_flags(names, i + 1)
    }
}

/// The full link command: the common arguments, a search path for
/// the shared output directory, every object file; then for a
/// library the shared flag and its output (plus the import library
/// on Windows), for an executable — when it has dependencies — a
/// run-path flag on non-Windows targets and one `-l` per
/// dependency, then its output; and the configuration flags.
pub open spec fn spec_link_args(
    launch: Seq<char>,
    name: Seq<char>,
    kind: ProjectType,
    release: bool,
    target: Target,
    has_deps: bool,
    dep_names: Seq<Seq<char>>,
    objs: Seq<Seq<char>>,
) -> Seq<Seq<char>> {
    let out = spec_out_dir(launch, target, release);
    spec_common_args(target) + seq!["-L"@ + out] + objs + (match kind {
        ProjectType::library => seq!["-shared"@] + (if target.os == OperatingSystem::Windows {
            seq![
                "-Wl,--out-implib,"@ + spec_implib_path(out, name),
                "-o"@,
                spec_artifact_path(out, name, kind, target.os),
            ]
        } else {
            seq!["-o"@, spec_artifact_path(out, name, kind, target.os)]
        }),
        ProjectType::executable => (if has_deps {
            (if target.os != OperatingSystem::Windows {
                seq!["-Wl,-rpath,."@]
            } else {
                Seq::<Seq<char>>::empty()
            }) + spec_link_l_flags(dep_names, 0)
        } else {
            Seq::<Seq<char>>::empty()
        }) + seq!["-o"@, spec_artifact_path(out, name, kind, target.os)],
    }) + (if release {
        seq!["-O3"@, "-s"@]
    } else {
        seq!["-O0"@, "-g"@]
    })
}

/// Builds the output directory path.
pub fn out_dir(launch_dir: &str, target: &Target, release: bool) -> (r: String)
    ensures
        r@ == spec_out_dir(launch_dir@, *target, release),
{
    let triple = target.to_triple();
    let r = String::from_str(launch_dir).concat("/bin/").concat(triple.as_str()).concat("/")
        .concat(if release {
        "release"
    } else {
        "debug"
    });
    proof {
        reveal_strlit("/");
        assert(r@ =~= spec_out_dir(launch_dir@, *target, release));
    }
    r
}

/// Joins a base directory and a relative path.
pub fn join_path(base: &str, path: &str) -> (r: String)
    ensures
        r@ == spec_join(base@, path@),
{
    let r = String::from_str(base).concat("/").concat(path);
    proof {
        reveal_strlit("/");
        assert(r@ =~= spec_join(base@, path@));
    }
    r
}

/// Flattens the path characters of `s` from `i` on into an object
/// name piece.
fn flatten_exec(s: &str, i: usize) -> (r: String)
    requires
        i <= s@.len(),
    ensures
        r@ == flatten_from(s@, i as int),
    decreases s@.len() - i,
{
    if i >= s.unicode_len() {
        let r = String::new();
        proof {
            assert(r@ =~= flatten_from(s@, i as int));
        }
        r
    } else {
        let c = s.get_char(i);
        let rest = flatten_exec(s, i + 1);
        let r = if c == '/' || c == '\\' {
            String::from_str("-").concat(rest.as_str())
        } else {
            String::from_str(s.substring_char(i, i + 1)).concat(rest.as_str())
        };
        proof {
            reveal_strlit("-");
            assert(s@.subrange(i as int, i + 1) =~= seq![s@[i as int]]);
            assert(r@ =~= flatten_from(s@, i as int));
        }
        r
    }
}

/// Builds the object path of one source file.
pub fn obj_path(out_dir: &str, file: &str) -> (r: String)
    requires
        file@.len() >= 6,
    ensures
        r@ == spec_obj_path(out_dir@, file@),
{
    let n = file.unicode_len();
    let middle = file.substring_char(4, n - 2);
    let flat = flatten_exec(middle, 0);
    let r = String::from_str(out_dir).concat("/obj/").concat(flat.as_str()).concat(".o");
    proof {
        assert(middle@ == file@.subrange(4, file@.len() - 2));
        assert(r@ =~= spec_obj_path(out_dir@, file@));
    }
    r
}

/// Builds the common toolchain arguments.
fn common_args(target: &Target) -> (r: Vec<String>)
    ensures
        seq_views(r@) == spec_common_args(*target),
{
    let mut r: Vec<String> = Vec::new();
    r.push(String::from_str("cc"));
    r.push(String::from_str("-std=c17"));
    r.push(String::from_str("-Wall"));
    r.push(String::from_str("-Wextra"));
    r.push(String::from_str("-Wpedantic"));
    r.push(String::from_str("-target"));
    r.push(target.ziggified());
    proof {
        assert(seq_views(r@) =~= spec_common_args(*target));
    }
    r
}

/// Builds the dependency include flags from `i` on.
fn dep_include_flags_exec(base: &str, names: &Vec<String>, i: usize) -> (r: Vec<String>)
    requires
        i <= names@.len(),
    ensures
        seq_views(r@) == spec_dep_include_flags(base@, seq_views(names@), i as int),
    decreases names@.len() - i,
{
    if i >= names.len() {
        let r: Vec<String> = Vec::new();
        proof {
            assert(seq_views(r@) =~= spec_dep_include_flags(base@, seq_views(names@), i as int));
        }
        r
    } else {
        let flag = String::from_str("-I").concat(base).concat("/../").concat(names[i].as_str())
            .concat("/include");
        let mut r = dep_include_flags_exec(base, names, i + 1);
        r.insert(0, flag);
        proof {
            assert(seq_views(r@) =~= spec_dep_include_flags(base@, seq_views(names@), i as int));
        }
        r
    }
}

/// Builds the `-l` flags from `i` on.
fn link_l_flags_exec(names: &Vec<String>, i: usize) -> (r: Vec<String>)
    requires
        i <= names@.len(),
    ensures
        seq_views(r@) == spec_link_l_flags(seq_views(names@), i as int),
    decreases names@.len() - i,
{
    if i >= names.len() {
        let r: Vec<String> = Vec::new();
        proof {
            assert(seq_views(r@) =~= spec_link_l_flags(seq_views(names@), i as int));
        }
        r
    } else {
        let flag = String::from_str("-l").concat(names[i].as_str());
        let mut r = link_l_flags_exec(names, i + 1);
        r.insert(0, flag);
        proof {
            assert(seq_views(r@) =~= spec_link_l_flags(seq_views(names@), i as int));
        }
        r
    }
}

/// Appends every element of `tail` to `v`.
fn append_all(v: &mut Vec<String>, tail: Vec<String>)
    ensures
        seq_views(final(v)@) == seq_views(old(v)@) + seq_views(tail@),
{
    let ghost tv = seq_views(tail@);
    let mut i: usize = 0;
    let n = tail.len();
    while i < n
        invariant
            i <= n,
            n == tail@.len(),
            tv == seq_views(tail@),
            tv.len() == n,
            seq_views(v@) =~= seq_views(old(v)@) + tv.take(i as int),
        decreases n - i,
    {
        let s = tail[i].clone();
        let ghost prev = seq_views(v@);
        proof {
            assert(s@ == tv[i as int]);
            assert(tv.take(i + 1) =~= tv.take(i as int).push(tv[i as int]));
        }
        v.push(s);
        proof {
            assert(seq_views(v@) =~= prev.push(s@));
        }
        i += 1;
    }
    proof {
        assert(tv.take(n as int) =~= tv);
        assert(seq_views(v@) =~= seq_views(old(v)@) + tv);
    }
}

/// Builds the full compile command for one source file.
pub fn compile_args(
    launch: &str,
    base: &str,
    kind: ProjectType,
    release: bool,
    target: &Target,
    dep_names: &Vec<String>,
    file: &str,
) -> (r: Vec<String>)
    requires
        file@.len() >= 6,
    ensures
        seq_views(r@) == spec_compile_args(
            launch@,
            base@,
            kind,
            release,
            *target,
            seq_views(dep_names@),
            file@,
        ),
{
    let out = out_dir(launch, target, release);
    let mut r = common_args(target);
    r.push(String::from_str("-c"));
    r.push(join_path(base, file));
    r.push(String::from_str("-o"));
    r.push(obj_path(out.as_str(), file));
    r.push(String::from_str("-I").concat(join_path(base, "src").as_str()));
    let ghost mid = seq_views(r@);
    match kind {
        ProjectType::library => {
            r.push(String::from_str("-I").concat(join_path(base, "include").as_str()));
            r.push(String::from_str("-DSPORK_EXPORT"));
            proof {
                assert(seq_views(r@) =~= mid + seq![
                    "-I"@ + spec_join(base@, "include"@),
                    "-DSPORK_EXPORT"@,
                ]);
            }
        },
        ProjectType::executable => {
            let flags = dep_include_flags_exec(base, dep_names, 0);
            append_all(&mut r, flags);
        },
    }
    let ghost mid2 = seq_views(r@);
    if release {
        r.push(String::from_str("-O3"));
        r.push(String::from_str("-s"));
        proof {
            assert(seq_views(r@) =~= mid2 + seq!["-O3"@, "-s"@]);
        }
    } else {
        r.push(String::from_str("-O0"));
        r.push(String::from_str("-g"));
        r.push(String::from_str("-DSPORK_DEBUG"));
        proof {
            assert(seq_views(r@) =~= mid2 + seq!["-O0"@, "-g"@, "-DSPORK_DEBUG"@]);
        }
    }
    proof {
        assert(seq_views(r@) =~= spec_compile_args(
            launch@,
            base@,
            kind,
            release,
            *target,
            seq_views(dep_names@),
            file@,
        ));
    }
    r
}

/// Builds the artifact path of one project.
pub fn artifact_path(out_dir: &str, name: &str, kind: ProjectType, os: OperatingSystem) -> (r:
    String)
    ensures
        r@ == spec_artifact_path(out_dir@, name@, kind, os),
{
    let r = match kind {
        ProjectType::executable => {
            let base = String::from_str(out_dir).concat("/").concat(name);
            match os {
                OperatingSystem::Windows => base.concat(".exe"),
                _ => base,
            }
        },
        ProjectType::library => {
            match os {
                OperatingSystem::Windows => String::from_str(out_dir).concat("/").concat(
                    name,
                ).concat(".dll"),
                _ => String::from_str(out_dir).concat("/lib").concat(name).concat(".so"),
            }
        },
    };
    proof {
        reveal_strlit("/");
        assert(r@ =~= spec_artifact_path(out_dir@, name@, kind, os));
    }
    r
}

/// Builds the recorded output path of one project.
pub fn recorded_path(out_dir: &str, name: &str, kind: ProjectType, os: OperatingSystem) -> (r:
    String)
    ensures
        r@ == spec_recorded_path(out_dir@, name@, kind, os),
{
    match kind {
        ProjectType::executable => artifact_path(out_dir, name, kind, os),
        ProjectType::library => {
            let r = String::from_str(out_dir).concat("/").concat(name).concat(
                match os {
                    OperatingSystem::Windows => ".dll",
                    _ => ".so",
                },
            );
            proof {
                reveal_strlit("/");
                assert(r@ =~= spec_recorded_path(out_dir@, name@, kind, os));
            }
            r
        },
    }
}

/// Builds the full link command for one project.
pub fn link_args(
    launch: &str,
    name: &str,
    kind: ProjectType,
    release: bool,
    target: &Target,
    has_deps: bool,
    dep_names: &Vec<String>,
    objs: Vec<String>,
) -> (r: Vec<String>)
    ensures
        seq_views(r@) == spec_link_args(
            launch@,
            name@,
            kind,
            release,
            *target,
            has_deps,
            seq_views(dep_names@),
            seq_views(objs@),
        ),
{
    let ghost objsv = seq_views(objs@);
    let out = out_dir(launch, target, release);
    let mut r = common_args(target);
    r.push(String::from_str("-L").concat(out.as_str()));
    append_all(&mut r, objs);
    let ghost mid = seq_views(r@);
    match kind {
        ProjectType::library => {
            r.push(String::from_str("-shared"));
            if matches!(target.os, OperatingSystem::Windows) {
                let implib = String::from_str(out.as_str()).concat("/").concat(name).concat(
                    ".lib",
                );
                proof {
                    reveal_strlit("/");
                    assert(implib@ =~= spec_implib_path(out@, name@));
                }
                r.push(String::from_str("-Wl,--out-implib,").concat(implib.as_str()));
                r.push(String::from_str("-o"));
                r.push(artifact_path(out.as_str(), name, kind, target.os));
                proof {
                    assert(seq_views(r@) =~= mid + (seq!["-shared"@] + seq![
                        "-Wl,--out-implib,"@ + spec_implib_path(out@, name@),
                        "-o"@,
                        spec_artifact_path(out@, name@, kind, target.os),
                    ]));
                }
            } else {
                r.push(String::from_str("-o"));
                r.push(artifact_path(out.as_str(), name, kind, target.os));
                proof {
                    assert(seq_views(r@) =~= mid + (seq!["-shared"@] + seq![
                        "-o"@,
                        spec_artifact_path(out@, name@, kind, target.os),
                    ]));
                }
            }
        },
        ProjectType::executable => {
            if has_deps {
                if !matches!(target.os, OperatingSystem::Windows) {
                    r.push(String::from_str("-Wl,-rpath,."));
                }
                proof {
                    assert(seq_views(r@) =~= mid + (if target.os != OperatingSystem::Windows {
                        seq!["-Wl,-rpath,."@]
                    } else {
                        Seq::<Seq<char>>::empty()
                    }));
                }
                let ghost mid_b = seq_views(r@);
                let flags = link_l_flags_exec(dep_names, 0);
                append_all(&mut r, flags);
                proof {
                    assert(seq_views(r@) =~= mid_b + spec_link_l_flags(seq_views(dep_names@), 0));
                }
            }
            let ghost mid_c = seq_views(r@);
            proof {
                assert(mid_c =~= mid + (if has_deps {
                    (if target.os != OperatingSystem::Windows {
                        seq!["-Wl,-rpath,."@]
                    } else {
                        Seq::<Seq<char>>::empty()
                    }) + spec_link_l_flags(seq_views(dep_names@), 0)
                } else {
                    Seq::<Seq<char>>::empty()
                }));
            }
            r.push(String::from_str("-o"));
            r.push(artifact_path(out.as_str(), name, kind, target.os));
            proof {
                assert(seq_views(r@) =~= mid_c + seq![
                    "-o"@,
                    spec_artifact_path(out@, name@, kind, target.os),
                ]);
                assert(seq_views(r@) =~= mid + ((if has_deps {
                    (if target.os != OperatingSystem::Windows {
                        seq!["-Wl,-rpath,."@]
                    } else {
                        Seq::<Seq<char>>::empty()
                    }) + spec_link_l_flags(seq_views(dep_names@), 0)
                } else {
                    Seq::<Seq<char>>::empty()
                }) + seq!["-o"@, spec_artifact_path(out@, name@, kind, target.os)]));
            }
        },
    }
    let ghost mid2 = seq_views(r@);
    if release {
        r.push(String::from_str("-O3"));
        r.push(String::from_str("-s"));
        proof {
            assert(seq_views(r@) =~= mid2 + seq!["-O3"@, "-s"@]);
        }
    } else {
        r.push(String::from_str("-O0"));
        r.push(String::from_str("-g"));
        proof {
            assert(seq_views(r@) =~= mid2 + seq!["-O0"@, "-g"@]);
        }
    }
    proof {
        assert(seq_views(r@) =~= spec_link_args(
            launch@,
            name@,
            kind,
            release,
            *target,
            has_deps,
            seq_views(dep_names@),
            objsv,
        ));
    }
    r
}

/// A well-formed source path: relative to its project directory
/// and under `src/`, as directory enumeration reports it.
pub open spec fn file_wf(f: Seq<char>) -> bool {
    f.len() >= 4 && f.subrange(0, 4) == "src/"@
}

/// Every file of a listing is well-formed.
pub open spec fn files_wf(fs: Seq<Seq<char>>) -> bool {
    forall|i: int| 0 <= i < fs.len() ==> file_wf(fs[i])
}

/// The views of a listing's entries.
pub open spec fn listing_views(v: Seq<(String, Vec<String>)>) -> Seq<(Seq<char>, Seq<Seq<char>>)> {
    Seq::new(v.len(), |i: int| (v[i].0@, seq_views(v[i].1@)))
}

/// The source files of each project directory, as the caller
/// enumerated them under that directory's `src`: paths relative to
/// the project directory, `src/` included. The first entry for a
/// directory wins.
#[derive(Debug, Clone, PartialEq)]
pub struct SourceListings {
    pub entries: Vec<(String, Vec<String>)>,
}

impl View for SourceListings {
    type V = Seq<(Seq<char>, Seq<Seq<char>>)>;

    open spec fn view(&self) -> Seq<(Seq<char>, Seq<Seq<char>>)> {
        listing_views(self.entries@)
    }
}

/// The first listing for `key` at or after `i`, if any.
pub open spec fn listing_assoc(
    ls: Seq<(Seq<char>, Seq<Seq<char>>)>,
    i: int,
    key: Seq<char>,
) -> Option<Seq<Seq<char>>>
    decreases ls.len() - i
        when 0 <= i <= ls.len()
{
    if i >= ls.len() {
        None
    } else if ls[i].0 == key {
        Some(ls[i].1)
    } else {
        listing_assoc(ls, i + 1, key)
    }
}

/// What the listings hold for a project directory.
pub open spec fn listing_lookup(
    ls: Seq<(Seq<char>, Seq<Seq<char>>)>,
    key: Seq<char>,
) -> Option<Seq<Seq<char>>> {
    listing_assoc(ls, 0, key)
}

impl SourceListings {
    /// Every listed file is well-formed.
    pub open spec fn wf(&self) -> bool {
        forall|i: int| 0 <= i < self@.len() ==> files_wf(#[trigger] self@[i].1)
    }

    /// Empty listings.
    pub fn new() -> (r: Self)
        ensures
            r@ =~= Seq::<(Seq<char>, Seq<Seq<char>>)>::empty(),
            r.wf(),
    {
        SourceListings { entries: Vec::new() }
    }

    /// Records the enumerated source files of one project
    /// directory.
    pub fn add(&mut self, dir: String, files: Vec<String>)
        requires
            files_wf(seq_views(files@)),
            old(self).wf(),
        ensures
            final(self)@ =~= old(self)@.push((dir@, seq_views(files@))),
            final(self).wf(),
    {
        self.entries.push((dir, files));
        proof {
            assert(self@ =~= old(self)@.push(
                (self.entries@.last().0@, seq_views(self.entries@.last().1@)),
            ));
        }
    }

    /// Looks a project directory up; the first entry wins.
    fn lookup(&self, key: &str) -> (r: Option<&Vec<String>>)
        ensures
            (listing_lookup(self@, key@) matches Some(fs) ==> r matches Some(v) && seq_views(v@)
                == fs),
            (listing_lookup(self@, key@) is None ==> r is None),
    {
        let n = self.entries.len();
        let mut i: usize = 0;
        while i < n
            invariant
                i <= n,
                n == self.entries@.len(),
                self@.len() == n,
                listing_assoc(self@, 0, key@) == listing_assoc(self@, i as int, key@),
            decreases n - i,
        {
            if crate::strutil::str_eq(self.entries[i].0.as_str(), key) {
                proof {
                    assert(self@[i as int].0 == key@);
                }
                return Some(&self.entries[i].1);
            }
            proof {
                assert(self@[i as int].0 != key@);
            }
            i += 1;
        }
        None
    }
}

/// A listing looked up in well-formed listings is well-formed.
proof fn lemma_listing_assoc_wf(ls: Seq<(Seq<char>, Seq<Seq<char>>)>, i: int, key: Seq<char>)
    requires
        0 <= i <= ls.len(),
        forall|j: int| 0 <= j < ls.len() ==> files_wf(#[trigger] ls[j].1),
        listing_assoc(ls, i, key) is Some,
    ensures
        files_wf(listing_assoc(ls, i, key)->Some_0),
    decreases ls.len() - i,
{
    if i < ls.len() && ls[i].0 != key {
        lemma_listing_assoc_wf(ls, i + 1, key);
    }
}

/// A source path under `src/` ending in `.c` has at least the four
/// prefix characters, one name character slot and the two-character
/// extension.
pub proof fn lemma_c_file_len(f: Seq<char>)
    requires
        file_wf(f),
        spec_ends_with(f, ".c"@),
    ensures
        f.len() >= 6,
{
    reveal_strlit("src/");
    reveal_strlit(".c");
    if f.len() < 6 {
        assert(f.subrange(0, 4)[3] == '/');
        assert(f.subrange(f.len() - 2, f.len() as int)[0] == '.');
        assert(f.len() == 4 || f.len() == 5);
        if f.len() == 4 {
            assert(f[3] == '/' && f[2] == '.');
            assert(f.subrange(0, 4)[2] == 'c' || true);
            assert(f.subrange(f.len() - 2, f.len() as int)[1] == 'c');
            assert(f[3] == 'c');
        } else {
            assert(f[3] == '/' && f[3] == '.');
        }
    }
}

/// The compile commands of a file list from `i` on: one per `.c`
/// file, in order.
pub open spec fn spec_compile_cmds(
    launch: Seq<char>,
    base: Seq<char>,
    kind: ProjectType,
    release: bool,
    target: Target,
    dep_names: Seq<Seq<char>>,
    files: Seq<Seq<char>>,
    i: int,
) -> Seq<Seq<Seq<char>>>
    decreases files.len() - i
        when 0 <= i <= files.len()
{
    if i >= files.len() {
        Seq::empty()
    } else if spec_ends_with(files[i], ".c"@) {
        seq![spec_compile_args(launch, base, kind, release, target, dep_names, files[i])]
            + spec_compile_cmds(launch, base, kind, release, target, dep_names, files, i + 1)
    } else {
        spec_compile_cmds(launch, base, kind, release, target, dep_names, files, i + 1)
    }
}

/// The object paths of a file list from `i` on, one per `.c` file.
pub open spec fn spec_objs(out_dir: Seq<char>, files: Seq<Seq<char>>, i: int) -> Seq<Seq<char>>
    decreases files.len() - i
        when 0 <= i <= files.len()
{
    if i >= files.len() {
        Seq::empty()
    } else if spec_ends_with(files[i], ".c"@) {
        seq![spec_obj_path(out_dir, files[i])] + spec_objs(out_dir, files, i + 1)
    } else {
        spec_objs(out_dir, files, i + 1)
    }
}

/// The files of a list from `i` on that are neither sources nor
/// headers; each earns a warning and is skipped.
pub open spec fn spec_skipped(files: Seq<Seq<char>>, i: int) -> Seq<Seq<char>>
    decreases files.len() - i
        when 0 <= i <= files.len()
{
    if i >= files.len() {
        Seq::empty()
    } else if !spec_ends_with(files[i], ".c"@) && !spec_ends_with(files[i], ".h"@) {
        seq![files[i]] + spec_skipped(files, i + 1)
    } else {
        spec_skipped(files, i + 1)
    }
}

/// The views of a sequence of argument lists.
pub open spec fn argses_view(v: Seq<Vec<String>>) -> Seq<Seq<Seq<char>>> {
    Seq::new(v.len(), |i: int| seq_views(v[i]@))
}

/// The whole build of one project: the object directory to create,
/// the files to warn about, one compile command per source, and
/// the link command with its artifact paths.
#[derive(Debug, Clone, PartialEq)]
pub struct ProjectPlan {
    pub name: String,
    pub base_dir: String,
    pub obj_dir: String,
    pub skipped: Vec<String>,
    pub compiles: Vec<Vec<String>>,
    pub link_args: Vec<String>,
    pub artifact_path: String,
    pub recorded_path: String,
}

/// Mathematical image of a [`ProjectPlan`].
pub ghost struct ProjectPlanView {
    pub name: Seq<char>,
    pub base_dir: Seq<char>,
    pub obj_dir: Seq<char>,
    pub skipped: Seq<Seq<char>>,
    pub compiles: Seq<Seq<Seq<char>>>,
    pub link_args: Seq<Seq<char>>,
    pub artifact_path: Seq<char>,
    pub recorded_path: Seq<char>,
}

impl View for ProjectPlan {
    type V = ProjectPlanView;

    open spec fn view(&self) -> ProjectPlanView {
        ProjectPlanView {
            name: self.name@,
            base_dir: self.base_dir@,
            obj_dir: self.obj_dir@,
            skipped: seq_views(self.skipped@),
            compiles: argses_view(self.compiles@),
            link_args: seq_views(self.link_args@),
            artifact_path: self.artifact_path@,
            recorded_path: self.recorded_path@,
        }
    }
}

/// The plan of one project over its enumerated files: rejected
/// with the no-sources error when not a single `.c` file is there,
/// complete with its link command otherwise.
pub open spec fn spec_project_plan(
    launch: Seq<char>,
    base: Seq<char>,
    name: Seq<char>,
    kind: ProjectType,
    release: bool,
    target: Target,
    has_deps: bool,
    dep_names: Seq<Seq<char>>,
    files: Seq<Seq<char>>,
) -> Result<ProjectPlanView, FatalErrorView> {
    let out = spec_out_dir(launch, target, release);
    let compiles = spec_compile_cmds(launch, base, kind, release, target, dep_names, files, 0);
    if compiles.len() == 0 {
        Err(FatalErrorView::NoSourceFiles)
    } else {
        Ok(
            ProjectPlanView {
                name,
                base_dir: base,
                obj_dir: spec_obj_dir(out),
                skipped: spec_skipped(files, 0),
                compiles,
                link_args: spec_link_args(
                    launch,
                    name,
                    kind,
                    release,
                    target,
                    has_deps,
                    dep_names,
                    spec_objs(out, files, 0),
                ),
                artifact_path: spec_artifact_path(out, name, kind, target.os),
                recorded_path: spec_recorded_path(out, name, kind, target.os),
            },
        )
    }
}

/// Builds the compile commands of the files from `i` on.
fn compile_cmds_exec(
    launch: &str,
    base: &str,
    kind: ProjectType,
    release: bool,
    target: &Target,
    dep_names: &Vec<String>,
    files: &Vec<String>,
    i: usize,
) -> (r: Vec<Vec<String>>)
    requires
        i <= files@.len(),
        files_wf(seq_views(files@)),
    ensures
        argses_view(r@) == spec_compile_cmds(
            launch@,
            base@,
            kind,
            release,
            *target,
            seq_views(dep_names@),
            seq_views(files@),
            i as int,
        ),
    decreases files@.len() - i,
{
    let ghost fsv = seq_views(files@);
    if i >= files.len() {
        let r: Vec<Vec<String>> = Vec::new();
        proof {
            assert(argses_view(r@) =~= spec_compile_cmds(
                launch@,
                base@,
                kind,
                release,
                *target,
                seq_views(dep_names@),
                fsv,
                i as int,
            ));
        }
        r
    } else {
        let f = &files[i];
        proof {
            assert(fsv[i as int] == f@);
            assert(file_wf(f@));
        }
        if str_ends_with(f.as_str(), ".c") {
            proof {
                lemma_c_file_len(f@);
            }
            let cmd = compile_args(launch, base, kind, release, target, dep_names, f.as_str());
            let mut r = compile_cmds_exec(
                launch,
                base,
                kind,
                release,
                target,
                dep_names,
                files,
                i + 1,
            );
            r.insert(0, cmd);
            proof {
                assert(argses_view(r@) =~= spec_compile_cmds(
                    launch@,
                    base@,
                    kind,
                    release,
                    *target,
                    seq_views(dep_names@),
                    fsv,
                    i as int,
                ));
            }
            r
        } else {
            compile_cmds_exec(launch, base, kind, release, target, dep_names, files, i + 1)
        }
    }
}

/// Builds the object paths of the files from `i` on.
fn objs_exec(out_dir: &str, files: &Vec<String>, i: usize) -> (r: Vec<String>)
    requires
        i <= files@.len(),
        files_wf(seq_views(files@)),
    ensures
        seq_views(r@) == spec_objs(out_dir@, seq_views(files@), i as int),
    decreases files@.len() - i,
{
    let ghost fsv = seq_views(files@);
    if i >= files.len() {
        let r: Vec<String> = Vec::new();
        proof {
            assert(seq_views(r@) =~= spec_objs(out_dir@, fsv, i as int));
        }
        r
    } else {
        let f = &files[i];
        proof {
            assert(fsv[i as int] == f@);
            assert(file_wf(f@));
        }
        if str_ends_with(f.as_str(), ".c") {
            proof {
                lemma_c_file_len(f@);
            }
            let o = obj_path(out_dir, f.as_str());
            let mut r = objs_exec(out_dir, files, i + 1);
            r.insert(0, o);
            proof {
                assert(seq_views(r@) =~= spec_objs(out_dir@, fsv, i as int));
            }
            r
        } else {
            objs_exec(out_dir, files, i + 1)
        }
    }
}

/// Collects the files from `i` on that earn a skip warning.
fn skipped_exec(files: &Vec<String>, i: usize) -> (r: Vec<String>)
    requires
        i <= files@.len(),
    ensures
        seq_views(r@) == spec_skipped(seq_views(files@), i as int),
    decreases files@.len() - i,
{
    let ghost fsv = seq_views(files@);
    if i >= files.len() {
        let r: Vec<String> = Vec::new();
        proof {
            assert(seq_views(r@) =~= spec_skipped(fsv, i as int));
        }
        r
    } else {
        let f = &files[i];
        proof {
            assert(fsv[i as int] == f@);
        }
        if !str_ends_with(f.as_str(), ".c") && !str_ends_with(f.as_str(), ".h") {
            let mut r = skipped_exec(files, i + 1);
            r.insert(0, f.clone());
            proof {
                assert(seq_views(r@) =~= spec_skipped(fsv, i as int));
            }
            r
        } else {
            skipped_exec(files, i + 1)
        }
    }
}

/// Plans the whole build of one project from its enumerated files.
pub fn project_plan(
    launch: &str,
    base: &str,
    name: &str,
    kind: ProjectType,
    release: bool,
    target: &Target,
    has_deps: bool,
    dep_names: &Vec<String>,
    files: &Vec<String>,
) -> (r: Result<ProjectPlan, FatalError>)
    requires
        files_wf(seq_views(files@)),
    ensures
        (spec_project_plan(
            launch@,
            base@,
            name@,
            kind,
            release,
            *target,
            has_deps,
            seq_views(dep_names@),
            seq_views(files@),
        ) matches Ok(pl) ==> r matches Ok(p) && p@ == pl),
        (spec_project_plan(
            launch@,
            base@,
            name@,
            kind,
            release,
            *target,
            has_deps,
            seq_views(dep_names@),
            seq_views(files@),
        ) matches Err(e) ==> r matches Err(x) && x@ == e),
{
    let out = out_dir(launch, target, release);
    let compiles = compile_cmds_exec(launch, base, kind, release, target, dep_names, files, 0);
    if compiles.len() == 0 {
        return Err(FatalError::NoSourceFiles);
    }
    let objs = objs_exec(out.as_str(), files, 0);
    let la = link_args(launch, name, kind, release, target, has_deps, dep_names, objs);
    let obj_dir = String::from_str(out.as_str()).concat("/obj");
    proof {
        assert(obj_dir@ =~= spec_obj_dir(spec_out_dir(launch@, *target, release)));
    }
    Ok(
        ProjectPlan {
            name: String::from_str(name),
            base_dir: String::from_str(base),
            obj_dir,
            skipped: skipped_exec(files, 0),
            compiles,
            link_args: la,
            artifact_path: artifact_path(out.as_str(), name, kind, target.os),
            recorded_path: recorded_path(out.as_str(), name, kind, target.os),
        },
    )
}

/// The declared name of each resolved dependency, in order.
pub open spec fn dep_names_of(entries: Seq<(Seq<char>, DependencyView)>) -> Seq<Seq<char>> {
    Seq::new(entries.len(), |i: int| entries[i].1.name)
}

/// The views of a sequence of project plans.
pub open spec fn plans_view(v: Seq<ProjectPlan>) -> Seq<ProjectPlanView> {
    Seq::new(v.len(), |i: int| v[i]@)
}

/// Outcome of planning a whole dependency-first build tree.
pub ghost enum PlanOutcomeV {
    /// The plans, one per project, every dependency before the
    /// project that needs it.
    Plans(Seq<ProjectPlanView>),
    Failed(FatalErrorView),
    /// The source files of this project directory are not listed
    /// yet.
    NeedSources(Seq<char>),
}

/// Executable outcome of planning a build tree.
#[derive(Debug, PartialEq)]
pub enum PlanOutcome {
    Plans(Vec<ProjectPlan>),
    Failed(FatalError),
    NeedSources(String),
}

/// Plans the project in directory `base` and, before it, every
/// project of its resolved dependency tree. A dependency is always
/// built as a library for the same target and configuration.
pub open spec fn spec_plan_tree(
    listings: Seq<(Seq<char>, Seq<Seq<char>>)>,
    launch: Seq<char>,
    release: bool,
    target: Target,
    base: Seq<char>,
    name: Seq<char>,
    kind: ProjectType,
    deps: Option<Seq<(Seq<char>, DependencyView)>>,
) -> PlanOutcomeV
    decreases deps, 1nat, 0nat
{
    let children = match deps {
        None => PlanOutcomeV::Plans(Seq::empty()),
        Some(_) => spec_plan_forest(listings, launch, release, target, base, deps, 0),
    };
    match children {
        PlanOutcomeV::Failed(e) => PlanOutcomeV::Failed(e),
        PlanOutcomeV::NeedSources(d) => PlanOutcomeV::NeedSources(d),
        PlanOutcomeV::Plans(ps) => match listing_lookup(listings, base) {
            None => PlanOutcomeV::NeedSources(base),
            Some(files) => match spec_project_plan(
                launch,
                base,
                name,
                kind,
                release,
                target,
                deps is Some,
                match deps {
                    None => Seq::empty(),
                    Some(es) => dep_names_of(es),
                },
                files,
            ) {
                Err(e) => PlanOutcomeV::Failed(e),
                Ok(pl) => PlanOutcomeV::Plans(ps + seq![pl]),
            },
        },
    }
}

/// Plans the dependency subtrees of `deps` from entry `i` on, each
/// fully before the next.
pub open spec fn spec_plan_forest(
    listings: Seq<(Seq<char>, Seq<Seq<char>>)>,
    launch: Seq<char>,
    release: bool,
    target: Target,
    base: Seq<char>,
    deps: Option<Seq<(Seq<char>, DependencyView)>>,
    i: int,
) -> PlanOutcomeV
    decreases deps, 0nat, (match deps {
        Some(es) => es.len() - i,
        None => 0,
    })
        when deps matches Some(es) && 0 <= i <= es.len()
{
    let es = deps->Some_0;
    if i >= es.len() {
        PlanOutcomeV::Plans(Seq::empty())
    } else {
        match spec_plan_tree(
            listings,
            launch,
            release,
            target,
            spec_join_dir(base, es[i].0),
            es[i].1.name,
            ProjectType::library,
            es[i].1.deps,
        ) {
            PlanOutcomeV::Failed(e) => PlanOutcomeV::Failed(e),
            PlanOutcomeV::NeedSources(d) => PlanOutcomeV::NeedSources(d),
            PlanOutcomeV::Plans(ps1) => match spec_plan_forest(
                listings,
                launch,
                release,
                target,
                base,
                deps,
                i + 1,
            ) {
                PlanOutcomeV::Failed(e) => PlanOutcomeV::Failed(e),
                PlanOutcomeV::NeedSources(d) => PlanOutcomeV::NeedSources(d),
                PlanOutcomeV::Plans(ps2) => PlanOutcomeV::Plans(ps1 + ps2),
            },
        }
    }
}

/// Moves every element of `b` onto the end of `a`.
fn append_move<T>(a: &mut Vec<T>, b: Vec<T>)
    ensures
        final(a)@ == old(a)@ + b@,
{
    let mut b = b;
    let ghost total = old(a)@ + b@;
    while b.len() > 0
        invariant
            a@ + b@ =~= total,
        decreases b@.len(),
    {
        let x = b.remove(0);
        a.push(x);
    }
    proof {
        assert(a@ =~= total);
    }
}

/// Collects the declared names of resolved dependencies.
fn dep_names_exec(ds: &Dependencies) -> (r: Vec<String>)
    ensures
        seq_views(r@) == dep_names_of(deps_view(*ds)),
{
    proof {
        crate::deps::lemma_deps_view(*ds);
    }
    let n = ds.path_to_deps.len();
    let mut r: Vec<String> = Vec::new();
    let mut i: usize = 0;
    while i < n
        invariant
            i <= n,
            n == ds.path_to_deps@.len(),
            deps_view(*ds) =~= crate::deps::entries_view(ds.path_to_deps@),
            seq_views(r@) =~= dep_names_of(deps_view(*ds)).take(i as int),
        decreases n - i,
    {
        let name = ds.path_to_deps[i].1.name.clone();
        proof {
            assert(dep_names_of(deps_view(*ds))[i as int] == name@);
            assert(dep_names_of(deps_view(*ds)).take(i + 1) =~= dep_names_of(
                deps_view(*ds),
            ).take(i as int).push(name@));
        }
        r.push(name);
        i += 1;
    }
    proof {
        assert(dep_names_of(deps_view(*ds)).take(n as int) =~= dep_names_of(deps_view(*ds)));
    }
    r
}

/// Plans the project in directory `base` with its resolved
/// dependency tree, dependencies first.
pub fn plan_tree(
    listings: &SourceListings,
    launch: &str,
    release: bool,
    target: &Target,
    base: &str,
    name: &str,
    kind: ProjectType,
    deps: &Option<Dependencies>,
) -> (r: PlanOutcome)
    requires
        listings.wf(),
    ensures
        (spec_plan_tree(
            listings@,
            launch@,
            release,
            *target,
            base@,
            name@,
            kind,
            crate::deps::deps_opt_view(*deps),
        ) matches PlanOutcomeV::Plans(ps) ==> r matches PlanOutcome::Plans(v) && plans_view(v@)
            == ps),
        (spec_plan_tree(
            listings@,
            launch@,
            release,
            *target,
            base@,
            name@,
            kind,
            crate::deps::deps_opt_view(*deps),
        ) matches PlanOutcomeV::Failed(e) ==> r matches PlanOutcome::Failed(x) && x@ == e),
        (spec_plan_tree(
            listings@,
            launch@,
            release,
            *target,
            base@,
            name@,
            kind,
            crate::deps::deps_opt_view(*deps),
        ) matches PlanOutcomeV::NeedSources(d) ==> r matches PlanOutcome::NeedSources(s) && s@
            == d),
    decreases *deps, 1nat, 0nat,
{
    let children: Vec<ProjectPlan> = match deps {
        None => Vec::new(),
        Some(ds) => {
            match plan_forest(listings, launch, release, target, base, ds, 0) {
                PlanOutcome::Plans(ps) => ps,
                PlanOutcome::Failed(e) => {
                    return PlanOutcome::Failed(e);
                },
                PlanOutcome::NeedSources(d) => {
                    return PlanOutcome::NeedSources(d);
                },
            }
        },
    };
    proof {
        assert(plans_view(Seq::<ProjectPlan>::empty()) =~= Seq::<ProjectPlanView>::empty());
    }
    let files = match listings.lookup(base) {
        None => {
            return PlanOutcome::NeedSources(String::from_str(base));
        },
        Some(fs) => fs,
    };
    proof {
        lemma_listing_assoc_wf(listings@, 0, base@);
    }
    let empty_names: Vec<String> = Vec::new();
    let (has_deps, names): (bool, Vec<String>) = match deps {
        None => (false, empty_names),
        Some(ds) => (true, dep_names_exec(ds)),
    };
    proof {
        assert(seq_views(Seq::<String>::empty()) =~= Seq::<Seq<char>>::empty());
    }
    match project_plan(launch, base, name, kind, release, target, has_deps, &names, files) {
        Err(e) => PlanOutcome::Failed(e),
        Ok(pl) => {
            let ghost childrenv = plans_view(children@);
            let ghost plv = pl@;
            let mut ps = children;
            ps.push(pl);
            proof {
                assert(plans_view(ps@) =~= childrenv + seq![plv]);
            }
            PlanOutcome::Plans(ps)
        },
    }
}

/// Plans the dependency subtrees of `ds` from entry `i` on.
fn plan_forest(
    listings: &SourceListings,
    launch: &str,
    release: bool,
    target: &Target,
    base: &str,
    ds: &Dependencies,
    i: usize,
) -> (r: PlanOutcome)
    requires
        listings.wf(),
        i <= ds.path_to_deps@.len(),
    ensures
        (spec_plan_forest(
            listings@,
            launch@,
            release,
            *target,
            base@,
            Some(deps_view(*ds)),
            i as int,
        ) matches PlanOutcomeV::Plans(ps) ==> r matches PlanOutcome::Plans(v) && plans_view(v@)
            == ps),
        (spec_plan_forest(
            listings@,
            launch@,
            release,
            *target,
            base@,
            Some(deps_view(*ds)),
            i as int,
        ) matches PlanOutcomeV::Failed(e) ==> r matches PlanOutcome::Failed(x) && x@ == e),
        (spec_plan_forest(
            listings@,
            launch@,
            release,
            *target,
            base@,
            Some(deps_view(*ds)),
            i as int,
        ) matches PlanOutcomeV::NeedSources(d) ==> r matches PlanOutcome::NeedSources(s) && s@
            == d),
    decreases *ds, 0nat, ds.path_to_deps@.len() - i,
{
    proof {
        crate::deps::lemma_deps_view(*ds);
        assert(deps_view(*ds).len() == ds.path_to_deps@.len());
    }
    if i >= ds.path_to_deps.len() {
        let v: Vec<ProjectPlan> = Vec::new();
        proof {
            assert(plans_view(v@) =~= Seq::<ProjectPlanView>::empty());
        }
        return PlanOutcome::Plans(v);
    }
    let entry = &ds.path_to_deps[i];
    proof {
        assert(deps_view(*ds)[i as int] == (entry.0@, dep_view(entry.1)));
    }
    let dir = join_path(base, entry.0.as_str());
    let sub = plan_tree(
        listings,
        launch,
        release,
        target,
        dir.as_str(),
        entry.1.name.as_str(),
        ProjectType::library,
        &entry.1.deps,
    );
    let mut ps1 = match sub {
        PlanOutcome::Plans(ps) => ps,
        PlanOutcome::Failed(e) => {
            return PlanOutcome::Failed(e);
        },
        PlanOutcome::NeedSources(d) => {
            return PlanOutcome::NeedSources(d);
        },
    };
    match plan_forest(listings, launch, release, target, base, ds, i + 1) {
        PlanOutcome::Plans(ps2) => {
            let ghost v1 = plans_view(ps1@);
            let ghost v2 = plans_view(ps2@);
            append_move(&mut ps1, ps2);
            proof {
                assert(plans_view(ps1@) =~= v1 + v2);
            }
            PlanOutcome::Plans(ps1)
        },
        PlanOutcome::Failed(e) => PlanOutcome::Failed(e),
        PlanOutcome::NeedSources(d) => PlanOutcome::NeedSources(d),
    }
}

/// One build in flight: the build description and its
/// dependency-first project plans.
#[derive(Debug, PartialEq)]
pub struct PlannedBuild {
    pub info: BuildInfo,
    pub plans: Vec<ProjectPlan>,
}

/// One build invocation: what is built, for which target and
/// configuration, with what it depends on; the output path is
/// filled in only after the build succeeded.
#[derive(Debug, PartialEq)]
pub struct BuildInfo {
    pub name: String,
    pub release: bool,
    pub kind: ProjectType,
    pub target: Target,
    pub output_path: Option<String>,
    pub dependencies: Option<Dependencies>,
}

/// Mathematical image of a [`BuildInfo`].
pub ghost struct BuildInfoView {
    pub name: Seq<char>,
    pub release: bool,
    pub kind: ProjectType,
    pub target: Target,
    pub output_path: Option<Seq<char>>,
    pub dependencies: Option<Seq<(Seq<char>, DependencyView)>>,
}

impl View for BuildInfo {
    type V = BuildInfoView;

    open spec fn view(&self) -> BuildInfoView {
        BuildInfoView {
            name: self.name@,
            release: self.release,
            kind: self.kind,
            target: self.target,
            output_path: match self.output_path {
                None => None,
                Some(p) => Some(p@),
            },
            dependencies: crate::deps::deps_opt_view(self.dependencies),
        }
    }
}

impl BuildInfo {
    /// The text a finished build is announced with: kind,
    /// configuration, target.
    pub open spec fn spec_describe(self) -> Seq<char> {
        self.kind.spec_text() + ", "@ + (if self.release {
            "release"@
        } else {
            "debug"@
        }) + ", "@ + self.target.spec_triple()
    }

    /// Renders the build description.
    pub fn describe(&self) -> (r: String)
        ensures
            r@ == self.spec_describe(),
    {
        let triple = self.target.to_triple();
        let r = String::from_str(self.kind.text()).concat(", ").concat(
            if self.release {
                "release"
            } else {
                "debug"
            },
        ).concat(", ").concat(triple.as_str());
        proof {
            assert(r@ =~= self.spec_describe());
        }
        r
    }
}

/// Mathematical image of a [`PlannedBuild`].
pub ghost struct PlannedBuildView {
    pub info: BuildInfoView,
    pub plans: Seq<ProjectPlanView>,
}

impl View for PlannedBuild {
    type V = PlannedBuildView;

    open spec fn view(&self) -> PlannedBuildView {
        PlannedBuildView { info: self.info@, plans: plans_view(self.plans@) }
    }
}

/// Which targets one build command works through.
#[derive(Debug, Clone, PartialEq)]
pub enum TargetSelection {
    /// No `targets` key: build for the host target, which the
    /// caller must query from the toolchain.
    HostNeeded,
    /// `targets = []`: build nothing and warn.
    NoneDeclared,
    /// The declared targets to build, in declaration order: all of
    /// them under `--all`, only the first otherwise.
    Chosen(Vec<Target>),
}

/// Mathematical image of a [`TargetSelection`].
pub ghost enum TargetSelectionV {
    HostNeeded,
    NoneDeclared,
    Chosen(Seq<Target>),
}

impl View for TargetSelection {
    type V = TargetSelectionV;

    open spec fn view(&self) -> TargetSelectionV {
        match self {
            TargetSelection::HostNeeded => TargetSelectionV::HostNeeded,
            TargetSelection::NoneDeclared => TargetSelectionV::NoneDeclared,
            TargetSelection::Chosen(ts) => TargetSelectionV::Chosen(ts@),
        }
    }
}

/// Strictly parses the declared target triples from `i` on,
/// failing on the first bad one.
pub open spec fn spec_parse_target_list(ts: Seq<Seq<char>>, i: int) -> Result<
    Seq<Target>,
    FatalErrorView,
>
    decreases ts.len() - i
        when 0 <= i <= ts.len()
{
    if i >= ts.len() {
        Ok(Seq::empty())
    } else {
        match Target::spec_parse(ts[i], false) {
            Err(e) => Err(e),
            Ok(t) => match spec_parse_target_list(ts, i + 1) {
                Err(e) => Err(e),
                Ok(rest) => Ok(seq![t] + rest),
            },
        }
    }
}

/// Which targets a project's declaration asks to build: the host
/// target when none are declared; nothing, with a warning, when
/// the declared list is empty; otherwise all declared targets
/// under `all`, and only the first one without it.
pub open spec fn spec_select_targets(project: ProjectInfoView, all: bool) -> Result<
    TargetSelectionV,
    FatalErrorView,
> {
    match project.targets {
        None => Ok(TargetSelectionV::HostNeeded),
        Some(ts) => if ts.len() == 0 {
            Ok(TargetSelectionV::NoneDeclared)
        } else if all {
            match spec_parse_target_list(ts, 0) {
                Err(e) => Err(e),
                Ok(parsed) => Ok(TargetSelectionV::Chosen(parsed)),
            }
        } else {
            match Target::spec_parse(ts[0], false) {
                Err(e) => Err(e),
                Ok(t) => Ok(TargetSelectionV::Chosen(seq![t])),
            }
        },
    }
}

/// Strictly parses the declared triples from `i` on.
fn parse_target_list(ts: &Vec<String>, i: usize) -> (r: Result<Vec<Target>, FatalError>)
    requires
        i <= ts@.len(),
    ensures
        (spec_parse_target_list(seq_views(ts@), i as int) matches Ok(parsed) ==> r matches Ok(v)
            && v@ == parsed),
        (spec_parse_target_list(seq_views(ts@), i as int) matches Err(e) ==> r matches Err(x)
            && x@ == e),
    decreases ts@.len() - i,
{
    if i >= ts.len() {
        let v: Vec<Target> = Vec::new();
        proof {
            assert(v@ =~= Seq::<Target>::empty());
        }
        return Ok(v);
    }
    proof {
        assert(seq_views(ts@)[i as int] == ts@[i as int]@);
    }
    let t = match Target::new(ts[i].as_str(), false) {
        Err(e) => {
            return Err(e);
        },
        Ok(t) => t,
    };
    match parse_target_list(ts, i + 1) {
        Err(e) => Err(e),
        Ok(mut rest) => {
            rest.insert(0, t);
            proof {
                assert(rest@ =~= seq![t] + rest@.subrange(1, rest@.len() as int));
            }
            Ok(rest)
        },
    }
}

/// Decides which targets to build from a project's declaration.
pub fn select_targets(project: &ProjectInfo, all: bool) -> (r: Result<TargetSelection, FatalError>)
    ensures
        (spec_select_targets(project@, all) matches Ok(sel) ==> r matches Ok(s) && s@ == sel),
        (spec_select_targets(project@, all) matches Err(e) ==> r matches Err(x) && x@ == e),
{
    match &project.targets {
        None => Ok(TargetSelection::HostNeeded),
        Some(ts) => {
            if ts.len() == 0 {
                return Ok(TargetSelection::NoneDeclared);
            }
            if all {
                match parse_target_list(ts, 0) {
                    Err(e) => Err(e),
                    Ok(parsed) => Ok(TargetSelection::Chosen(parsed)),
                }
            } else {
                proof {
                    assert(seq_views(ts@)[0] == ts@[0]@);
                }
                match Target::new(ts[0].as_str(), false) {
                    Err(e) => Err(e),
                    Ok(t) => {
                        let mut v: Vec<Target> = Vec::new();
                        v.push(t);
                        proof {
                            assert(v@ =~= seq![t]);
                        }
                        Ok(TargetSelection::Chosen(v))
                    },
                }
            }
        },
    }
}

/// Outcome of planning one (project, target) build.
pub ghost enum OneBuildV {
    Planned(PlannedBuildView),
    Failed(FatalErrorView),
    /// This manifest must be read into the store first.
    NeedManifest(Seq<char>),
    /// This directory's sources must be listed first.
    NeedSources(Seq<char>),
}

/// Executable outcome of planning one (project, target) build.
#[derive(Debug, PartialEq)]
pub enum OneBuild {
    Planned(PlannedBuild),
    Failed(FatalError),
    NeedManifest(String),
    NeedSources(String),
}

/// Plans one build of a project for one target: resolves the
/// declared dependencies against the target, then plans the
/// dependency-first build tree rooted at the project's own
/// directory `.`.
pub open spec fn spec_plan_for_target(
    project: ProjectInfoView,
    release: bool,
    target: Target,
    store: Seq<(Seq<char>, Option<Seq<char>>)>,
    listings: Seq<(Seq<char>, Seq<Seq<char>>)>,
    launch: Seq<char>,
) -> OneBuildV {
    let resolved: Result<Option<Seq<(Seq<char>, DependencyView)>>, OneBuildV> = match project
        .dependencies {
        None => Ok(None),
        Some(ps) => match spec_resolve_deps(store, ps, target) {
            ResolveOutcomeV::Resolved(es) => Ok(Some(es)),
            ResolveOutcomeV::Failed(e) => Err(OneBuildV::Failed(e)),
            ResolveOutcomeV::Need(p) => Err(OneBuildV::NeedManifest(p)),
        },
    };
    match resolved {
        Err(out) => out,
        Ok(deps) => match spec_plan_tree(
            listings,
            launch,
            release,
            target,
            seq!['.'],
            project.name,
            project.kind,
            deps,
        ) {
            PlanOutcomeV::Failed(e) => OneBuildV::Failed(e),
            PlanOutcomeV::NeedSources(d) => OneBuildV::NeedSources(d),
            PlanOutcomeV::Plans(ps) => OneBuildV::Planned(
                PlannedBuildView {
                    info: BuildInfoView {
                        name: project.name,
                        release,
                        kind: project.kind,
                        target,
                        output_path: None,
                        dependencies: deps,
                    },
                    plans: ps,
                },
            ),
        },
    }
}

/// Plans one build of a project for one target.
pub fn plan_for_target(
    project: &ProjectInfo,
    release: bool,
    target: &Target,
    store: &ManifestStore,
    listings: &SourceListings,
    launch_dir: &str,
) -> (r: OneBuild)
    requires
        listings.wf(),
    ensures
        (spec_plan_for_target(project@, release, *target, store@, listings@, launch_dir@) matches
            OneBuildV::Planned(pb) ==> r matches OneBuild::Planned(b) && b@ == pb),
        (spec_plan_for_target(project@, release, *target, store@, listings@, launch_dir@) matches
            OneBuildV::Failed(e) ==> r matches OneBuild::Failed(x) && x@ == e),
        (spec_plan_for_target(project@, release, *target, store@, listings@, launch_dir@) matches
            OneBuildV::NeedManifest(p) ==> r matches OneBuild::NeedManifest(s) && s@ == p),
        (spec_plan_for_target(project@, release, *target, store@, listings@, launch_dir@) matches
            OneBuildV::NeedSources(d) ==> r matches OneBuild::NeedSources(s) && s@ == d),
{
    let deps: Option<Dependencies> = match &project.dependencies {
        None => None,
        Some(ps) => {
            match Dependencies::new(store, ps, target) {
                ResolveOutcome::Resolved(ds) => Some(ds),
                ResolveOutcome::Failed(e) => {
                    return OneBuild::Failed(e);
                },
                ResolveOutcome::NeedManifest(p) => {
                    return OneBuild::NeedManifest(p);
                },
            }
        },
    };
    proof {
        reveal_strlit(".");
        assert("."@ =~= seq!['.']);
    }
    match plan_tree(
        listings,
        launch_dir,
        release,
        target,
        ".",
        project.name.as_str(),
        project.kind,
        &deps,
    ) {
        PlanOutcome::Failed(e) => OneBuild::Failed(e),
        PlanOutcome::NeedSources(d) => OneBuild::NeedSources(d),
        PlanOutcome::Plans(ps) => OneBuild::Planned(
            PlannedBuild {
                info: BuildInfo {
                    name: project.name.clone(),
                    release,
                    kind: project.kind,
                    target: *target,
                    output_path: None,
                    dependencies: deps,
                },
                plans: ps,
            },
        ),
    }
}

/// Whether every compile of a project succeeded; any failure makes
/// the whole build fail with the compilation error, after all
/// compiles were attempted.
pub fn after_compiles(results: &Vec<bool>) -> (r: Result<(), FatalError>)
    ensures
        (r is Ok <==> (forall|i: int| 0 <= i < results@.len() ==> results@[i])),
        r is Err ==> (r matches Err(e) && e == FatalError::CompilationFailed),
{
    let mut i: usize = 0;
    while i < results.len()
        invariant
            i <= results@.len(),
            forall|j: int| 0 <= j < i ==> results@[j],
        decreases results@.len() - i,
    {
        if !results[i] {
            return Err(FatalError::CompilationFailed);
        }
        i += 1;
    }
    Ok(())
}

/// Whether the link succeeded; a failure is the link error.
pub fn after_link(ok: bool) -> (r: Result<(), FatalError>)
    ensures
        r is Ok <==> ok,
        r is Err ==> (r matches Err(e) && e == FatalError::LinkFailed),
{
    if ok {
        Ok(())
    } else {
        Err(FatalError::LinkFailed)
    }
}

/// The views of a sequence of builds.
pub open spec fn infos_view(v: Seq<BuildInfo>) -> Seq<BuildInfoView> {
    Seq::new(v.len(), |i: int| v[i]@)
}

/// The artifacts a run command starts after building: every build
/// must be an executable, and of those the ones whose target is
/// the host target run, in order; when none matches, running
/// fails.
pub open spec fn spec_run_selection(
    infos: Seq<BuildInfoView>,
    i: int,
    acc: Seq<Seq<char>>,
    host: Target,
) -> Result<Seq<Seq<char>>, FatalErrorView>
    decreases infos.len() - i
        when 0 <= i <= infos.len()
{
    if i >= infos.len() {
        if acc.len() == 0 {
            Err(FatalErrorView::NoSupportedTargets)
        } else {
            Ok(acc)
        }
    } else {
        let inf = infos[i];
        if inf.kind == ProjectType::library {
            Err(FatalErrorView::CannotRunLib)
        } else if inf.target != host {
            spec_run_selection(infos, i + 1, acc, host)
        } else {
            spec_run_selection(infos, i + 1, acc + seq![inf.output_path->Some_0], host)
        }
    }
}

/// Picks the artifacts a run command starts.
pub fn run_selection(infos: &Vec<BuildInfo>, host: &Target) -> (r: Result<Vec<String>, FatalError>)
    requires
        forall|i: int|
            0 <= i < infos@.len() && (#[trigger] infos@[i])@.kind == ProjectType::executable
                && infos@[i]@.target == *host ==> infos@[i]@.output_path is Some,
    ensures
        (spec_run_selection(infos_view(infos@), 0, Seq::empty(), *host) matches Ok(paths) ==> r
            matches Ok(v) && seq_views(v@) == paths),
        (spec_run_selection(infos_view(infos@), 0, Seq::empty(), *host) matches Err(e) ==> r
            matches Err(x) && x@ == e),
{
    let ghost iv = infos_view(infos@);
    let mut acc: Vec<String> = Vec::new();
    let mut i: usize = 0;
    proof {
        assert(seq_views(acc@) =~= Seq::<Seq<char>>::empty());
    }
    while i < infos.len()
        invariant
            i <= infos@.len(),
            iv == infos_view(infos@),
            iv.len() == infos@.len(),
            forall|k: int|
                0 <= k < infos@.len() && (#[trigger] infos@[k])@.kind == ProjectType::executable
                    && infos@[k]@.target == *host ==> infos@[k]@.output_path is Some,
            spec_run_selection(iv, 0, Seq::empty(), *host) == spec_run_selection(
                iv,
                i as int,
                seq_views(acc@),
                *host,
            ),
        decreases infos@.len() - i,
    {
        let inf = &infos[i];
        proof {
            assert(iv[i as int] == infos@[i as int]@);
        }
        match inf.kind {
            ProjectType::library => {
                return Err(FatalError::CannotRunLib);
            },
            ProjectType::executable => {},
        }
        if inf.target.arch == host.arch && inf.target.os == host.os {
            proof {
                assert(inf.target == *host);
            }
            match &inf.output_path {
                Some(p) => {
                    let ghost prev = seq_views(acc@);
                    acc.push(p.clone());
                    proof {
                        assert(seq_views(acc@) =~= prev + seq![inf@.output_path->Some_0]);
                    }
                },
                None => {
                    proof {
                        assert(false);
                    }
                },
            }
        } else {
            proof {
                assert(inf.target != *host);
            }
        }
        i += 1;
    }
    if acc.len() == 0 {
        Err(FatalError::NoSupportedTargets)
    } else {
        proof {
            assert(seq_views(acc@).len() != 0);
        }
        Ok(acc)
    }
}

/// A project that declares an empty `targets` list builds nothing:
/// target selection reports the empty declaration, whether or not
/// all targets were asked for, so the command ends with a warning,
/// an empty build list and no error.
pub proof fn lemma_empty_targets_build_nothing(project: ProjectInfoView, all: bool)
    requires
        project.targets == Some(Seq::<Seq<char>>::empty()),
    ensures
        spec_select_targets(project, all) == Ok::<TargetSelectionV, FatalErrorView>(
            TargetSelectionV::NoneDeclared,
        ),
{
}

/// The compile commands of a file list with no `.c` file are
/// empty.
proof fn lemma_no_c_no_cmds(
    launch: Seq<char>,
    base: Seq<char>,
    kind: ProjectType,
    release: bool,
    target: Target,
    dep_names: Seq<Seq<char>>,
    files: Seq<Seq<char>>,
    i: int,
)
    requires
        0 <= i <= files.len(),
        forall|j: int| 0 <= j < files.len() ==> !spec_ends_with(#[trigger] files[j], ".c"@),
    ensures
        spec_compile_cmds(launch, base, kind, release, target, dep_names, files, i) == Seq::<
            Seq<Seq<char>>,
        >::empty(),
    decreases files.len() - i,
{
    if i < files.len() {
        lemma_no_c_no_cmds(launch, base, kind, release, target, dep_names, files, i + 1);
    }
}

/// A project with no source file at all under `src` — none ending
/// in `.c`, headers and unrecognized files included — fails with
/// the no-sources error before any link is planned.
pub proof fn lemma_no_sources_fails(
    launch: Seq<char>,
    base: Seq<char>,
    name: Seq<char>,
    kind: ProjectType,
    release: bool,
    target: Target,
    has_deps: bool,
    dep_names: Seq<Seq<char>>,
    files: Seq<Seq<char>>,
)
    requires
        forall|j: int| 0 <= j < files.len() ==> !spec_ends_with(#[trigger] files[j], ".c"@),
    ensures
        spec_project_plan(launch, base, name, kind, release, target, has_deps, dep_names, files)
            == Err::<ProjectPlanView, FatalErrorView>(FatalErrorView::NoSourceFiles),
{
    lemma_no_c_no_cmds(launch, base, kind, release, target, dep_names, files, 0);
}

/// In a planned build tree the project itself comes last: every
/// dependency's plan precedes the plan of the project that links
/// against it, so dependency artifacts exist before the dependent
/// link runs.
pub proof fn lemma_dependencies_planned_first(
    listings: Seq<(Seq<char>, Seq<Seq<char>>)>,
    launch: Seq<char>,
    release: bool,
    target: Target,
    base: Seq<char>,
    name: Seq<char>,
    kind: ProjectType,
    deps: Option<Seq<(Seq<char>, DependencyView)>>,
    ps: Seq<ProjectPlanView>,
)
    requires
        spec_plan_tree(listings, launch, release, target, base, name, kind, deps)
            == PlanOutcomeV::Plans(ps),
    ensures
        ps.len() >= 1,
        ps.last().name == name,
        ps.last().base_dir == base,
        ps.last().artifact_path == spec_artifact_path(
            spec_out_dir(launch, target, release),
            name,
            kind,
            target.os,
        ),
        ps.last().recorded_path == spec_recorded_path(
            spec_out_dir(launch, target, release),
            name,
            kind,
            target.os,
        ),
{
}

} // verus!
