//! Compilation targets: an architecture paired with an operating
//! system, written `arch-os` in manifests and on the command line.

use vstd::prelude::*;

use crate::error::{FatalError, FatalErrorView, FatalResult};
use crate::strutil::{split_on, split_str, str_eq, seq_views, lemma_split_two,
    lemma_split_concat_two};

verus! {

/// Instruction-set architecture of a target.
#[derive(Clone, Copy, Debug, PartialEq, Eq, Structural)]
pub enum Architecture {
    X86,
    X86_64,
}

impl Architecture {
    /// Canonical text of this architecture.
    pub open spec fn spec_text(self) -> Seq<char> {
        match self {
            Architecture::X86 => "x86"@,
            Architecture::X86_64 => "x86_64"@,
        }
    }

    /// The architecture named by `arch`, if any.
    pub open spec fn spec_new(arch: Seq<char>) -> Result<Architecture, FatalErrorView> {
        if arch == "x86"@ {
            Ok(Architecture::X86)
        } else if arch == "x86_64"@ {
            Ok(Architecture::X86_64)
        } else {
            Err(FatalErrorView::InvalidTargetArch { arch })
        }
    }

    /// Canonical text of this architecture.
    pub fn text(&self) -> (r: &'static str)
        ensures
            r@ == self.spec_text(),
    {
        match self {
            Architecture::X86 => "x86",
            Architecture::X86_64 => "x86_64",
        }
    }

    /// Parses an architecture name; an unknown name is reported in
    /// the error.
    pub fn new(arch: &str) -> (r: FatalResult<Self>)
        ensures
            (Self::spec_new(arch@) matches Ok(a) ==> r matches Ok(x) && x == a),
            (Self::spec_new(arch@) matches Err(e) ==> r matches Err(x) && x@ == e),
    {
        if str_eq(arch, "x86") {
            Ok(Architecture::X86)
        } else if str_eq(arch, "x86_64") {
            Ok(Architecture::X86_64)
        } else {
            Err(FatalError::InvalidTargetArch { arch: arch.to_owned() })
        }
    }
}

/// Operating system of a target.
#[derive(Clone, Copy, Debug, PartialEq, Eq, Structural)]
pub enum OperatingSystem {
    Freestanding,
    Windows,
    Linux,
}

impl OperatingSystem {
    /// Canonical text of this operating system.
    pub open spec fn spec_text(self) -> Seq<char> {
        match self {
            OperatingSystem::Freestanding => "freestanding"@,
            OperatingSystem::Windows => "windows"@,
            OperatingSystem::Linux => "linux"@,
        }
    }

    /// Text of this operating system as the external toolchain
    /// spells it.
    pub open spec fn spec_ziggified(self) -> Seq<char> {
        match self {
            OperatingSystem::Freestanding => "freestanding-none"@,
            OperatingSystem::Windows => "windows-gnu"@,
            OperatingSystem::Linux => "linux-gnu"@,
        }
    }

    /// The operating system named by `os`, if any.
    pub open spec fn spec_new(os: Seq<char>) -> Result<OperatingSystem, FatalErrorView> {
        if os == "freestanding"@ {
            Ok(OperatingSystem::Freestanding)
        } else if os == "windows"@ {
            Ok(OperatingSystem::Windows)
        } else if os == "linux"@ {
            Ok(OperatingSystem::Linux)
        } else {
            Err(FatalErrorView::InvalidTargetOS { os })
        }
    }

    /// Canonical text of this operating system.
    pub fn text(&self) -> (r: &'static str)
        ensures
            r@ == self.spec_text(),
    {
        match self {
            OperatingSystem::Freestanding => "freestanding",
            OperatingSystem::Windows => "windows",
            OperatingSystem::Linux => "linux",
        }
    }

    /// Text of this operating system as handed to the external
    /// toolchain.
    pub fn ziggified(&self) -> (r: &'static str)
        ensures
            r@ == self.spec_ziggified(),
    {
        match self {
            OperatingSystem::Freestanding => "freestanding-none",
            OperatingSystem::Windows => "windows-gnu",
            OperatingSystem::Linux => "linux-gnu",
        }
    }

    /// Parses an operating-system name; an unknown name is reported
    /// in the error.
    pub fn new(os: &str) -> (r: FatalResult<Self>)
        ensures
            (Self::spec_new(os@) matches Ok(a) ==> r matches Ok(x) && x == a),
            (Self::spec_new(os@) matches Err(e) ==> r matches Err(x) && x@ == e),
    {
        if str_eq(os, "freestanding") {
            Ok(OperatingSystem::Freestanding)
        } else if str_eq(os, "windows") {
            Ok(OperatingSystem::Windows)
        } else if str_eq(os, "linux") {
            Ok(OperatingSystem::Linux)
        } else {
            Err(FatalError::InvalidTargetOS { os: os.to_owned() })
        }
    }
}

/// A compilation target: architecture and operating system.
#[derive(Clone, Copy, Debug, PartialEq, Eq, Structural)]
pub struct Target {
    pub arch: Architecture,
    pub os: OperatingSystem,
}

impl Target {
    /// Canonical triple text `arch-os` of this target.
    pub open spec fn spec_triple(self) -> Seq<char> {
        self.arch.spec_text() + seq!['-'] + self.os.spec_text()
    }

    /// Triple text as handed to the external toolchain.
    pub open spec fn spec_ziggified(self) -> Seq<char> {
        self.arch.spec_text() + seq!['-'] + self.os.spec_ziggified()
    }

    /// The target a triple text names. Strict parsing needs exactly
    /// two pieces `arch-os`. Lenient parsing, for triples reported
    /// by the toolchain, also accepts three or more pieces and drops
    /// everything but the first and third. The architecture is
    /// checked before the operating system.
    pub open spec fn spec_parse(s: Seq<char>, lenient: bool) -> Result<Target, FatalErrorView> {
        let cs = split_on(s, '-');
        if cs.len() != 2 && !(lenient && cs.len() >= 3) {
            Err(FatalErrorView::BadTarget { target: s })
        } else {
            let a = cs[0];
            let o = if cs.len() == 2 {
                cs[1]
            } else {
                cs[2]
            };
            match Architecture::spec_new(a) {
                Err(e) => Err(e),
                Ok(arch) => match OperatingSystem::spec_new(o) {
                    Err(e) => Err(e),
                    Ok(os) => Ok(Target { arch, os }),
                },
            }
        }
    }

    /// Parses a triple text. With `lenient` false the text must be
    /// exactly `arch-os`; with `lenient` true a vendor piece (and
    /// anything after the operating system) is tolerated and
    /// ignored.
    pub fn new(target: &str, lenient: bool) -> (r: FatalResult<Self>)
        ensures
            (Self::spec_parse(target@, lenient) matches Ok(t) ==> r matches Ok(x) && x == t),
            (Self::spec_parse(target@, lenient) matches Err(e) ==> r matches Err(x) && x@ == e),
    {
        let cs = split_str(target, '-');
        if cs.len() != 2 && !(lenient && cs.len() >= 3) {
            return Err(FatalError::BadTarget { target: target.to_owned() });
        }
        let a: &String = &cs[0];
        let o: &String = if cs.len() == 2 {
            &cs[1]
        } else {
            &cs[2]
        };
        proof {
            assert(a@ == seq_views(cs@)[0]);
        }
        let arch = match Architecture::new(a.as_str()) {
            Ok(arch) => arch,
            Err(e) => {
                return Err(e);
            },
        };
        let os = match OperatingSystem::new(o.as_str()) {
            Ok(os) => os,
            Err(e) => {
                return Err(e);
            },
        };
        Ok(Target { arch, os })
    }

    /// Canonical triple text `arch-os` of this target.
    pub fn to_triple(&self) -> (r: String)
        ensures
            r@ == self.spec_triple(),
    {
        let r = String::from_str(self.arch.text()).concat("-").concat(self.os.text());
        proof {
            reveal_strlit("-");
            assert(r@ =~= self.spec_triple());
        }
        r
    }

    /// Triple text as handed to the external toolchain.
    pub fn ziggified(&self) -> (r: String)
        ensures
            r@ == self.spec_ziggified(),
    {
        let r = String::from_str(self.arch.text()).concat("-").concat(self.os.ziggified());
        proof {
            reveal_strlit("-");
            assert(r@ =~= self.spec_ziggified());
        }
        r
    }
}

/// No canonical architecture text contains a hyphen.
proof fn lemma_arch_text_no_hyphen(a: Architecture)
    ensures
        forall|j: int| 0 <= j < a.spec_text().len() ==> a.spec_text()[j] != '-',
{
    reveal_strlit("x86");
    reveal_strlit("x86_64");
}

/// No canonical operating-system text contains a hyphen.
proof fn lemma_os_text_no_hyphen(o: OperatingSystem)
    ensures
        forall|j: int| 0 <= j < o.spec_text().len() ==> o.spec_text()[j] != '-',
{
    reveal_strlit("freestanding");
    reveal_strlit("windows");
    reveal_strlit("linux");
}

/// Distinct architectures have distinct canonical texts, and the
/// texts parse back to the architecture that produced them; the same
/// holds for operating systems.
proof fn lemma_component_texts()
    ensures
        forall|a: Architecture| #[trigger] Architecture::spec_new(a.spec_text()) == Ok::<
            Architecture,
            FatalErrorView,
        >(a),
        forall|o: OperatingSystem| #[trigger] OperatingSystem::spec_new(o.spec_text()) == Ok::<
            OperatingSystem,
            FatalErrorView,
        >(o),
{
    reveal_strlit("x86");
    reveal_strlit("x86_64");
    reveal_strlit("freestanding");
    reveal_strlit("windows");
    reveal_strlit("linux");
    assert forall|a: Architecture| #[trigger] Architecture::spec_new(a.spec_text()) == Ok::<
        Architecture,
        FatalErrorView,
    >(a) by {
        assert("x86"@.len() == 3 && "x86_64"@.len() == 6);
        match a {
            Architecture::X86 => {},
            Architecture::X86_64 => {
                assert("x86_64"@ != "x86"@);
            },
        }
    }
    assert forall|o: OperatingSystem| #[trigger] OperatingSystem::spec_new(o.spec_text()) == Ok::<
        OperatingSystem,
        FatalErrorView,
    >(o) by {
        assert("freestanding"@.len() == 12 && "windows"@.len() == 7 && "linux"@.len() == 5);
    }
}

/// Formatting a target and strictly parsing the text back yields
/// the target again: parsing is a left inverse of formatting over
/// all targets.
pub proof fn lemma_format_then_parse(t: Target)
    ensures
        Target::spec_parse(t.spec_triple(), false) == Ok::<Target, FatalErrorView>(t),
{
    lemma_arch_text_no_hyphen(t.arch);
    lemma_os_text_no_hyphen(t.os);
    lemma_split_concat_two(t.arch.spec_text(), t.os.spec_text(), '-');
    lemma_component_texts();
}

/// A text that strictly parses to a target is that target's
/// canonical triple text: formatting is a left inverse of strict
/// parsing, so `format(parse(s)) == s` for every valid triple text.
pub proof fn lemma_parse_then_format(s: Seq<char>, t: Target)
    requires
        Target::spec_parse(s, false) == Ok::<Target, FatalErrorView>(t),
    ensures
        t.spec_triple() == s,
{
    let cs = split_on(s, '-');
    lemma_split_two(s, '-');
    reveal_strlit("x86");
    reveal_strlit("x86_64");
    reveal_strlit("freestanding");
    reveal_strlit("windows");
    reveal_strlit("linux");
    assert(t.spec_triple() =~= s);
}

/// Strict parsing of any text that does not consist of exactly one
/// hyphen-separated pair fails, and fails with the bad-target error
/// naming the text.
pub proof fn lemma_strict_parse_needs_pair(s: Seq<char>)
    requires
        split_on(s, '-').len() != 2,
    ensures
        Target::spec_parse(s, false) == Err::<Target, FatalErrorView>(
            FatalErrorView::BadTarget { target: s },
        ),
{
}

} // verus!
