//! Host CPU architectures and the directory names under which the Alpine
//! distribution point publishes releases for them.
use vstd::prelude::*;
use vstd::string::StringExecFns;

verus! {

/// A CPU architecture that the build supports.
#[derive(Clone, Copy, Debug, PartialEq, Eq, Structural)]
pub enum Arch {
    AMD64,
    X86,
    AARCH64,
}

/// The architecture that a host-reported identifier names, if any.
pub open spec fn arch_from(s: Seq<char>) -> Option<Arch> {
    if s == "x86"@ {
        Some(Arch::X86)
    } else if s == "x86_64"@ {
        Some(Arch::AMD64)
    } else if s == "aarch64"@ {
        Some(Arch::AARCH64)
    } else {
        None
    }
}

/// The directory name used for an architecture in release URLs.
pub open spec fn release_dir(a: Arch) -> Seq<char> {
    match a {
        Arch::AMD64 => "x86_64"@,
        Arch::X86 => "x86"@,
        Arch::AARCH64 => "aarch64"@,
    }
}

impl Arch {
    /// Resolves a host architecture identifier (`x86`, `x86_64`, `aarch64`).
    pub fn new(architecture: &str) -> (r: Result<Arch, ()>)
        ensures
            r is Ok <==> arch_from(architecture@) is Some,
            r is Ok ==> arch_from(architecture@) == Some(r->Ok_0),
    {
        let s = String::from_str(architecture);
        if s == String::from_str("x86") {
            Ok(Arch::X86)
        } else if s == String::from_str("x86_64") {
            Ok(Arch::AMD64)
        } else if s == String::from_str("aarch64") {
            Ok(Arch::AARCH64)
        } else {
            Err(())
        }
    }
}

/// The release directory name of an architecture.
pub fn get_architecture(a: &Arch) -> (r: &'static str)
    ensures
        r@ == release_dir(*a),
{
    match a {
        Arch::AMD64 => "x86_64",
        Arch::X86 => "x86",
        Arch::AARCH64 => "aarch64",
    }
}

/// Every supported identifier resolves, and the resolved architecture maps
/// back to the very same string as its release directory.
pub proof fn lemma_arch_round_trip(s: Seq<char>)
    requires
        s == "x86"@ || s == "x86_64"@ || s == "aarch64"@,
    ensures
        arch_from(s) is Some,
        release_dir(arch_from(s)->Some_0) == s,
{
    reveal_strlit("x86");
    reveal_strlit("x86_64");
    reveal_strlit("aarch64");
}

/// An identifier is rejected exactly when it is none of the supported three.
pub proof fn lemma_arch_unsupported(s: Seq<char>)
    ensures
        arch_from(s) is None <==> (s != "x86"@ && s != "x86_64"@ && s != "aarch64"@),
{
}

} // verus!
