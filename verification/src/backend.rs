//! The allocators a build can forward to, and the rule that picks one.

use vstd::prelude::*;

verus! {

/// The allocator that services every request of a build.
///
/// A build forwards to exactly one of the two; the choice depends on the
/// target alone and never changes while the process runs.
#[derive(Clone, Copy, Debug, PartialEq, Eq, Structural)]
pub enum Backend {
    /// mimalloc, used wherever it is supported. It also answers the
    /// statistics calls: collect, print statistics, committed memory.
    Mimalloc,
    /// The platform's system allocator, used on the one excluded target.
    /// It has no statistics calls.
    System,
}

/// The one target that is served by the system allocator: Linux on 64-bit ARM.
///
/// `os` and `arch` are the identifiers that the compiler gives the target's
/// operating system and CPU architecture. They are compared exactly.
pub open spec fn is_excluded_target(os: Seq<char>, arch: Seq<char>) -> bool {
    os == "linux"@ && arch == "aarch64"@
}

/// The backend of a build for the target `os` / `arch`.
pub open spec fn backend_of(os: Seq<char>, arch: Seq<char>) -> Backend {
    if is_excluded_target(os, arch) {
        Backend::System
    } else {
        Backend::Mimalloc
    }
}

impl Backend {
    /// Whether the statistics calls exist on this backend.
    pub open spec fn spec_has_introspection(self) -> bool {
        self is Mimalloc
    }

    /// Whether the statistics calls exist on this backend.
    #[verifier::when_used_as_spec(spec_has_introspection)]
    pub fn has_introspection(self) -> (yes: bool)
        ensures
            yes == (self is Mimalloc),
    {
        match self {
            Backend::Mimalloc => true,
            Backend::System => false,
        }
    }
}

/// Gating of the statistics calls by target.
///
/// A target is served by the system allocator exactly when it is Linux on
/// 64-bit ARM, and the statistics calls exist for a target exactly when it is
/// any other one. No target has both backends, and none has neither.
pub proof fn lemma_introspection_gating(os: Seq<char>, arch: Seq<char>)
    ensures
        backend_of(os, arch) is System <==> os == "linux"@ && arch == "aarch64"@,
        backend_of(os, arch) is Mimalloc <==> !(os == "linux"@ && arch == "aarch64"@),
        backend_of(os, arch).has_introspection() <==> !(os == "linux"@ && arch == "aarch64"@),
{
}

} // verus!
