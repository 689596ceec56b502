//! The decisions of a process-wide allocator facade: which allocator a target
//! is given, whether that allocator has statistics calls, and which of the
//! figures it reports is the process's memory usage.
//!
//! Nothing here allocates or calls an allocator. The program that installs the
//! facade makes those calls and takes its answers from this crate.

use vstd::prelude::*;

pub mod backend;
pub mod process_info;
mod text;

pub use crate::backend::Backend;
pub use crate::process_info::ProcessInfo;

use crate::backend::backend_of;
use crate::text::same_text;

verus! {

/// The allocator facade: a stateless, zero-sized marker that the facade's
/// rules hang on.
///
/// [`TurboMalloc::backend_for`] names the backend of a target, and
/// [`TurboMalloc::memory_usage`] reads the memory usage out of a report of
/// the backend.
pub struct TurboMalloc;

impl TurboMalloc {
    /// The backend that a build for the target `os` / `arch` forwards to.
    ///
    /// `os` and `arch` are the target's identifiers as the compiler spells
    /// them (`target_os`, `target_arch`); they are compared exactly, so case
    /// and surrounding whitespace matter. Linux on 64-bit ARM gets the system
    /// allocator, every other pair gets mimalloc. Nothing is allocated.
    pub fn backend_for(os: &str, arch: &str) -> (backend: Backend)
        ensures
            backend == backend_of(os@, arch@),
    {
        if same_text(os, "linux") && same_text(arch, "aarch64") {
            Backend::System
        } else {
            Backend::Mimalloc
        }
    }

    /// The memory usage that a report stands for.
    pub open spec fn spec_memory_usage(info: &ProcessInfo) -> usize {
        info.current_commit
    }

    /// The process's memory usage according to `info`: the memory currently
    /// committed, in bytes.
    ///
    /// No other figure of the report counts. A report in which the backend
    /// supplied no committed figure, and which started from
    /// [`ProcessInfo::zeroed`], gives zero.
    #[verifier::when_used_as_spec(spec_memory_usage)]
    pub fn memory_usage(info: &ProcessInfo) -> (bytes: usize)
        ensures
            bytes == info.current_commit,
    {
        info.current_commit
    }
}

/// How the memory usage follows the backend's reports.
///
/// Two reports with the same committed figure give the same usage, whatever
/// their other figures. Where the committed figure of a later report is not
/// below that of an earlier one, neither is the usage. The zeroed report gives
/// zero.
pub proof fn lemma_memory_usage_follows_commit(earlier: ProcessInfo, later: ProcessInfo)
    ensures
        earlier.current_commit == later.current_commit ==> TurboMalloc::memory_usage(&earlier)
            == TurboMalloc::memory_usage(&later),
        earlier.current_commit <= later.current_commit ==> TurboMalloc::memory_usage(&earlier)
            <= TurboMalloc::memory_usage(&later),
        TurboMalloc::memory_usage(&ProcessInfo::zeroed()) == 0,
{
}

} // verus!
