//! The figures that the backend reports about the process.

use vstd::prelude::*;

verus! {

/// One report of the backend's process-level accounting.
///
/// Times are in milliseconds, memory figures in bytes. A figure that the
/// backend was not asked for, or could not supply, keeps the value it had
/// before the query: zero in a report that started from
/// [`ProcessInfo::zeroed`].
#[derive(Clone, Copy, Debug, PartialEq, Eq, Structural)]
pub struct ProcessInfo {
    /// Wall-clock time since the process started.
    pub elapsed_msecs: usize,
    /// User time, summed over all threads.
    pub user_msecs: usize,
    /// System time.
    pub system_msecs: usize,
    /// Current working set: the pages that have been touched.
    pub current_rss: usize,
    /// Largest working set so far.
    pub peak_rss: usize,
    /// Memory currently committed: reserved from the operating system,
    /// whether or not the program has been given it.
    pub current_commit: usize,
    /// Largest committed memory so far.
    pub peak_commit: usize,
    /// Number of hard page faults.
    pub page_faults: usize,
}

impl ProcessInfo {
    /// The report in which every figure is zero.
    pub open spec fn spec_zeroed() -> ProcessInfo {
        ProcessInfo {
            elapsed_msecs: 0,
            user_msecs: 0,
            system_msecs: 0,
            current_rss: 0,
            peak_rss: 0,
            current_commit: 0,
            peak_commit: 0,
            page_faults: 0,
        }
    }

    /// The report to start a query from: every figure is zero, so a figure
    /// that the backend leaves alone reads as zero.
    #[verifier::when_used_as_spec(spec_zeroed)]
    pub fn zeroed() -> (info: ProcessInfo)
        ensures
            info.elapsed_msecs == 0,
            info.user_msecs == 0,
            info.system_msecs == 0,
            info.current_rss == 0,
            info.peak_rss == 0,
            info.current_commit == 0,
            info.peak_commit == 0,
            info.page_faults == 0,
    {
        ProcessInfo {
            elapsed_msecs: 0,
            user_msecs: 0,
            system_msecs: 0,
            current_rss: 0,
            peak_rss: 0,
            current_commit: 0,
            peak_commit: 0,
            page_faults: 0,
        }
    }
}

} // verus!
