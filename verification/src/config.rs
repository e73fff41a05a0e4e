//! Run configuration: the four invocation parameters and what they select.

use vstd::prelude::*;

verus! {

/// Order in which the workers touch the mapped region.
#[derive(Clone, Copy, Debug, PartialEq, Eq, Structural)]
pub enum AccessMode {
    /// Every touch goes to an independently drawn offset.
    Random,
    /// Workers claim consecutive blocks and walk them page by page.
    Sequential,
}

/// Access-pattern advice given to the operating system for the whole region.
#[derive(Clone, Copy, Debug, PartialEq, Eq, Structural)]
pub enum Hint {
    /// No particular pattern is expected.
    Normal,
    /// Offsets are read in no particular order.
    Random,
    /// Offsets are read in rising order.
    Sequential,
}

/// The access mode a selector stands for: `0` is random, anything else is
/// sequential.
pub open spec fn mode_of(selector: usize) -> AccessMode {
    if selector == 0 {
        AccessMode::Random
    } else {
        AccessMode::Sequential
    }
}

/// The hint a selector stands for: `1` is random, `2` is sequential, every
/// other value is normal.
pub open spec fn hint_of(selector: usize) -> Hint {
    if selector == 1 {
        Hint::Random
    } else if selector == 2 {
        Hint::Sequential
    } else {
        Hint::Normal
    }
}

/// The four invocation parameters, kept as they were given.
pub struct Config {
    /// Path of the file or block device to map.
    pub path: String,
    /// Number of worker threads.
    pub threads: usize,
    /// Access-mode selector.
    pub seq: usize,
    /// Hint selector.
    pub hint: usize,
}

/// How a run starts once the size of the target is known.
#[derive(Clone, Copy, Debug, PartialEq, Eq, Structural)]
pub enum Launch {
    /// The target is empty: nothing is mapped, no thread is started and no
    /// record is written.
    Skip,
    /// The target is mapped at its full length and the workers are started.
    Run {
        /// Length of the region in bytes.
        length: u64,
        /// Number of worker threads to start.
        workers: usize,
    },
}

/// The launch a target of `file_size` bytes calls for with `threads`
/// workers configured.
pub open spec fn launch_of(file_size: u64, threads: usize) -> Launch {
    if file_size == 0 {
        Launch::Skip
    } else {
        Launch::Run { length: file_size, workers: threads }
    }
}

/// Number of worker threads a launch starts.
pub open spec fn workers_started(launch: Launch) -> nat {
    match launch {
        Launch::Skip => 0,
        Launch::Run { workers, .. } => workers as nat,
    }
}

impl Config {
    /// The access mode all workers of the run use.
    pub fn mode(&self) -> (mode: AccessMode)
        ensures
            mode == mode_of(self.seq),
    {
        mode_from_selector(self.seq)
    }

    /// The hint applied to the whole region before any worker touches it.
    pub fn advice(&self) -> (hint: Hint)
        ensures
            hint == hint_of(self.hint),
    {
        hint_from_selector(self.hint)
    }

    /// Decides how the run starts for a target of `file_size` bytes: an
    /// empty target is skipped, any other is mapped at exactly its length.
    pub fn plan_launch(&self, file_size: u64) -> (launch: Launch)
        ensures
            launch == launch_of(file_size, self.threads),
            file_size == 0 <==> launch == Launch::Skip,
            file_size == 0 ==> workers_started(launch) == 0,
    {
        if file_size == 0 {
            Launch::Skip
        } else {
            Launch::Run { length: file_size, workers: self.threads }
        }
    }
}

/// Decodes the access-mode selector.
pub fn mode_from_selector(selector: usize) -> (mode: AccessMode)
    ensures
        mode == mode_of(selector),
{
    if selector != 0 {
        AccessMode::Sequential
    } else {
        AccessMode::Random
    }
}

/// Decodes the hint selector; unknown values fall back to `Normal`.
pub fn hint_from_selector(selector: usize) -> (hint: Hint)
    ensures
        hint == hint_of(selector),
{
    match selector {
        1 => Hint::Random,
        2 => Hint::Sequential,
        _ => Hint::Normal,
    }
}

} // verus!
