//! The monitor: once per interval it turns the drained counters and the two
//! kernel readings into one report record.

use crate::units::GB;
use crate::units::PAGE_SIZE;
use vstd::prelude::*;

verus! {

/// Length of one reporting interval in seconds.
pub const INTERVAL_SECONDS: u64 = 1;

/// Nanoseconds in one second.
pub const NANOS_PER_SECOND: u64 = 1000000000;

/// Nanoseconds in one hundredth of a second.
pub const NANOS_PER_HUNDREDTH: u64 = 10000000;

/// `numerator / denominator` rounded to the nearest whole number; a value
/// exactly halfway between two whole numbers goes to the even one.
pub open spec fn rounded(numerator: nat, denominator: nat) -> nat {
    let quotient = numerator / denominator;
    let twice = 2 * (numerator % denominator);
    if twice < denominator || (twice == denominator && quotient % 2 == 0) {
        quotient
    } else {
        quotient + 1
    }
}

/// A byte volume in hundredths of a gigabyte.
pub open spec fn gigabyte_hundredths(bytes: nat) -> nat {
    rounded(bytes * 100, GB as nat)
}

/// A time span in hundredths of a second.
pub open spec fn second_hundredths(secs: u64, nanos: u32) -> nat {
    rounded((secs * NANOS_PER_SECOND + nanos) as nat, NANOS_PER_HUNDREDTH as nat)
}

/// A kernel reading, with zero standing for a reading that could not be
/// taken.
pub open spec fn reading_or_zero(reading: Option<u64>) -> u64 {
    match reading {
        Some(value) => value,
        None => 0,
    }
}

/// Growth of a kernel counter over one interval: the reading less the
/// baseline, and zero where the reading is missing or below the baseline.
pub open spec fn growth(reading: Option<u64>, baseline: u64) -> u64 {
    if reading_or_zero(reading) >= baseline {
        (reading_or_zero(reading) - baseline) as u64
    } else {
        0
    }
}

/// What the monitor collects at the end of one interval.
#[derive(Clone, Copy, Debug)]
pub struct Sample {
    /// Whole seconds since monitoring started.
    pub elapsed_secs: u64,
    /// Nanoseconds beyond the whole seconds.
    pub elapsed_nanos: u32,
    /// Touch count drained from the counter store.
    pub touches: u64,
    /// Batch count drained from the counter store.
    pub batches: u64,
    /// Shootdown count read from the interrupt table, if it could be read.
    pub shootdowns: Option<u64>,
    /// Bytes read according to the I/O table, if it could be read.
    pub io_bytes: Option<u64>,
}

/// The figures of one report record.
#[derive(Clone, Copy, Debug, PartialEq, Eq, Structural)]
pub struct Record {
    /// Time since monitoring started, in hundredths of a second.
    pub elapsed: u128,
    /// Volume touched in the interval, in hundredths of a gigabyte.
    pub work: u128,
    /// Shootdowns in the interval.
    pub shootdowns: u64,
    /// Volume read from the devices in the interval, in hundredths of a
    /// gigabyte.
    pub read: u128,
    /// Busy-work batches completed in the interval.
    pub batches: u64,
}

/// The monitor in its reporting state: the kernel readings of the previous
/// interval, against which the next readings are compared.
#[derive(Clone, Copy, Debug, PartialEq, Eq, Structural)]
pub struct Monitor {
    /// Shootdown count at the end of the previous interval.
    pub last_shootdowns: u64,
    /// Bytes read at the end of the previous interval.
    pub last_io_bytes: u64,
}

/// The record that a monitor writes for a sample.
pub open spec fn record_of(monitor: Monitor, sample: Sample) -> Record {
    Record {
        elapsed: second_hundredths(sample.elapsed_secs, sample.elapsed_nanos) as u128,
        work: gigabyte_hundredths((sample.touches * PAGE_SIZE) as nat) as u128,
        shootdowns: growth(sample.shootdowns, monitor.last_shootdowns),
        read: gigabyte_hundredths(growth(sample.io_bytes, monitor.last_io_bytes) as nat) as u128,
        batches: sample.batches,
    }
}

/// The monitor after a sample: the readings of the sample are the new
/// baselines.
pub open spec fn rebased(sample: Sample) -> Monitor {
    Monitor {
        last_shootdowns: reading_or_zero(sample.shootdowns),
        last_io_bytes: reading_or_zero(sample.io_bytes),
    }
}

/// A record reports zero for a kernel counter whose reading is missing, and
/// for one whose feed held no matching line and so read as zero.
pub proof fn lemma_missing_reading_reports_zero(monitor: Monitor, sample: Sample)
    ensures
        sample.shootdowns is None || sample.shootdowns == Some(0u64) ==> record_of(
            monitor,
            sample,
        ).shootdowns == 0,
        sample.io_bytes is None || sample.io_bytes == Some(0u64) ==> record_of(
            monitor,
            sample,
        ).read == 0,
{
}

/// Divides and rounds to the nearest whole number, halves to even.
fn round_half_even(numerator: u128, denominator: u128) -> (quotient: u128)
    requires
        0 < denominator <= 0x4000_0000_0000_0000,
        numerator <= 0x1_0000_0000_0000_0000_0000_0000,
    ensures
        quotient == rounded(numerator as nat, denominator as nat),
{
    let quotient = numerator / denominator;
    let twice = 2 * (numerator % denominator);
    if twice < denominator || (twice == denominator && quotient % 2 == 0) {
        quotient
    } else {
        quotient + 1
    }
}

/// Converts a byte volume to hundredths of a gigabyte.
pub fn volume_in_hundredths(bytes: u64) -> (hundredths: u128)
    ensures
        hundredths == gigabyte_hundredths(bytes as nat),
{
    round_half_even(bytes as u128 * 100, GB as u128)
}

/// Converts a number of page touches to the volume touched, in hundredths
/// of a gigabyte.
pub fn work_in_hundredths(touches: u64) -> (hundredths: u128)
    ensures
        hundredths == gigabyte_hundredths((touches * PAGE_SIZE) as nat),
{
    assert(touches * PAGE_SIZE <= u64::MAX * 4096) by (nonlinear_arith)
        requires
            PAGE_SIZE == 4096,
    ;
    let bytes = touches as u128 * PAGE_SIZE as u128;
    round_half_even(bytes * 100, GB as u128)
}

/// Converts a time span to hundredths of a second.
pub fn elapsed_in_hundredths(secs: u64, nanos: u32) -> (hundredths: u128)
    ensures
        hundredths == second_hundredths(secs, nanos),
{
    assert(secs * NANOS_PER_SECOND <= u64::MAX * 1000000000) by (nonlinear_arith)
        requires
            NANOS_PER_SECOND == 1000000000,
    ;
    let total = secs as u128 * NANOS_PER_SECOND as u128 + nanos as u128;
    round_half_even(total, NANOS_PER_HUNDREDTH as u128)
}

/// Growth of a kernel counter since the baseline.
pub fn counter_growth(reading: Option<u64>, baseline: u64) -> (delta: u64)
    ensures
        delta == growth(reading, baseline),
{
    let current = match reading {
        Some(value) => value,
        None => 0,
    };
    current.saturating_sub(baseline)
}

impl Monitor {
    /// Enters the reporting state with the first kernel readings as
    /// baselines. A reading that could not be taken counts as zero.
    pub fn prime(shootdowns: Option<u64>, io_bytes: Option<u64>) -> (monitor: Monitor)
        ensures
            monitor.last_shootdowns == reading_or_zero(shootdowns),
            monitor.last_io_bytes == reading_or_zero(io_bytes),
    {
        Monitor {
            last_shootdowns: match shootdowns {
                Some(value) => value,
                None => 0,
            },
            last_io_bytes: match io_bytes {
                Some(value) => value,
                None => 0,
            },
        }
    }

    /// Ends one interval: computes its record from the sample and takes the
    /// sample's readings as the baselines of the next interval. Every
    /// sample yields a record.
    pub fn tick(&mut self, sample: Sample) -> (record: Record)
        ensures
            record == record_of(*old(self), sample),
            *final(self) == rebased(sample),
    {
        let shootdowns = counter_growth(sample.shootdowns, self.last_shootdowns);
        let read_bytes = counter_growth(sample.io_bytes, self.last_io_bytes);
        let record = Record {
            elapsed: elapsed_in_hundredths(sample.elapsed_secs, sample.elapsed_nanos),
            work: work_in_hundredths(sample.touches),
            shootdowns,
            read: volume_in_hundredths(read_bytes),
            batches: sample.batches,
        };
        let next = Monitor::prime(sample.shootdowns, sample.io_bytes);
        self.last_shootdowns = next.last_shootdowns;
        self.last_io_bytes = next.last_io_bytes;
        record
    }
}

} // verus!
