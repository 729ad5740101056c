use vstd::prelude::*;

verus! {

/// The largest value a percentage may take.
pub const PERCENT_MAX: u32 = 100;

/// The lowest performance level; level 0 is the highest.
pub const PERFORMANCE_LEVEL_MAX: u32 = 15;

/// Frame-buffer memory counters taken in one read, in bytes.
#[derive(Clone, Copy, Debug, PartialEq, Eq, Structural)]
pub struct MemorySnapshot {
    pub total: u64,
    pub free: u64,
    pub used: u64,
}

/// A utilization figure with the length of the period it was sampled over,
/// in microseconds.
#[derive(Clone, Copy, Debug, PartialEq, Eq, Structural)]
pub struct SampledUtilization {
    pub percent: u32,
    pub period_us: u32,
}

/// A clock domain of the device.
#[derive(Clone, Copy, Debug, PartialEq, Eq, Structural)]
pub enum ClockDomain {
    Graphics,
    Sm,
    Memory,
}

/// A direction of traffic over the PCIe link, seen from the device.
#[derive(Clone, Copy, Debug, PartialEq, Eq, Structural)]
pub enum PcieDirection {
    Transmit,
    Receive,
}

/// The two kinds of memory error that are counted.
#[derive(Clone, Copy, Debug, PartialEq, Eq, Structural)]
pub enum EccKind {
    Corrected,
    Uncorrected,
}

/// One lifetime error counter: its value, or the fact that the device keeps
/// no such counter.
#[derive(Clone, Copy, Debug, PartialEq, Eq, Structural)]
pub enum CounterReading {
    Supported(u64),
    Unsupported,
}

/// Why a raw value was not accepted as a reading.
#[derive(Clone, Copy, Debug, PartialEq, Eq, Structural)]
pub enum Fault {
    /// A percentage above 100.
    PercentOutOfRange,
    /// A performance state outside the levels 0 to 15.
    UnknownPerformanceState,
    /// Memory counters where free and used together exceed the total.
    InconsistentMemory,
}

impl Fault {
    pub open spec fn text(self) -> Seq<char> {
        match self {
            Fault::PercentOutOfRange => "percentage out of range"@,
            Fault::UnknownPerformanceState => "unknown performance state"@,
            Fault::InconsistentMemory => "inconsistent memory counters"@,
        }
    }

    /// The cause text that an error built from this fault carries.
    pub fn describe(&self) -> (text: &'static str)
        ensures
            text@ == self.text(),
    {
        match self {
            Fault::PercentOutOfRange => "percentage out of range",
            Fault::UnknownPerformanceState => "unknown performance state",
            Fault::InconsistentMemory => "inconsistent memory counters",
        }
    }
}

pub open spec fn is_percent(raw: u32) -> bool {
    raw <= PERCENT_MAX
}

pub open spec fn is_performance_level(raw: u32) -> bool {
    raw <= PERFORMANCE_LEVEL_MAX
}

impl MemorySnapshot {
    /// Free and used memory together do not exceed the total.
    pub open spec fn consistent(self) -> bool {
        self.free as int + self.used as int <= self.total as int
    }
}

impl CounterReading {
    /// The counter's value, with zero standing for a counter that is not kept.
    pub open spec fn value(self) -> u64 {
        match self {
            CounterReading::Supported(n) => n,
            CounterReading::Unsupported => 0,
        }
    }

    pub fn collapse(&self) -> (n: u64)
        ensures
            n == self.value(),
    {
        match self {
            CounterReading::Supported(n) => *n,
            CounterReading::Unsupported => 0,
        }
    }

    /// A counter from the outcome of its query: any failure to read it
    /// means that it is not kept.
    pub fn from_query(value: Option<u64>) -> (c: CounterReading)
        ensures
            c == (match value {
                Some(n) => CounterReading::Supported(n),
                None => CounterReading::Unsupported,
            }),
    {
        match value {
            Some(n) => CounterReading::Supported(n),
            None => CounterReading::Unsupported,
        }
    }
}

/// Accepts a percentage as it was read, unchanged, if it is at most 100.
pub fn percent(raw: u32) -> (r: Result<u32, Fault>)
    ensures
        is_percent(raw) ==> r == Ok::<u32, Fault>(raw),
        !is_percent(raw) ==> r == Err::<u32, Fault>(Fault::PercentOutOfRange),
{
    if raw <= PERCENT_MAX {
        Ok(raw)
    } else {
        Err(Fault::PercentOutOfRange)
    }
}

/// Accepts a performance state as a level, unchanged, if it is one of the
/// levels 0 to 15.
pub fn performance_level(raw: u32) -> (r: Result<u32, Fault>)
    ensures
        is_performance_level(raw) ==> r == Ok::<u32, Fault>(raw),
        !is_performance_level(raw) ==> r == Err::<u32, Fault>(Fault::UnknownPerformanceState),
{
    if raw <= PERFORMANCE_LEVEL_MAX {
        Ok(raw)
    } else {
        Err(Fault::UnknownPerformanceState)
    }
}

/// The pair (GPU, memory bandwidth) of utilization percentages, accepted
/// only if both are percentages.
pub fn utilization_pair(gpu: u32, memory: u32) -> (r: Result<(u32, u32), Fault>)
    ensures
        is_percent(gpu) && is_percent(memory) ==> r == Ok::<(u32, u32), Fault>((gpu, memory)),
        !(is_percent(gpu) && is_percent(memory)) ==> r == Err::<(u32, u32), Fault>(
            Fault::PercentOutOfRange,
        ),
{
    if gpu <= PERCENT_MAX && memory <= PERCENT_MAX {
        Ok((gpu, memory))
    } else {
        Err(Fault::PercentOutOfRange)
    }
}

/// The pair (percent, sampling period) of an encoder or decoder reading,
/// accepted only if the first is a percentage.
pub fn sampled_pair(sample: SampledUtilization) -> (r: Result<(u32, u32), Fault>)
    ensures
        is_percent(sample.percent) ==> r == Ok::<(u32, u32), Fault>(
            (sample.percent, sample.period_us),
        ),
        !is_percent(sample.percent) ==> r == Err::<(u32, u32), Fault>(Fault::PercentOutOfRange),
{
    if sample.percent <= PERCENT_MAX {
        Ok((sample.percent, sample.period_us))
    } else {
        Err(Fault::PercentOutOfRange)
    }
}

/// The triple (total, free, used) of one snapshot, accepted only if the
/// snapshot is consistent.
pub fn memory_triple(snapshot: MemorySnapshot) -> (r: Result<(u64, u64, u64), Fault>)
    ensures
        snapshot.consistent() ==> r == Ok::<(u64, u64, u64), Fault>(
            (snapshot.total, snapshot.free, snapshot.used),
        ),
        !snapshot.consistent() ==> r == Err::<(u64, u64, u64), Fault>(Fault::InconsistentMemory),
{
    if snapshot.used <= snapshot.total && snapshot.free <= snapshot.total - snapshot.used {
        Ok((snapshot.total, snapshot.free, snapshot.used))
    } else {
        Err(Fault::InconsistentMemory)
    }
}

/// The pair (corrected, uncorrected) of lifetime error counts. Each counter
/// collapses on its own: one that is not kept counts as zero.
pub fn ecc_pair(corrected: CounterReading, uncorrected: CounterReading) -> (r: (u64, u64))
    ensures
        r == (corrected.value(), uncorrected.value()),
{
    (corrected.collapse(), uncorrected.collapse())
}

/// The number of processes in a list of process ids.
pub fn process_count(pids: &Vec<u32>) -> (n: u64)
    ensures
        n == pids@.len(),
{
    pids.len() as u64
}

/// A consistent snapshot never reports more used, or more free, memory
/// than the device has.
pub proof fn lemma_consistent_memory_is_bounded(snapshot: MemorySnapshot)
    requires
        snapshot.consistent(),
    ensures
        snapshot.used <= snapshot.total,
        snapshot.free <= snapshot.total,
{
}

/// A device without error counters reads as the pair of zeros.
pub proof fn lemma_unsupported_counters_read_zero()
    ensures
        (CounterReading::Unsupported.value(), CounterReading::Unsupported.value()) == (0u64, 0u64),
{
}

} // verus!
