use vstd::prelude::*;
use vstd::string::StringExecFns;
use nvml_wrapper::error::NvmlError;
use nvml_wrapper::{Device, Nvml};
use crate::backend;
use crate::error::{ErrorKind, Operation, TelemetryError};
use crate::reading::{
    ecc_pair, is_percent, is_performance_level, memory_triple, percent, performance_level,
    process_count, sampled_pair, utilization_pair, ClockDomain, CounterReading, EccKind, Fault,
    PcieDirection,
};

verus! {

/// The fan that the fan-speed reading is taken from.
pub const PRIMARY_FAN: u32 = 0;

/// Whether a device lookup may go ahead: the index lies below the count the
/// subsystem reported, or the subsystem reported no count to hold it
/// against.
pub open spec fn index_admitted(count: Option<u32>, index: u32) -> bool {
    match count {
        Some(n) => index < n,
        None => true,
    }
}

/// The cause carried when an index lies at or beyond the device count.
pub open spec fn out_of_range_text() -> Seq<char> {
    "device index out of range"@
}

/// Holds a device index against the device count. An index at or beyond
/// the count is not a device; with no count to go by, the lookup decides.
pub fn check_index(operation: Operation, count: Option<u32>, index: u32) -> (r: Result<
    (),
    TelemetryError,
>)
    ensures
        r is Ok <==> index_admitted(count, index),
        r matches Err(e) ==> e.kind == ErrorKind::DeviceNotFound && e.operation == operation
            && e.cause@ == out_of_range_text(),
{
    let admitted = match count {
        Some(n) => index < n,
        None => true,
    };
    if admitted {
        Ok(())
    } else {
        Err(
            TelemetryError::device_not_found(
                operation,
                String::from_str("device index out of range"),
            ),
        )
    }
}

/// An index at or beyond the count that the subsystem reports is never
/// admitted to a lookup, so resolving it ends in `DeviceNotFound`.
pub proof fn lemma_index_beyond_count_is_refused(count: u32, index: u32)
    requires
        index >= count,
    ensures
        !index_admitted(Some(count), index),
{
}

/// An index below the count that the subsystem reports is always admitted
/// to a lookup: no device that is counted is turned away unasked.
pub proof fn lemma_index_below_count_is_admitted(count: u32, index: u32)
    requires
        index < count,
    ensures
        index_admitted(Some(count), index),
{
}

/// Turns the verdict on a raw value into the operation's result: an
/// accepted value passes through, a fault makes the field unavailable,
/// with the fault's text as the cause.
pub fn checked<T>(operation: Operation, verdict: Result<T, Fault>) -> (r: Result<T, TelemetryError>)
    ensures
        verdict matches Ok(v) ==> r == Ok::<T, TelemetryError>(v),
        verdict matches Err(fault) ==> (r matches Err(e) && e.kind == ErrorKind::FieldUnavailable
            && e.operation == operation && e.cause@ == fault.text()),
{
    match verdict {
        Ok(v) => Ok(v),
        Err(fault) => Err(
            TelemetryError::field_unavailable(operation, String::from_str(fault.describe())),
        ),
    }
}

/// Labels the outcome of one step: a value passes through unchanged, a
/// failure becomes an error of the given kind for the given operation,
/// carrying the failure's text as its cause.
pub fn staged<T>(kind: ErrorKind, operation: Operation, outcome: Result<T, String>) -> (r: Result<
    T,
    TelemetryError,
>)
    ensures
        outcome matches Ok(v) ==> r == Ok::<T, TelemetryError>(v),
        outcome matches Err(cause) ==> (r matches Err(e) && e.kind == kind && e.operation
            == operation && e.cause@ == cause@),
{
    match outcome {
        Ok(v) => Ok(v),
        Err(cause) => Err(TelemetryError { kind, operation, cause }),
    }
}

/// Labels the outcome of one call into the management library, with the
/// library's wording of the failure as the cause.
fn settle<T>(kind: ErrorKind, operation: Operation, outcome: Result<T, NvmlError>) -> (r: Result<
    T,
    TelemetryError,
>)
    ensures
        outcome matches Ok(v) ==> r == Ok::<T, TelemetryError>(v),
        outcome is Err ==> (r matches Err(e) && e.kind == kind && e.operation == operation),
{
    let plain = match outcome {
        Ok(v) => Ok(v),
        Err(failure) => Err(backend::failure_text(&failure)),
    };
    staged(kind, operation, plain)
}

/// A counter from the outcome of its query: a failure means that the
/// counter is not kept.
fn counter(outcome: Result<u64, NvmlError>) -> (c: CounterReading)
    ensures
        outcome matches Ok(n) ==> c == CounterReading::Supported(n),
        outcome is Err ==> c == CounterReading::Unsupported,
{
    match outcome {
        Ok(n) => CounterReading::from_query(Some(n)),
        Err(_) => CounterReading::from_query(None),
    }
}

/// What every per-device read promises of a failure: it names the
/// operation, and it says that the device was not found or that the field
/// could not be had. With a session at hand nothing else can go wrong.
pub open spec fn fails_at_device<T>(r: Result<T, TelemetryError>, operation: Operation) -> bool {
    r matches Err(e) ==> e.operation == operation && (e.kind == ErrorKind::DeviceNotFound
        || e.kind == ErrorKind::FieldUnavailable)
}

/// What every system-wide read promises of a failure.
pub open spec fn fails_at_field<T>(r: Result<T, TelemetryError>, operation: Operation) -> bool {
    r matches Err(e) ==> e.operation == operation && e.kind == ErrorKind::FieldUnavailable
}

/// An established monitoring session. It lives as long as its owner keeps
/// it and is released when it goes out of scope.
pub struct Session {
    nvml: Nvml,
}

impl Session {
    /// Establishes a session on behalf of `operation`.
    pub fn open(operation: Operation) -> (r: Result<Session, TelemetryError>)
        ensures
            r matches Err(e) ==> e.kind == ErrorKind::SessionInitFailed && e.operation
                == operation,
    {
        match settle(ErrorKind::SessionInitFailed, operation, backend::open()) {
            Ok(nvml) => Ok(Session { nvml }),
            Err(e) => Err(e),
        }
    }

    /// Resolves a device index. The index is first held against the count
    /// that the subsystem reports now; only an admitted index is looked up.
    fn resolve<'a>(&'a self, operation: Operation, index: u32) -> (r: Result<
        Device<'a>,
        TelemetryError,
    >)
        ensures
            r matches Err(e) ==> e.kind == ErrorKind::DeviceNotFound && e.operation == operation,
    {
        let count = match backend::device_count(&self.nvml) {
            Ok(n) => Some(n),
            Err(_) => None,
        };
        match check_index(operation, count, index) {
            Ok(()) => settle(
                ErrorKind::DeviceNotFound,
                operation,
                backend::device_at(&self.nvml, index),
            ),
            Err(e) => Err(e),
        }
    }

    pub fn device_count(&self) -> (r: Result<u32, TelemetryError>)
        ensures
            fails_at_field(r, Operation::DeviceCount),
    {
        settle(
            ErrorKind::FieldUnavailable,
            Operation::DeviceCount,
            backend::device_count(&self.nvml),
        )
    }

    pub fn driver_version(&self) -> (r: Result<String, TelemetryError>)
        ensures
            fails_at_field(r, Operation::DriverVersion),
    {
        settle(
            ErrorKind::FieldUnavailable,
            Operation::DriverVersion,
            backend::driver_version(&self.nvml),
        )
    }

    pub fn nvml_version(&self) -> (r: Result<String, TelemetryError>)
        ensures
            fails_at_field(r, Operation::NvmlVersion),
    {
        settle(
            ErrorKind::FieldUnavailable,
            Operation::NvmlVersion,
            backend::library_version(&self.nvml),
        )
    }

    pub fn device_name(&self, index: u32) -> (r: Result<String, TelemetryError>)
        ensures
            fails_at_device(r, Operation::DeviceName),
    {
        let device = self.resolve(Operation::DeviceName, index)?;
        settle(ErrorKind::FieldUnavailable, Operation::DeviceName, backend::name(&device))
    }

    pub fn device_uuid(&self, index: u32) -> (r: Result<String, TelemetryError>)
        ensures
            fails_at_device(r, Operation::DeviceUuid),
    {
        let device = self.resolve(Operation::DeviceUuid, index)?;
        settle(ErrorKind::FieldUnavailable, Operation::DeviceUuid, backend::uuid(&device))
    }

    /// Degrees Celsius, as read.
    pub fn device_temperature(&self, index: u32) -> (r: Result<u32, TelemetryError>)
        ensures
            fails_at_device(r, Operation::DeviceTemperature),
    {
        let device = self.resolve(Operation::DeviceTemperature, index)?;
        settle(
            ErrorKind::FieldUnavailable,
            Operation::DeviceTemperature,
            backend::temperature(&device),
        )
    }

    /// The triple (total, free, used) in bytes, from one read. A read whose
    /// free and used memory exceed the total is not handed out.
    pub fn device_memory_info(&self, index: u32) -> (r: Result<(u64, u64, u64), TelemetryError>)
        ensures
            fails_at_device(r, Operation::DeviceMemoryInfo),
            r matches Ok(m) ==> m.1 + m.2 <= m.0,
    {
        let device = self.resolve(Operation::DeviceMemoryInfo, index)?;
        let snapshot = settle(
            ErrorKind::FieldUnavailable,
            Operation::DeviceMemoryInfo,
            backend::memory(&device),
        )?;
        checked(Operation::DeviceMemoryInfo, memory_triple(snapshot))
    }

    /// The pair (GPU, memory bandwidth) of percentages, from one read.
    pub fn device_utilization(&self, index: u32) -> (r: Result<(u32, u32), TelemetryError>)
        ensures
            fails_at_device(r, Operation::DeviceUtilization),
            r matches Ok(u) ==> is_percent(u.0) && is_percent(u.1),
    {
        let device = self.resolve(Operation::DeviceUtilization, index)?;
        let raw = settle(
            ErrorKind::FieldUnavailable,
            Operation::DeviceUtilization,
            backend::utilization(&device),
        )?;
        checked(Operation::DeviceUtilization, utilization_pair(raw.0, raw.1))
    }

    /// Milliwatts, as read.
    pub fn device_power_usage(&self, index: u32) -> (r: Result<u32, TelemetryError>)
        ensures
            fails_at_device(r, Operation::DevicePowerUsage),
    {
        let device = self.resolve(Operation::DevicePowerUsage, index)?;
        settle(
            ErrorKind::FieldUnavailable,
            Operation::DevicePowerUsage,
            backend::power_usage(&device),
        )
    }

    /// Milliwatts, as read.
    pub fn device_power_limit(&self, index: u32) -> (r: Result<u32, TelemetryError>)
        ensures
            fails_at_device(r, Operation::DevicePowerLimit),
    {
        let device = self.resolve(Operation::DevicePowerLimit, index)?;
        settle(
            ErrorKind::FieldUnavailable,
            Operation::DevicePowerLimit,
            backend::power_limit(&device),
        )
    }

    /// The current clocks (graphics, SM, memory) in MHz.
    pub fn device_clock_info(&self, index: u32) -> (r: Result<(u32, u32, u32), TelemetryError>)
        ensures
            fails_at_device(r, Operation::DeviceClockInfo),
    {
        let op = Operation::DeviceClockInfo;
        let device = self.resolve(op, index)?;
        let graphics = settle(
            ErrorKind::FieldUnavailable,
            op,
            backend::clock(&device, ClockDomain::Graphics),
        )?;
        let sm = settle(ErrorKind::FieldUnavailable, op, backend::clock(&device, ClockDomain::Sm))?;
        let memory = settle(
            ErrorKind::FieldUnavailable,
            op,
            backend::clock(&device, ClockDomain::Memory),
        )?;
        Ok((graphics, sm, memory))
    }

    /// The highest clocks (graphics, SM, memory) in MHz.
    pub fn device_max_clock_info(&self, index: u32) -> (r: Result<(u32, u32, u32), TelemetryError>)
        ensures
            fails_at_device(r, Operation::DeviceMaxClockInfo),
    {
        let op = Operation::DeviceMaxClockInfo;
        let device = self.resolve(op, index)?;
        let graphics = settle(
            ErrorKind::FieldUnavailable,
            op,
            backend::max_clock(&device, ClockDomain::Graphics),
        )?;
        let sm = settle(
            ErrorKind::FieldUnavailable,
            op,
            backend::max_clock(&device, ClockDomain::Sm),
        )?;
        let memory = settle(
            ErrorKind::FieldUnavailable,
            op,
            backend::max_clock(&device, ClockDomain::Memory),
        )?;
        Ok((graphics, sm, memory))
    }

    /// The pair (generation, width) of the current PCIe link.
    pub fn device_pcie_link_info(&self, index: u32) -> (r: Result<(u32, u32), TelemetryError>)
        ensures
            fails_at_device(r, Operation::DevicePcieLinkInfo),
    {
        let op = Operation::DevicePcieLinkInfo;
        let device = self.resolve(op, index)?;
        let generation = settle(
            ErrorKind::FieldUnavailable,
            op,
            backend::link_generation(&device),
        )?;
        let width = settle(ErrorKind::FieldUnavailable, op, backend::link_width(&device))?;
        Ok((generation, width))
    }

    /// The pair (transmit, receive) of PCIe throughput in KB/s.
    pub fn device_pcie_throughput(&self, index: u32) -> (r: Result<(u32, u32), TelemetryError>)
        ensures
            fails_at_device(r, Operation::DevicePcieThroughput),
    {
        let op = Operation::DevicePcieThroughput;
        let device = self.resolve(op, index)?;
        let tx = settle(
            ErrorKind::FieldUnavailable,
            op,
            backend::throughput(&device, PcieDirection::Transmit),
        )?;
        let rx = settle(
            ErrorKind::FieldUnavailable,
            op,
            backend::throughput(&device, PcieDirection::Receive),
        )?;
        Ok((tx, rx))
    }

    /// The speed of the primary fan as a percentage.
    pub fn device_fan_speed(&self, index: u32) -> (r: Result<u32, TelemetryError>)
        ensures
            fails_at_device(r, Operation::DeviceFanSpeed),
            r matches Ok(speed) ==> is_percent(speed),
    {
        let op = Operation::DeviceFanSpeed;
        let device = self.resolve(op, index)?;
        let raw = settle(
            ErrorKind::FieldUnavailable,
            op,
            backend::fan_speed(&device, PRIMARY_FAN),
        )?;
        checked(op, percent(raw))
    }

    /// The performance level, 0 the highest and 15 the lowest.
    pub fn device_performance_state(&self, index: u32) -> (r: Result<u32, TelemetryError>)
        ensures
            fails_at_device(r, Operation::DevicePerformanceState),
            r matches Ok(level) ==> is_performance_level(level),
    {
        let op = Operation::DevicePerformanceState;
        let device = self.resolve(op, index)?;
        let raw = settle(ErrorKind::FieldUnavailable, op, backend::performance_state(&device))?;
        checked(op, performance_level(raw))
    }

    /// The pair (percent, sampling period in microseconds) of the video
    /// encoder, from one read.
    pub fn device_encoder_utilization(&self, index: u32) -> (r: Result<(u32, u32), TelemetryError>)
        ensures
            fails_at_device(r, Operation::DeviceEncoderUtilization),
            r matches Ok(u) ==> is_percent(u.0),
    {
        let op = Operation::DeviceEncoderUtilization;
        let device = self.resolve(op, index)?;
        let sample = settle(ErrorKind::FieldUnavailable, op, backend::encoder(&device))?;
        checked(op, sampled_pair(sample))
    }

    /// The pair (percent, sampling period in microseconds) of the video
    /// decoder, from one read.
    pub fn device_decoder_utilization(&self, index: u32) -> (r: Result<(u32, u32), TelemetryError>)
        ensures
            fails_at_device(r, Operation::DeviceDecoderUtilization),
            r matches Ok(u) ==> is_percent(u.0),
    {
        let op = Operation::DeviceDecoderUtilization;
        let device = self.resolve(op, index)?;
        let sample = settle(ErrorKind::FieldUnavailable, op, backend::decoder(&device))?;
        checked(op, sampled_pair(sample))
    }

    /// How many compute processes run on the device. The list itself is
    /// not handed out.
    pub fn device_compute_processes_count(&self, index: u32) -> (r: Result<u64, TelemetryError>)
        ensures
            fails_at_device(r, Operation::DeviceComputeProcessesCount),
    {
        let op = Operation::DeviceComputeProcessesCount;
        let device = self.resolve(op, index)?;
        let pids = settle(ErrorKind::FieldUnavailable, op, backend::compute_processes(&device))?;
        Ok(process_count(&pids))
    }

    /// How many graphics processes run on the device. The list itself is
    /// not handed out.
    pub fn device_graphics_processes_count(&self, index: u32) -> (r: Result<u64, TelemetryError>)
        ensures
            fails_at_device(r, Operation::DeviceGraphicsProcessesCount),
    {
        let op = Operation::DeviceGraphicsProcessesCount;
        let device = self.resolve(op, index)?;
        let pids = settle(ErrorKind::FieldUnavailable, op, backend::graphics_processes(&device))?;
        Ok(process_count(&pids))
    }

    /// The pair (corrected, uncorrected) of lifetime memory error counts.
    /// A counter that cannot be read counts as zero, so once the device is
    /// resolved this read does not fail.
    pub fn device_ecc_errors(&self, index: u32) -> (r: Result<(u64, u64), TelemetryError>)
        ensures
            r matches Err(e) ==> e.kind == ErrorKind::DeviceNotFound && e.operation
                == Operation::DeviceEccErrors,
    {
        let device = self.resolve(Operation::DeviceEccErrors, index)?;
        let corrected = counter(backend::lifetime_ecc_errors(&device, EccKind::Corrected));
        let uncorrected = counter(backend::lifetime_ecc_errors(&device, EccKind::Uncorrected));
        Ok(ecc_pair(corrected, uncorrected))
    }
}

} // verus!
