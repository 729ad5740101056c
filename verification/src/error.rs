use vstd::prelude::*;
use vstd::string::StringExecFns;

verus! {

/// The stage of a query at which it failed.
#[derive(Clone, Copy, Debug, PartialEq, Eq, Structural, Hash)]
pub enum ErrorKind {
    /// The monitoring session could not be established.
    SessionInitFailed,
    /// The device index did not resolve to a device.
    DeviceNotFound,
    /// The device was resolved but the field could not be read.
    FieldUnavailable,
}

/// The operations of the facade.
#[derive(Clone, Copy, Debug, PartialEq, Eq, Structural, Hash)]
pub enum Operation {
    Init,
    DeviceCount,
    DeviceName,
    DeviceTemperature,
    DeviceMemoryInfo,
    DeviceUtilization,
    DevicePowerUsage,
    DevicePowerLimit,
    DeviceClockInfo,
    DeviceMaxClockInfo,
    DevicePcieLinkInfo,
    DevicePcieThroughput,
    DeviceFanSpeed,
    DevicePerformanceState,
    DeviceEncoderUtilization,
    DeviceDecoderUtilization,
    DeviceUuid,
    DriverVersion,
    NvmlVersion,
    DeviceComputeProcessesCount,
    DeviceGraphicsProcessesCount,
    DeviceEccErrors,
}

impl Operation {
    /// The name under which callers know the operation.
    pub open spec fn name_text(self) -> Seq<char> {
        match self {
            Operation::Init => "init"@,
            Operation::DeviceCount => "device_count"@,
            Operation::DeviceName => "device_name"@,
            Operation::DeviceTemperature => "device_temperature"@,
            Operation::DeviceMemoryInfo => "device_memory_info"@,
            Operation::DeviceUtilization => "device_utilization"@,
            Operation::DevicePowerUsage => "device_power_usage"@,
            Operation::DevicePowerLimit => "device_power_limit"@,
            Operation::DeviceClockInfo => "device_clock_info"@,
            Operation::DeviceMaxClockInfo => "device_max_clock_info"@,
            Operation::DevicePcieLinkInfo => "device_pcie_link_info"@,
            Operation::DevicePcieThroughput => "device_pcie_throughput"@,
            Operation::DeviceFanSpeed => "device_fan_speed"@,
            Operation::DevicePerformanceState => "device_performance_state"@,
            Operation::DeviceEncoderUtilization => "device_encoder_utilization"@,
            Operation::DeviceDecoderUtilization => "device_decoder_utilization"@,
            Operation::DeviceUuid => "device_uuid"@,
            Operation::DriverVersion => "driver_version"@,
            Operation::NvmlVersion => "nvml_version"@,
            Operation::DeviceComputeProcessesCount => "device_compute_processes_count"@,
            Operation::DeviceGraphicsProcessesCount => "device_graphics_processes_count"@,
            Operation::DeviceEccErrors => "device_ecc_errors"@,
        }
    }

    /// What the operation reads, as its failure message names it.
    pub open spec fn field_text(self) -> Seq<char> {
        match self {
            Operation::Init => "NVML"@,
            Operation::DeviceCount => "device count"@,
            Operation::DeviceName => "device name"@,
            Operation::DeviceTemperature => "temperature"@,
            Operation::DeviceMemoryInfo => "memory info"@,
            Operation::DeviceUtilization => "utilization"@,
            Operation::DevicePowerUsage => "power usage"@,
            Operation::DevicePowerLimit => "power limit"@,
            Operation::DeviceClockInfo => "clock info"@,
            Operation::DeviceMaxClockInfo => "max clock info"@,
            Operation::DevicePcieLinkInfo => "PCIe link info"@,
            Operation::DevicePcieThroughput => "PCIe throughput"@,
            Operation::DeviceFanSpeed => "fan speed"@,
            Operation::DevicePerformanceState => "performance state"@,
            Operation::DeviceEncoderUtilization => "encoder utilization"@,
            Operation::DeviceDecoderUtilization => "decoder utilization"@,
            Operation::DeviceUuid => "device UUID"@,
            Operation::DriverVersion => "driver version"@,
            Operation::NvmlVersion => "NVML version"@,
            Operation::DeviceComputeProcessesCount => "compute processes"@,
            Operation::DeviceGraphicsProcessesCount => "graphics processes"@,
            Operation::DeviceEccErrors => "ECC errors"@,
        }
    }

    /// Whether the operation takes a device index.
    pub open spec fn per_device_spec(self) -> bool {
        !(self == Operation::Init || self == Operation::DeviceCount
            || self == Operation::DriverVersion || self == Operation::NvmlVersion)
    }

    pub fn name(&self) -> (text: &'static str)
        ensures
            text@ == self.name_text(),
    {
        match self {
            Operation::Init => "init",
            Operation::DeviceCount => "device_count",
            Operation::DeviceName => "device_name",
            Operation::DeviceTemperature => "device_temperature",
            Operation::DeviceMemoryInfo => "device_memory_info",
            Operation::DeviceUtilization => "device_utilization",
            Operation::DevicePowerUsage => "device_power_usage",
            Operation::DevicePowerLimit => "device_power_limit",
            Operation::DeviceClockInfo => "device_clock_info",
            Operation::DeviceMaxClockInfo => "device_max_clock_info",
            Operation::DevicePcieLinkInfo => "device_pcie_link_info",
            Operation::DevicePcieThroughput => "device_pcie_throughput",
            Operation::DeviceFanSpeed => "device_fan_speed",
            Operation::DevicePerformanceState => "device_performance_state",
            Operation::DeviceEncoderUtilization => "device_encoder_utilization",
            Operation::DeviceDecoderUtilization => "device_decoder_utilization",
            Operation::DeviceUuid => "device_uuid",
            Operation::DriverVersion => "driver_version",
            Operation::NvmlVersion => "nvml_version",
            Operation::DeviceComputeProcessesCount => "device_compute_processes_count",
            Operation::DeviceGraphicsProcessesCount => "device_graphics_processes_count",
            Operation::DeviceEccErrors => "device_ecc_errors",
        }
    }

    pub fn field(&self) -> (text: &'static str)
        ensures
            text@ == self.field_text(),
    {
        match self {
            Operation::Init => "NVML",
            Operation::DeviceCount => "device count",
            Operation::DeviceName => "device name",
            Operation::DeviceTemperature => "temperature",
            Operation::DeviceMemoryInfo => "memory info",
            Operation::DeviceUtilization => "utilization",
            Operation::DevicePowerUsage => "power usage",
            Operation::DevicePowerLimit => "power limit",
            Operation::DeviceClockInfo => "clock info",
            Operation::DeviceMaxClockInfo => "max clock info",
            Operation::DevicePcieLinkInfo => "PCIe link info",
            Operation::DevicePcieThroughput => "PCIe throughput",
            Operation::DeviceFanSpeed => "fan speed",
            Operation::DevicePerformanceState => "performance state",
            Operation::DeviceEncoderUtilization => "encoder utilization",
            Operation::DeviceDecoderUtilization => "decoder utilization",
            Operation::DeviceUuid => "device UUID",
            Operation::DriverVersion => "driver version",
            Operation::NvmlVersion => "NVML version",
            Operation::DeviceComputeProcessesCount => "compute processes",
            Operation::DeviceGraphicsProcessesCount => "graphics processes",
            Operation::DeviceEccErrors => "ECC errors",
        }
    }

    pub fn per_device(&self) -> (yes: bool)
        ensures
            yes == self.per_device_spec(),
    {
        match self {
            Operation::Init => false,
            Operation::DeviceCount => false,
            Operation::DriverVersion => false,
            Operation::NvmlVersion => false,
            _ => true,
        }
    }
}

/// A failed query: the stage that failed, the operation that was asked for,
/// and what the failing step reported.
#[derive(Clone, Debug, PartialEq, Eq)]
pub struct TelemetryError {
    pub kind: ErrorKind,
    pub operation: Operation,
    pub cause: String,
}

/// What a message starts with, before the cause.
pub open spec fn message_prefix(kind: ErrorKind, operation: Operation) -> Seq<char> {
    match kind {
        ErrorKind::SessionInitFailed => "Failed to initialize NVML: "@,
        ErrorKind::DeviceNotFound => "Failed to get device: "@,
        ErrorKind::FieldUnavailable => "Failed to get "@ + operation.field_text() + ": "@,
    }
}

impl TelemetryError {
    /// The human-readable message: a prefix that names the failed step,
    /// then the cause.
    pub open spec fn message_text(self) -> Seq<char> {
        message_prefix(self.kind, self.operation) + self.cause@
    }

    pub fn session_init_failed(operation: Operation, cause: String) -> (e: TelemetryError)
        ensures
            e.kind == ErrorKind::SessionInitFailed,
            e.operation == operation,
            e.cause@ == cause@,
    {
        TelemetryError { kind: ErrorKind::SessionInitFailed, operation, cause }
    }

    pub fn device_not_found(operation: Operation, cause: String) -> (e: TelemetryError)
        ensures
            e.kind == ErrorKind::DeviceNotFound,
            e.operation == operation,
            e.cause@ == cause@,
    {
        TelemetryError { kind: ErrorKind::DeviceNotFound, operation, cause }
    }

    pub fn field_unavailable(operation: Operation, cause: String) -> (e: TelemetryError)
        ensures
            e.kind == ErrorKind::FieldUnavailable,
            e.operation == operation,
            e.cause@ == cause@,
    {
        TelemetryError { kind: ErrorKind::FieldUnavailable, operation, cause }
    }

    pub fn message(&self) -> (text: String)
        ensures
            text@ == self.message_text(),
    {
        match self.kind {
            ErrorKind::SessionInitFailed => {
                String::from_str("Failed to initialize NVML: ").concat(self.cause.as_str())
            },
            ErrorKind::DeviceNotFound => {
                String::from_str("Failed to get device: ").concat(self.cause.as_str())
            },
            ErrorKind::FieldUnavailable => {
                let head = String::from_str("Failed to get ").concat(self.operation.field());
                head.concat(": ").concat(self.cause.as_str())
            },
        }
    }
}

/// Every message ends in its cause, whatever the stage.
pub proof fn lemma_message_ends_in_cause(e: TelemetryError)
    ensures
        e.message_text().len() >= e.cause@.len(),
        e.message_text().subrange(
            e.message_text().len() - e.cause@.len(),
            e.message_text().len() as int,
        ) == e.cause@,
{
    let p = message_prefix(e.kind, e.operation);
    assert((p + e.cause@).subrange(p.len() as int, (p + e.cause@).len() as int) =~= e.cause@);
}

} // verus!
