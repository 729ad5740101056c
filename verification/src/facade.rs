use vstd::prelude::*;
use vstd::string::StringExecFns;
use crate::error::{ErrorKind, Operation, TelemetryError};
use crate::reading::{is_percent, is_performance_level};
use crate::session::Session;

verus! {

/// What `init` answers when the session could be established.
pub open spec fn init_status_text() -> Seq<char> {
    "NVML initialized successfully"@
}

/// What every operation promises of a failure: it names the operation,
/// and only an operation that takes a device index can fail to find a
/// device.
pub open spec fn fails_for<T>(r: Result<T, TelemetryError>, operation: Operation) -> bool {
    r matches Err(e) ==> e.operation == operation && (e.kind == ErrorKind::DeviceNotFound
        ==> operation.per_device_spec())
}

/// Establishes a session and lets it go again: tells whether the
/// monitoring subsystem can be reached.
pub fn init() -> (r: Result<String, TelemetryError>)
    ensures
        r matches Ok(status) ==> status@ == init_status_text(),
        r matches Err(e) ==> e.kind == ErrorKind::SessionInitFailed && e.operation
            == Operation::Init,
{
    match Session::open(Operation::Init) {
        Ok(_) => Ok(String::from_str("NVML initialized successfully")),
        Err(e) => Err(e),
    }
}

/// The number of devices in the system.
pub fn device_count() -> (r: Result<u32, TelemetryError>)
    ensures
        fails_for(r, Operation::DeviceCount),
{
    let session = Session::open(Operation::DeviceCount)?;
    session.device_count()
}

/// The version of the graphics driver.
pub fn driver_version() -> (r: Result<String, TelemetryError>)
    ensures
        fails_for(r, Operation::DriverVersion),
{
    let session = Session::open(Operation::DriverVersion)?;
    session.driver_version()
}

/// The version of the management library.
pub fn nvml_version() -> (r: Result<String, TelemetryError>)
    ensures
        fails_for(r, Operation::NvmlVersion),
{
    let session = Session::open(Operation::NvmlVersion)?;
    session.nvml_version()
}

/// The product name of the device.
pub fn device_name(index: u32) -> (r: Result<String, TelemetryError>)
    ensures
        fails_for(r, Operation::DeviceName),
{
    let session = Session::open(Operation::DeviceName)?;
    session.device_name(index)
}

/// The temperature of the GPU die in degrees Celsius.
pub fn device_temperature(index: u32) -> (r: Result<u32, TelemetryError>)
    ensures
        fails_for(r, Operation::DeviceTemperature),
{
    let session = Session::open(Operation::DeviceTemperature)?;
    session.device_temperature(index)
}

/// The triple (total, free, used) of frame-buffer memory in bytes, taken in
/// one read. Free and used memory together never exceed the total.
pub fn device_memory_info(index: u32) -> (r: Result<(u64, u64, u64), TelemetryError>)
    ensures
        fails_for(r, Operation::DeviceMemoryInfo),
        r matches Ok(m) ==> m.1 + m.2 <= m.0,
{
    let session = Session::open(Operation::DeviceMemoryInfo)?;
    session.device_memory_info(index)
}

/// The pair (GPU, memory bandwidth) of utilization percentages, taken in
/// one read.
pub fn device_utilization(index: u32) -> (r: Result<(u32, u32), TelemetryError>)
    ensures
        fails_for(r, Operation::DeviceUtilization),
        r matches Ok(u) ==> is_percent(u.0) && is_percent(u.1),
{
    let session = Session::open(Operation::DeviceUtilization)?;
    session.device_utilization(index)
}

/// The power draw in milliwatts.
pub fn device_power_usage(index: u32) -> (r: Result<u32, TelemetryError>)
    ensures
        fails_for(r, Operation::DevicePowerUsage),
{
    let session = Session::open(Operation::DevicePowerUsage)?;
    session.device_power_usage(index)
}

/// The power limit in milliwatts.
pub fn device_power_limit(index: u32) -> (r: Result<u32, TelemetryError>)
    ensures
        fails_for(r, Operation::DevicePowerLimit),
{
    let session = Session::open(Operation::DevicePowerLimit)?;
    session.device_power_limit(index)
}

/// The current clocks (graphics, SM, memory) in MHz.
pub fn device_clock_info(index: u32) -> (r: Result<(u32, u32, u32), TelemetryError>)
    ensures
        fails_for(r, Operation::DeviceClockInfo),
{
    let session = Session::open(Operation::DeviceClockInfo)?;
    session.device_clock_info(index)
}

/// The highest clocks (graphics, SM, memory) in MHz.
pub fn device_max_clock_info(index: u32) -> (r: Result<(u32, u32, u32), TelemetryError>)
    ensures
        fails_for(r, Operation::DeviceMaxClockInfo),
{
    let session = Session::open(Operation::DeviceMaxClockInfo)?;
    session.device_max_clock_info(index)
}

/// The pair (generation, width) of the current PCIe link.
pub fn device_pcie_link_info(index: u32) -> (r: Result<(u32, u32), TelemetryError>)
    ensures
        fails_for(r, Operation::DevicePcieLinkInfo),
{
    let session = Session::open(Operation::DevicePcieLinkInfo)?;
    session.device_pcie_link_info(index)
}

/// The pair (transmit, receive) of PCIe throughput in KB/s.
pub fn device_pcie_throughput(index: u32) -> (r: Result<(u32, u32), TelemetryError>)
    ensures
        fails_for(r, Operation::DevicePcieThroughput),
{
    let session = Session::open(Operation::DevicePcieThroughput)?;
    session.device_pcie_throughput(index)
}

/// The fan speed as a percentage.
pub fn device_fan_speed(index: u32) -> (r: Result<u32, TelemetryError>)
    ensures
        fails_for(r, Operation::DeviceFanSpeed),
        r matches Ok(speed) ==> is_percent(speed),
{
    let session = Session::open(Operation::DeviceFanSpeed)?;
    session.device_fan_speed(index)
}

/// The performance level, 0 the highest and 15 the lowest.
pub fn device_performance_state(index: u32) -> (r: Result<u32, TelemetryError>)
    ensures
        fails_for(r, Operation::DevicePerformanceState),
        r matches Ok(level) ==> is_performance_level(level),
{
    let session = Session::open(Operation::DevicePerformanceState)?;
    session.device_performance_state(index)
}

/// The pair (percent, sampling period in microseconds) of the video
/// encoder, taken in one read.
pub fn device_encoder_utilization(index: u32) -> (r: Result<(u32, u32), TelemetryError>)
    ensures
        fails_for(r, Operation::DeviceEncoderUtilization),
        r matches Ok(u) ==> is_percent(u.0),
{
    let session = Session::open(Operation::DeviceEncoderUtilization)?;
    session.device_encoder_utilization(index)
}

/// The pair (percent, sampling period in microseconds) of the video
/// decoder, taken in one read.
pub fn device_decoder_utilization(index: u32) -> (r: Result<(u32, u32), TelemetryError>)
    ensures
        fails_for(r, Operation::DeviceDecoderUtilization),
        r matches Ok(u) ==> is_percent(u.0),
{
    let session = Session::open(Operation::DeviceDecoderUtilization)?;
    session.device_decoder_utilization(index)
}

/// The globally unique id of the device.
pub fn device_uuid(index: u32) -> (r: Result<String, TelemetryError>)
    ensures
        fails_for(r, Operation::DeviceUuid),
{
    let session = Session::open(Operation::DeviceUuid)?;
    session.device_uuid(index)
}

/// How many compute processes run on the device.
pub fn device_compute_processes_count(index: u32) -> (r: Result<u64, TelemetryError>)
    ensures
        fails_for(r, Operation::DeviceComputeProcessesCount),
{
    let session = Session::open(Operation::DeviceComputeProcessesCount)?;
    session.device_compute_processes_count(index)
}

/// How many graphics processes run on the device.
pub fn device_graphics_processes_count(index: u32) -> (r: Result<u64, TelemetryError>)
    ensures
        fails_for(r, Operation::DeviceGraphicsProcessesCount),
{
    let session = Session::open(Operation::DeviceGraphicsProcessesCount)?;
    session.device_graphics_processes_count(index)
}

/// The pair (corrected, uncorrected) of lifetime memory error counts. A
/// device that keeps no such counters reads as `(0, 0)`: this operation
/// never fails for want of a field.
pub fn device_ecc_errors(index: u32) -> (r: Result<(u64, u64), TelemetryError>)
    ensures
        fails_for(r, Operation::DeviceEccErrors),
        r matches Err(e) ==> e.kind != ErrorKind::FieldUnavailable,
{
    let session = Session::open(Operation::DeviceEccErrors)?;
    session.device_ecc_errors(index)
}

} // verus!
