use vstd::prelude::*;
use nvml_wrapper::enum_wrappers::device::{
    Clock, EccCounter, MemoryError, PcieUtilCounter, TemperatureSensor,
};
use nvml_wrapper::error::NvmlError;
use nvml_wrapper::{Device, Nvml};
use crate::reading::{ClockDomain, EccKind, MemorySnapshot, PcieDirection, SampledUtilization};

verus! {

/// A session with the management library. Nothing is known of its inside.
#[verifier::external_type_specification]
#[verifier::external_body]
pub struct ExNvml(nvml_wrapper::Nvml);

/// A handle on one device, valid while its session lives.
#[verifier::external_type_specification]
#[verifier::external_body]
pub struct ExDevice<'nvml>(nvml_wrapper::Device<'nvml>);

/// The management library's own error.
#[verifier::external_type_specification]
#[verifier::external_body]
pub struct ExNvmlError(nvml_wrapper::error::NvmlError);

/// Calls `Nvml::init`. What comes back depends on the machine, so
/// nothing is claimed of it.
#[verifier::external_body]
pub(crate) fn open() -> (r: Result<Nvml, NvmlError>) {
    Nvml::init()
}

/// Calls `Nvml::device_by_index`. Whether the index resolves is the
/// library's decision, so nothing is claimed of the result.
#[verifier::external_body]
pub(crate) fn device_at<'a>(session: &'a Nvml, index: u32) -> (r: Result<Device<'a>, NvmlError>) {
    session.device_by_index(index)
}

/// Calls `to_string` on an `NvmlError`, which formats it with the
/// `Display` impl that the wrapper crate gives it. The text is that
/// crate's wording, so nothing is claimed of it.
#[verifier::external_body]
pub(crate) fn failure_text(e: &NvmlError) -> (text: String) {
    e.to_string()
}

/// Calls `Nvml::device_count`: the number of devices the library reports.
/// The value is the machine's, so nothing is claimed of it.
#[verifier::external_body]
pub(crate) fn device_count(session: &Nvml) -> (r: Result<u32, NvmlError>) {
    session.device_count()
}

/// Calls `Nvml::sys_driver_version`: the version of the graphics driver.
/// The value is the machine's, so nothing is claimed of it.
#[verifier::external_body]
pub(crate) fn driver_version(session: &Nvml) -> (r: Result<String, NvmlError>) {
    session.sys_driver_version()
}

/// Calls `Nvml::sys_nvml_version`: the version of the management library.
/// The value is the machine's, so nothing is claimed of it.
#[verifier::external_body]
pub(crate) fn library_version(session: &Nvml) -> (r: Result<String, NvmlError>) {
    session.sys_nvml_version()
}

/// Calls `Device::name`: the product name of the device.
/// The value is the machine's, so nothing is claimed of it.
#[verifier::external_body]
pub(crate) fn name(device: &Device<'_>) -> (r: Result<String, NvmlError>) {
    device.name()
}

/// Calls `Device::uuid`: the globally unique id of the device.
/// The value is the machine's, so nothing is claimed of it.
#[verifier::external_body]
pub(crate) fn uuid(device: &Device<'_>) -> (r: Result<String, NvmlError>) {
    device.uuid()
}

/// Calls `Device::temperature`: the temperature of the GPU die in degrees Celsius.
/// The value is the machine's, so nothing is claimed of it.
#[verifier::external_body]
pub(crate) fn temperature(device: &Device<'_>) -> (r: Result<u32, NvmlError>) {
    device.temperature(TemperatureSensor::Gpu)
}

/// Calls `Device::power_usage`: the power draw in milliwatts.
/// The value is the machine's, so nothing is claimed of it.
#[verifier::external_body]
pub(crate) fn power_usage(device: &Device<'_>) -> (r: Result<u32, NvmlError>) {
    device.power_usage()
}

/// Calls `Device::power_management_limit`: the power management limit in milliwatts.
/// The value is the machine's, so nothing is claimed of it.
#[verifier::external_body]
pub(crate) fn power_limit(device: &Device<'_>) -> (r: Result<u32, NvmlError>) {
    device.power_management_limit()
}

/// Calls `Device::current_pcie_link_gen`: the current PCIe link generation.
/// The value is the machine's, so nothing is claimed of it.
#[verifier::external_body]
pub(crate) fn link_generation(device: &Device<'_>) -> (r: Result<u32, NvmlError>) {
    device.current_pcie_link_gen()
}

/// Calls `Device::current_pcie_link_width`: the current PCIe link width.
/// The value is the machine's, so nothing is claimed of it.
#[verifier::external_body]
pub(crate) fn link_width(device: &Device<'_>) -> (r: Result<u32, NvmlError>) {
    device.current_pcie_link_width()
}

/// Calls `Device::fan_speed`: the speed of the fan with the given index, as the library reports it.
/// The value is the machine's, so nothing is claimed of it.
#[verifier::external_body]
pub(crate) fn fan_speed(device: &Device<'_>, fan: u32) -> (r: Result<u32, NvmlError>) {
    device.fan_speed(fan)
}

/// Calls `Device::memory_info` once and keeps the total, free and used
/// counters of that one answer. Nothing is claimed of their values.
#[verifier::external_body]
pub(crate) fn memory(device: &Device<'_>) -> (r: Result<MemorySnapshot, NvmlError>) {
    device.memory_info().map(|m| MemorySnapshot { total: m.total, free: m.free, used: m.used })
}

/// Calls `Device::utilization_rates` once and hands out the pair
/// (GPU, memory) of that one answer. Nothing is claimed of the values.
#[verifier::external_body]
pub(crate) fn utilization(device: &Device<'_>) -> (r: Result<(u32, u32), NvmlError>) {
    device.utilization_rates().map(|u| (u.gpu, u.memory))
}

/// Calls `Device::encoder_utilization` once and keeps both members of
/// that one answer. Nothing is claimed of their values.
#[verifier::external_body]
pub(crate) fn encoder(device: &Device<'_>) -> (r: Result<SampledUtilization, NvmlError>) {
    device.encoder_utilization().map(|u| {
        SampledUtilization { percent: u.utilization, period_us: u.sampling_period }
    })
}

/// Calls `Device::decoder_utilization` once and keeps both members of
/// that one answer. Nothing is claimed of their values.
#[verifier::external_body]
pub(crate) fn decoder(device: &Device<'_>) -> (r: Result<SampledUtilization, NvmlError>) {
    device.decoder_utilization().map(|u| {
        SampledUtilization { percent: u.utilization, period_us: u.sampling_period }
    })
}

/// Calls `Device::performance_state` and hands out the state as the
/// library's own number for it. Nothing is claimed of the number.
#[verifier::external_body]
pub(crate) fn performance_state(device: &Device<'_>) -> (r: Result<u32, NvmlError>) {
    device.performance_state().map(|s| s.as_c())
}

/// Calls `Device::clock_info` for one clock domain: the current clock in
/// MHz. Nothing is claimed of the value.
#[verifier::external_body]
pub(crate) fn clock(device: &Device<'_>, domain: ClockDomain) -> (r: Result<u32, NvmlError>) {
    device.clock_info(match domain {
        ClockDomain::Graphics => Clock::Graphics,
        ClockDomain::Sm => Clock::SM,
        ClockDomain::Memory => Clock::Memory,
    })
}

/// Calls `Device::max_clock_info` for one clock domain: the highest clock
/// in MHz. Nothing is claimed of the value.
#[verifier::external_body]
pub(crate) fn max_clock(device: &Device<'_>, domain: ClockDomain) -> (r: Result<u32, NvmlError>) {
    device.max_clock_info(match domain {
        ClockDomain::Graphics => Clock::Graphics,
        ClockDomain::Sm => Clock::SM,
        ClockDomain::Memory => Clock::Memory,
    })
}

/// Calls `Device::pcie_throughput` for one direction: KB/s over the
/// library's sampling window. Nothing is claimed of the value.
#[verifier::external_body]
pub(crate) fn throughput(device: &Device<'_>, direction: PcieDirection) -> (r: Result<
    u32,
    NvmlError,
>) {
    device.pcie_throughput(match direction {
        PcieDirection::Transmit => PcieUtilCounter::Send,
        PcieDirection::Receive => PcieUtilCounter::Receive,
    })
}

/// Calls `Device::total_ecc_errors` for one kind of error, with the
/// counter that lasts for the device's lifetime. Nothing is claimed of
/// the result.
#[verifier::external_body]
pub(crate) fn lifetime_ecc_errors(device: &Device<'_>, kind: EccKind) -> (r: Result<
    u64,
    NvmlError,
>) {
    let error = match kind {
        EccKind::Corrected => MemoryError::Corrected,
        EccKind::Uncorrected => MemoryError::Uncorrected,
    };
    device.total_ecc_errors(error, EccCounter::Aggregate)
}

/// Calls `Device::running_compute_processes` and hands out the process
/// id of each entry, in order. Nothing is claimed of the list.
#[verifier::external_body]
pub(crate) fn compute_processes(device: &Device<'_>) -> (r: Result<Vec<u32>, NvmlError>) {
    device.running_compute_processes().map(|list| list.into_iter().map(|p| p.pid).collect())
}

/// Calls `Device::running_graphics_processes` and hands out the process
/// id of each entry, in order. Nothing is claimed of the list.
#[verifier::external_body]
pub(crate) fn graphics_processes(device: &Device<'_>) -> (r: Result<Vec<u32>, NvmlError>) {
    device.running_graphics_processes().map(|list| list.into_iter().map(|p| p.pid).collect())
}

} // verus!
