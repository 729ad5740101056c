use nvml_native::error::{ErrorKind, Operation, TelemetryError};
use nvml_native::facade;
use nvml_native::session::Session;

fn assert_failure_names(e: &TelemetryError, operation: Operation) {
    assert_eq!(e.operation, operation);
    let message = e.message();
    assert!(message.ends_with(e.cause.as_str()));
    match e.kind {
        ErrorKind::SessionInitFailed => assert!(message.starts_with("Failed to initialize NVML: ")),
        ErrorKind::DeviceNotFound => assert!(message.starts_with("Failed to get device: ")),
        ErrorKind::FieldUnavailable => assert!(message.starts_with("Failed to get ")),
    }
}

#[test]
fn init_reports_success_or_a_session_failure() {
    match facade::init() {
        Ok(status) => assert_eq!(status, "NVML initialized successfully"),
        Err(e) => {
            assert_eq!(e.kind, ErrorKind::SessionInitFailed);
            assert_failure_names(&e, Operation::Init);
        }
    }
}

#[test]
fn device_count_is_stable_across_calls() {
    let first = facade::device_count();
    let second = facade::device_count();
    match (first, second) {
        (Ok(a), Ok(b)) => assert_eq!(a, b),
        (Err(a), Err(b)) => {
            assert_eq!(a.kind, b.kind);
            assert_ne!(a.kind, ErrorKind::DeviceNotFound);
            assert_failure_names(&a, Operation::DeviceCount);
            assert_failure_names(&b, Operation::DeviceCount);
        }
        (a, b) => panic!("the two calls disagree: {:?} and {:?}", a, b),
    }
}

#[test]
fn versions_never_fail_at_a_device() {
    if let Err(e) = facade::driver_version() {
        assert_ne!(e.kind, ErrorKind::DeviceNotFound);
        assert_failure_names(&e, Operation::DriverVersion);
    }
    if let Err(e) = facade::nvml_version() {
        assert_ne!(e.kind, ErrorKind::DeviceNotFound);
        assert_failure_names(&e, Operation::NvmlVersion);
    }
}

#[test]
fn index_beyond_every_count_is_never_read() {
    let index = u32::MAX;
    let e = facade::device_name(index).unwrap_err();
    assert_ne!(e.kind, ErrorKind::FieldUnavailable);
    assert_failure_names(&e, Operation::DeviceName);
    let e = facade::device_temperature(index).unwrap_err();
    assert_ne!(e.kind, ErrorKind::FieldUnavailable);
    assert_failure_names(&e, Operation::DeviceTemperature);
    let e = facade::device_memory_info(index).unwrap_err();
    assert_ne!(e.kind, ErrorKind::FieldUnavailable);
    assert_failure_names(&e, Operation::DeviceMemoryInfo);
    let e = facade::device_utilization(index).unwrap_err();
    assert_ne!(e.kind, ErrorKind::FieldUnavailable);
    assert_failure_names(&e, Operation::DeviceUtilization);
    let e = facade::device_ecc_errors(index).unwrap_err();
    assert_ne!(e.kind, ErrorKind::FieldUnavailable);
    assert_failure_names(&e, Operation::DeviceEccErrors);
}

#[test]
fn index_at_the_count_is_device_not_found() {
    if let Ok(count) = facade::device_count() {
        match facade::device_name(count) {
            Ok(name) => panic!("index {} resolved to {}", count, name),
            Err(e) => assert_ne!(e.kind, ErrorKind::FieldUnavailable),
        }
    }
}

#[test]
fn first_device_readings_are_in_range() {
    match facade::device_memory_info(0) {
        Ok((total, free, used)) => {
            assert!(used <= total);
            assert!(free <= total);
            assert!(free as u128 + used as u128 <= total as u128);
        }
        Err(e) => assert_failure_names(&e, Operation::DeviceMemoryInfo),
    }
    match facade::device_utilization(0) {
        Ok((gpu, memory)) => assert!(gpu <= 100 && memory <= 100),
        Err(e) => assert_failure_names(&e, Operation::DeviceUtilization),
    }
    match facade::device_fan_speed(0) {
        Ok(speed) => assert!(speed <= 100),
        Err(e) => assert_failure_names(&e, Operation::DeviceFanSpeed),
    }
    match facade::device_performance_state(0) {
        Ok(level) => assert!(level <= 15),
        Err(e) => assert_failure_names(&e, Operation::DevicePerformanceState),
    }
    match facade::device_encoder_utilization(0) {
        Ok((percent, _)) => assert!(percent <= 100),
        Err(e) => assert_failure_names(&e, Operation::DeviceEncoderUtilization),
    }
    match facade::device_decoder_utilization(0) {
        Ok((percent, _)) => assert!(percent <= 100),
        Err(e) => assert_failure_names(&e, Operation::DeviceDecoderUtilization),
    }
}

#[test]
fn first_device_failures_name_their_operation() {
    if let Err(e) = facade::device_name(0) {
        assert_failure_names(&e, Operation::DeviceName);
    }
    if let Err(e) = facade::device_uuid(0) {
        assert_failure_names(&e, Operation::DeviceUuid);
    }
    if let Err(e) = facade::device_temperature(0) {
        assert_failure_names(&e, Operation::DeviceTemperature);
    }
    if let Err(e) = facade::device_power_usage(0) {
        assert_failure_names(&e, Operation::DevicePowerUsage);
    }
    if let Err(e) = facade::device_power_limit(0) {
        assert_failure_names(&e, Operation::DevicePowerLimit);
    }
    if let Err(e) = facade::device_clock_info(0) {
        assert_failure_names(&e, Operation::DeviceClockInfo);
    }
    if let Err(e) = facade::device_max_clock_info(0) {
        assert_failure_names(&e, Operation::DeviceMaxClockInfo);
    }
    if let Err(e) = facade::device_pcie_link_info(0) {
        assert_failure_names(&e, Operation::DevicePcieLinkInfo);
    }
    if let Err(e) = facade::device_pcie_throughput(0) {
        assert_failure_names(&e, Operation::DevicePcieThroughput);
    }
    if let Err(e) = facade::device_compute_processes_count(0) {
        assert_failure_names(&e, Operation::DeviceComputeProcessesCount);
    }
    if let Err(e) = facade::device_graphics_processes_count(0) {
        assert_failure_names(&e, Operation::DeviceGraphicsProcessesCount);
    }
}

#[test]
fn ecc_errors_never_fail_for_want_of_the_field() {
    if let Err(e) = facade::device_ecc_errors(0) {
        assert_ne!(e.kind, ErrorKind::FieldUnavailable);
        assert_failure_names(&e, Operation::DeviceEccErrors);
    }
}

#[test]
fn an_open_session_never_fails_at_the_session() {
    match Session::open(Operation::DeviceName) {
        Ok(session) => {
            if let Err(e) = session.device_name(0) {
                assert_ne!(e.kind, ErrorKind::SessionInitFailed);
            }
            if let Err(e) = session.device_ecc_errors(0) {
                assert_eq!(e.kind, ErrorKind::DeviceNotFound);
            }
            if let Err(e) = session.device_count() {
                assert_eq!(e.kind, ErrorKind::FieldUnavailable);
            }
        }
        Err(e) => {
            assert_eq!(e.kind, ErrorKind::SessionInitFailed);
            assert_failure_names(&e, Operation::DeviceName);
        }
    }
}
