use nvml_wrapper::error::NvmlError;
use nvtop::errors::{NvTopError, ProviderError};
use nvtop::gpu::{absorb, collect_devices, describe_card, rescan_hint_outcome};
use nvtop::termite::LoggingHandle;

#[test]
fn recoverable_failures_are_skipped_in_order() {
    let lh = LoggingHandle::empty();
    let probes: Vec<Result<u32, ProviderError>> = vec![
        Ok(10),
        Err(ProviderError::InsufficientPower),
        Ok(12),
        Err(ProviderError::IrqIssue),
        Ok(14),
        Ok(15),
    ];
    match collect_devices(probes, &lh) {
        Ok(found) => assert_eq!(found, vec![10, 12, 14, 15]),
        Err(e) => panic!("unexpected {:?}", e),
    }
}

#[test]
fn every_recoverable_kind_is_skipped() {
    let lh = LoggingHandle::empty();
    let probes: Vec<Result<&str, ProviderError>> = vec![
        Err(ProviderError::NoPermission),
        Ok("a"),
        Err(ProviderError::DeviceLost),
        Ok("b"),
    ];
    assert_eq!(collect_devices(probes, &lh).unwrap(), vec!["a", "b"]);
}

#[test]
fn only_recoverable_failures_find_nothing() {
    let lh = LoggingHandle::empty();
    let probes: Vec<Result<u32, ProviderError>> = vec![
        Err(ProviderError::InsufficientPower),
        Err(ProviderError::NoPermission),
        Err(ProviderError::IrqIssue),
        Err(ProviderError::DeviceLost),
    ];
    assert!(matches!(collect_devices(probes, &lh), Err(NvTopError::NoCompatibleDevice)));
}

#[test]
fn no_devices_find_nothing() {
    let lh = LoggingHandle::empty();
    let probes: Vec<Result<u32, ProviderError>> = vec![];
    assert!(matches!(collect_devices(probes, &lh), Err(NvTopError::NoCompatibleDevice)));
}

#[test]
fn first_fatal_error_ends_discovery() {
    let lh = LoggingHandle::empty();
    let probes: Vec<Result<u32, ProviderError>> = vec![
        Ok(0),
        Err(ProviderError::NoPermission),
        Err(ProviderError::Other(NvmlError::Unknown)),
        Err(ProviderError::OperatingSystem),
        Ok(4),
    ];
    match collect_devices(probes, &lh) {
        Err(NvTopError::Nvml(ProviderError::Other(NvmlError::Unknown))) => {}
        other => panic!("unexpected {:?}", other),
    }
}

#[test]
fn operating_system_refusal_is_fatal_in_discovery() {
    let lh = LoggingHandle::empty();
    let probes: Vec<Result<u32, ProviderError>> = vec![Ok(0), Err(ProviderError::OperatingSystem)];
    assert!(matches!(
        collect_devices(probes, &lh),
        Err(NvTopError::Nvml(ProviderError::OperatingSystem))
    ));
}

#[test]
fn absorbing_one_outcome() {
    let lh = LoggingHandle::empty();
    let mut found: Vec<u32> = vec![1];
    assert!(absorb(&mut found, 1, Ok(2), &lh).is_ok());
    assert_eq!(found, vec![1, 2]);
    assert!(absorb(&mut found, 2, Err(ProviderError::DeviceLost), &lh).is_ok());
    assert_eq!(found, vec![1, 2]);
    let r = absorb(&mut found, 3, Err(ProviderError::Other(NvmlError::NotFound)), &lh);
    assert!(matches!(r, Err(ProviderError::Other(NvmlError::NotFound))));
    assert_eq!(found, vec![1, 2]);
}

fn sorted(e: NvmlError) -> ProviderError {
    match NvTopError::from_nvml(e) {
        NvTopError::Nvml(p) => p,
        other => panic!("unexpected {:?}", other),
    }
}

#[test]
fn library_errors_are_sorted() {
    assert!(matches!(sorted(NvmlError::InsufficientPower), ProviderError::InsufficientPower));
    assert!(matches!(sorted(NvmlError::NoPermission), ProviderError::NoPermission));
    assert!(matches!(sorted(NvmlError::IrqIssue), ProviderError::IrqIssue));
    assert!(matches!(sorted(NvmlError::GpuLost), ProviderError::DeviceLost));
    assert!(matches!(sorted(NvmlError::OperatingSystem), ProviderError::OperatingSystem));
    assert!(matches!(sorted(NvmlError::InvalidArg), ProviderError::Other(NvmlError::InvalidArg)));
    assert!(sorted(NvmlError::GpuLost).recoverable());
    assert!(!sorted(NvmlError::OperatingSystem).recoverable());
    assert!(!sorted(NvmlError::Unknown).recoverable());
}

#[test]
fn rescan_hint_refusals() {
    let lh = LoggingHandle::empty();
    assert!(rescan_hint_outcome(Ok(()), &lh).is_ok());
    assert!(rescan_hint_outcome(Err(ProviderError::OperatingSystem), &lh).is_ok());
    assert!(rescan_hint_outcome(Err(ProviderError::NoPermission), &lh).is_ok());
    assert!(matches!(
        rescan_hint_outcome(Err(ProviderError::Other(NvmlError::Unknown)), &lh),
        Err(ProviderError::Other(NvmlError::Unknown))
    ));
    assert!(matches!(
        rescan_hint_outcome(Err(ProviderError::DeviceLost), &lh),
        Err(ProviderError::DeviceLost)
    ));
}

#[test]
fn card_description() {
    assert_eq!(
        describe_card("GeForce", "535.104.05", 12020),
        "Card: \"GeForce\"    Driver Version: 535.104.05    CUDA Version: 12.02"
    );
    assert_eq!(
        describe_card("Tesla", "470", 11000),
        "Card: \"Tesla\"    Driver Version: 470    CUDA Version: 11"
    );
    assert_eq!(describe_card("", "", -1500), "Card: \"\"    Driver Version:     CUDA Version: -1.5");
}
