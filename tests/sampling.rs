use nvml_wrapper::error::NvmlError;
use nvml_wrapper::struct_wrappers::device::{MemoryInfo, Utilization};
use nvtop::errors::ProviderError;
use nvtop::gpu::{sample_from, whole_pci_tree, RawReadings};

fn all_good() -> RawReadings {
    RawReadings {
        utilisation: Ok(Utilization { gpu: 55, memory: 20 }),
        memory: Ok(MemoryInfo { free: 4, total: 8, used: 4 }),
        temperature: Ok(72),
        fans: vec![Ok(40), Ok(60)],
        core_clock: Ok(900),
    }
}

#[test]
fn readings_become_a_sample() {
    let s = sample_from(all_good(), 1800).unwrap();
    assert_eq!(s.utilisation, 55);
    assert_eq!((s.mem_used, s.mem_total), (4, 8));
    assert_eq!(s.temperature, 72);
    assert_eq!(s.fan_speeds, vec![40, 60]);
    assert_eq!((s.core_clock, s.max_core_clock), (900, 1800));
}

#[test]
fn failed_reads_show_as_zero() {
    let raw = RawReadings {
        utilisation: Err(NvmlError::NotSupported),
        memory: Err(NvmlError::GpuLost),
        temperature: Err(NvmlError::NotSupported),
        fans: vec![Ok(40), Err(NvmlError::NotSupported), Ok(80)],
        core_clock: Ok(300),
    };
    let s = sample_from(raw, 1500).unwrap();
    assert_eq!(s.utilisation, 0);
    assert_eq!((s.mem_used, s.mem_total), (0, 0));
    assert_eq!(s.temperature, 0);
    assert_eq!(s.fan_speeds, vec![40, 0, 80]);
    assert_eq!(s.core_clock, 300);
}

#[test]
fn failed_fan_read_counts_in_the_average() {
    let raw = RawReadings { fans: vec![Ok(60), Err(NvmlError::Unknown)], ..all_good() };
    let s = sample_from(raw, 1800).unwrap();
    assert_eq!(nvtop::panels::average_fan_speed(&s.fan_speeds), 300);
}

#[test]
fn only_a_failed_core_clock_fails_the_sample() {
    let raw = RawReadings { core_clock: Err(NvmlError::Unknown), ..all_good() };
    assert!(matches!(sample_from(raw, 1800), Err(ProviderError::Other(NvmlError::Unknown))));
    let raw = RawReadings { core_clock: Err(NvmlError::GpuLost), fans: vec![], ..all_good() };
    assert!(matches!(sample_from(raw, 1800), Err(ProviderError::DeviceLost)));
}

#[test]
fn no_fans_read_gives_no_speeds() {
    let raw = RawReadings { fans: vec![], ..all_good() };
    assert!(sample_from(raw, 1800).unwrap().fan_speeds.is_empty());
}

#[test]
fn rescan_hint_covers_the_whole_tree() {
    let p = whole_pci_tree();
    assert_eq!((p.domain, p.bus, p.device, p.pci_device_id), (0, 0, 0, 0));
    assert_eq!(p.bus_id, "");
    assert_eq!(p.pci_sub_system_id, Some(0));
}
