use nvml_wrapper::enum_wrappers::device::{Clock, ClockId, TemperatureSensor};
use nvml_wrapper::error::NvmlError;
use nvml_wrapper::struct_wrappers::device::{MemoryInfo, PciInfo, Utilization};
use nvml_wrapper::Device;
use vstd::prelude::*;

verus! {

/// The device-management library's handle.
#[verifier::external_type_specification]
#[verifier::external_body]
pub struct ExNvml(nvml_wrapper::Nvml);

/// A handle of one device, valid while the library handle lives.
#[verifier::external_type_specification]
#[verifier::external_body]
pub struct ExDevice<'nvml>(Device<'nvml>);

/// A clock domain.
#[verifier::external_type_specification]
pub struct ExClock(Clock);

/// Which value of a clock domain.
#[verifier::external_type_specification]
pub struct ExClockId(ClockId);

/// A temperature sensor.
#[verifier::external_type_specification]
pub struct ExTemperatureSensor(TemperatureSensor);

/// Memory figures in bytes: free, total and used.
#[verifier::external_type_specification]
pub struct ExMemoryInfo(MemoryInfo);

/// Utilisation figures in percent.
#[verifier::external_type_specification]
pub struct ExUtilization(Utilization);

/// A PCI location.
#[verifier::external_type_specification]
pub struct ExPciInfo(PciInfo);

/// Relies on `Nvml::device_count`: the number of devices, which depends on the machine.
pub assume_specification[ nvml_wrapper::Nvml::device_count ](lib: &nvml_wrapper::Nvml) -> Result<u32, NvmlError>;

/// Relies on `Nvml::device_by_index`: the handle of one device, or why it cannot be had.
pub assume_specification[ nvml_wrapper::Nvml::device_by_index ](lib: &nvml_wrapper::Nvml, index: u32) -> Result<Device<'_>, NvmlError>;

/// Relies on `Nvml::discover_gpus`: asks the driver to rescan the PCI tree.
pub assume_specification[ nvml_wrapper::Nvml::discover_gpus ](lib: &nvml_wrapper::Nvml, pci_info: PciInfo) -> Result<(), NvmlError>;

/// Relies on `Nvml::sys_driver_version`: the graphics driver's version string.
pub assume_specification[ nvml_wrapper::Nvml::sys_driver_version ](lib: &nvml_wrapper::Nvml) -> Result<String, NvmlError>;

/// Relies on `Nvml::sys_cuda_driver_version`: the CUDA driver version as one number.
pub assume_specification[ nvml_wrapper::Nvml::sys_cuda_driver_version ](lib: &nvml_wrapper::Nvml) -> Result<i32, NvmlError>;

/// Relies on `Device::nvml`: the library handle the device came from.
pub assume_specification<'nvml>[ Device::<'nvml>::nvml ](device: &Device<'nvml>) -> &'nvml nvml_wrapper::Nvml;

/// Relies on `Device::max_clock_info`: the maximum of a clock domain, in MHz.
pub assume_specification<'nvml>[ Device::<'nvml>::max_clock_info ](device: &Device<'nvml>, clock_type: Clock) -> Result<u32, NvmlError>;

/// Relies on `Device::num_cores`: the device's core count.
pub assume_specification<'nvml>[ Device::<'nvml>::num_cores ](device: &Device<'nvml>) -> Result<u32, NvmlError>;

/// Relies on `Device::utilization_rates`: recent core and memory utilisation, in percent.
pub assume_specification<'nvml>[ Device::<'nvml>::utilization_rates ](device: &Device<'nvml>) -> Result<Utilization, NvmlError>;

/// Relies on `Device::memory_info`: free, total and used memory, in bytes.
pub assume_specification<'nvml>[ Device::<'nvml>::memory_info ](device: &Device<'nvml>) -> Result<MemoryInfo, NvmlError>;

/// Relies on `Device::temperature`: a sensor's reading, in degrees Celsius.
pub assume_specification<'nvml>[ Device::<'nvml>::temperature ](device: &Device<'nvml>, sensor: TemperatureSensor) -> Result<u32, NvmlError>;

/// Relies on `Device::num_fans`: how many fans the device has.
pub assume_specification<'nvml>[ Device::<'nvml>::num_fans ](device: &Device<'nvml>) -> Result<u32, NvmlError>;

/// Relies on `Device::fan_speed`: one fan's speed, in percent.
pub assume_specification<'nvml>[ Device::<'nvml>::fan_speed ](device: &Device<'nvml>, fan_idx: u32) -> Result<u32, NvmlError>;

/// Relies on `Device::clock`: one clock of a domain, in MHz.
pub assume_specification<'nvml>[ Device::<'nvml>::clock ](device: &Device<'nvml>, clock_type: Clock, clock_id: ClockId) -> Result<u32, NvmlError>;

/// Relies on `Device::brand` and the derived `Debug` of `Brand`: the brand's name.
#[verifier::external_body]
pub(crate) fn brand_name(device: &Device<'_>) -> Result<String, NvmlError> {
    device.brand().map(|brand| format!("{:?}", brand))
}

} // verus!
