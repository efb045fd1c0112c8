use nvml_wrapper::error::NvmlError;
use vstd::prelude::*;

verus! {

/// The device-management library's error, carried through as it is.
#[verifier::external_type_specification]
#[verifier::external_body]
pub struct ExNvmlError(NvmlError);

/// std's I/O error, carried through as it is.
#[verifier::external_type_specification]
#[verifier::external_body]
pub struct ExIoError(std::io::Error);

/// A failure reported by the device-management layer, sorted by what
/// discovery does with it.
#[derive(Debug)]
pub enum ProviderError {
    /// External power cables are not properly attached.
    InsufficientPower,
    /// The user may not talk to this device.
    NoPermission,
    /// The kernel driver saw an interrupt issue with the device.
    IrqIssue,
    /// The device fell off the bus or is otherwise unreachable.
    DeviceLost,
    /// The operating system denied the request.
    OperatingSystem,
    /// Anything else.
    Other(NvmlError),
}

impl ProviderError {
    /// The errors that discovery logs and skips rather than stopping on.
    pub open spec fn is_recoverable(&self) -> bool {
        match self {
            ProviderError::InsufficientPower => true,
            ProviderError::NoPermission => true,
            ProviderError::IrqIssue => true,
            ProviderError::DeviceLost => true,
            _ => false,
        }
    }

    pub fn recoverable(&self) -> (r: bool)
        ensures
            r == self.is_recoverable(),
    {
        match self {
            ProviderError::InsufficientPower => true,
            ProviderError::NoPermission => true,
            ProviderError::IrqIssue => true,
            ProviderError::DeviceLost => true,
            _ => false,
        }
    }

    /// A short name of the error kind, for log lines.
    pub fn kind_name(&self) -> (s: &'static str)
        ensures
            s@ == self.spec_kind_name(),
    {
        match self {
            ProviderError::InsufficientPower => "InsufficientPower",
            ProviderError::NoPermission => "NoPermission",
            ProviderError::IrqIssue => "IrqIssue",
            ProviderError::DeviceLost => "GpuLost",
            ProviderError::OperatingSystem => "OperatingSystem",
            ProviderError::Other(_) => "Other",
        }
    }

    pub open spec fn spec_kind_name(&self) -> Seq<char> {
        match self {
            ProviderError::InsufficientPower => "InsufficientPower"@,
            ProviderError::NoPermission => "NoPermission"@,
            ProviderError::IrqIssue => "IrqIssue"@,
            ProviderError::DeviceLost => "GpuLost"@,
            ProviderError::OperatingSystem => "OperatingSystem"@,
            ProviderError::Other(_) => "Other"@,
        }
    }
}

/// The errors that end the dashboard.
#[derive(Debug)]
pub enum NvTopError {
    /// A provider error that discovery or drawing could not absorb.
    Nvml(ProviderError),
    /// A terminal or file failure.
    Io(std::io::Error),
    /// Discovery finished without a single usable device.
    NoCompatibleDevice,
}

impl NvTopError {
    /// The error that ends the dashboard when the device-management library
    /// fails: the library's error, sorted by kind.
    pub fn from_nvml(e: NvmlError) -> (r: NvTopError)
        ensures
            r matches NvTopError::Nvml(p) && (p matches ProviderError::Other(inner) ==> inner == e),
    {
        NvTopError::Nvml(provider_error(e))
    }
}

/// Relies on the variants of `NvmlError`: each kind that the dashboard treats
/// apart is moved to the variant of the same meaning, and any other error is
/// kept whole under `Other`.
#[verifier::external_body]
pub(crate) fn provider_error(e: NvmlError) -> (r: ProviderError)
    ensures
        r matches ProviderError::Other(inner) ==> inner == e,
{
    match e {
        NvmlError::InsufficientPower => ProviderError::InsufficientPower,
        NvmlError::NoPermission => ProviderError::NoPermission,
        NvmlError::IrqIssue => ProviderError::IrqIssue,
        NvmlError::GpuLost => ProviderError::DeviceLost,
        NvmlError::OperatingSystem => ProviderError::OperatingSystem,
        other => ProviderError::Other(other),
    }
}

} // verus!
