use crate::errors::{provider_error, NvTopError, ProviderError};
use crate::numfmt::{push_decimal, push_thousandths, thousandths};
use crate::panels::{build_panels, panels_show_values, MetricSample, Panels};
use crate::provider::brand_name;
use crate::termite::LoggingHandle;
use nvml_wrapper::enum_wrappers::device::{Clock, ClockId, TemperatureSensor};
use nvml_wrapper::error::NvmlError;
use nvml_wrapper::struct_wrappers::device::{MemoryInfo, PciInfo, Utilization};
use nvml_wrapper::Device;
use vstd::prelude::*;
use vstd::string::StringExecFns;

verus! {

/// One discovered device: its index in this discovery, its live handle, and
/// the properties that never change, read once when it was found.
#[derive(Debug)]
pub struct GpuInfo<'d> {
    pub index: u32,
    pub inner: Device<'d>,
    pub max_memory_clock: u32,
    pub max_core_clock: u32,
    pub card_type: String,
    pub driver_version: String,
    /// The CUDA driver version as reported: 1000 times the major version
    /// plus 10 times the minor one.
    pub cuda_version: i32,
    pub misc: String,
    pub num_cores: u32,
}

/// A CUDA driver version number in its usual notation (`12020` is `12.02`).
pub open spec fn cuda_version_text(v: int) -> Seq<char> {
    if v < 0 {
        "-"@ + thousandths((-v) as nat)
    } else {
        thousandths(v as nat)
    }
}

/// The text block that describes a card.
pub open spec fn misc_text(card: Seq<char>, driver: Seq<char>, cuda: int) -> Seq<char> {
    "Card: \""@ + card + "\"    Driver Version: "@ + driver + "    CUDA Version: "@ + cuda_version_text(cuda)
}

/// Writes the text block that describes a card.
pub fn describe_card(card: &str, driver: &str, cuda: i32) -> (s: String)
    ensures
        s@ == misc_text(card@, driver@, cuda as int),
{
    let mut s = String::from_str("Card: \"");
    s.append(card);
    s.append("\"    Driver Version: ");
    s.append(driver);
    s.append("    CUDA Version: ");
    if cuda < 0 {
        s.append("-");
        let magnitude: i64 = -(cuda as i64);
        push_thousandths(&mut s, magnitude as u64);
    } else {
        push_thousandths(&mut s, cuda as u64);
    }
    s
}

impl<'d> GpuInfo<'d> {
    /// The text block agrees with the cached properties.
    pub open spec fn wf(&self) -> bool {
        self.misc@ == misc_text(self.card_type@, self.driver_version@, self.cuda_version as int)
    }

    /// Reads the properties of a device that do not change, once.
    pub fn from_device(index: u32, device: Device<'d>) -> (r: Result<Self, NvmlError>)
        ensures
            r matches Ok(g) ==> g.index == index && g.inner == device && g.wf(),
    {
        let card_type = brand_name(&device)?;
        let driver_version = device.nvml().sys_driver_version()?;
        let cuda_version = device.nvml().sys_cuda_driver_version()?;
        let misc = describe_card(card_type.as_str(), driver_version.as_str(), cuda_version);
        let max_memory_clock = device.max_clock_info(Clock::Memory)?;
        let max_core_clock = device.max_clock_info(Clock::Graphics)?;
        let num_cores = device.num_cores()?;
        Ok(GpuInfo {
            index,
            inner: device,
            max_memory_clock,
            max_core_clock,
            card_type,
            driver_version,
            cuda_version,
            misc,
            num_cores,
        })
    }
}

/// What discovery makes of the outcomes of acquiring each device, in index
/// order: the devices acquired, skipping recoverable errors, or the first
/// error that is not recoverable.
pub open spec fn scan<D>(probes: Seq<Result<D, ProviderError>>) -> Result<Seq<D>, ProviderError>
    decreases probes.len(),
{
    if probes.len() == 0 {
        Ok(Seq::empty())
    } else {
        match probes[0] {
            Ok(d) => prepend(seq![d], scan(probes.drop_first())),
            Err(e) => if e.is_recoverable() {
                scan(probes.drop_first())
            } else {
                Err(e)
            },
        }
    }
}

/// `found` followed by what a later part of a scan gave.
pub open spec fn prepend<D>(found: Seq<D>, rest: Result<Seq<D>, ProviderError>) -> Result<Seq<D>, ProviderError> {
    match rest {
        Ok(s) => Ok(found + s),
        Err(e) => Err(e),
    }
}

/// Discovery's result for these outcomes: the devices in index order, the
/// first unrecoverable error, or `NoCompatibleDevice` when none was acquired.
pub open spec fn discovery_matches<D>(
    probes: Seq<Result<D, ProviderError>>,
    r: Result<Seq<D>, NvTopError>,
) -> bool {
    match scan(probes) {
        Ok(found) => if found.len() == 0 {
            r matches Err(NvTopError::NoCompatibleDevice)
        } else {
            r == Ok::<Seq<D>, NvTopError>(found)
        },
        Err(e) => r == Err::<Seq<D>, NvTopError>(NvTopError::Nvml(e)),
    }
}

/// The devices of a finished scan, or `NoCompatibleDevice` when there are none.
pub open spec fn finished<D>(r: Result<Vec<D>, NvTopError>) -> Result<Seq<D>, NvTopError> {
    match r {
        Ok(v) => Ok(v@),
        Err(e) => Err(e),
    }
}

fn failure_message(index: u64, e: &ProviderError) -> String {
    let mut msg = String::from_str("Failed to init device [");
    push_decimal(&mut msg, index);
    msg.append("]: ");
    msg.append(e.kind_name());
    msg
}

/// Takes the outcome of acquiring the device at `index` into the devices
/// found so far: a device is kept, a recoverable error is logged and
/// skipped, any other error is handed back.
pub fn absorb<D>(
    found: &mut Vec<D>,
    index: u64,
    probe: Result<D, ProviderError>,
    lh: &LoggingHandle,
) -> (r: Result<(), ProviderError>)
    ensures
        match probe {
            Ok(d) => final(found)@ == old(found)@.push(d) && r is Ok,
            Err(e) => final(found)@ == old(found)@ && if e.is_recoverable() {
                r is Ok
            } else {
                r == Err::<(), ProviderError>(e)
            },
        },
{
    match probe {
        Ok(d) => {
            found.push(d);
            Ok(())
        },
        Err(e) => {
            if e.recoverable() {
                lh.error(failure_message(index, &e).as_str());
                Ok(())
            } else {
                Err(e)
            }
        },
    }
}

/// Discovery over the outcomes of acquiring each device, given in index order.
pub fn collect_devices<D>(probes: Vec<Result<D, ProviderError>>, lh: &LoggingHandle) -> (r: Result<Vec<D>, NvTopError>)
    ensures
        discovery_matches(probes@, finished(r)),
{
    let ghost all = probes@;
    let mut rest = probes;
    let mut found: Vec<D> = Vec::new();
    let mut index: usize = 0;
    assert(all.len() == rest.len());
    proof {
        if let Ok(s) = scan(all) {
            assert(found@ + s =~= s);
        }
    }
    while rest.len() > 0
        invariant
            scan(all) == prepend(found@, scan(rest@)),
            index + rest.len() == all.len(),
            all.len() <= usize::MAX,
            all == probes@,
        decreases rest.len(),
    {
        let ghost before = rest@;
        let ghost found_before = found@;
        let probe = rest.remove(0);
        assert(rest@ =~= before.drop_first());
        match absorb(&mut found, index as u64, probe, lh) {
            Ok(()) => {
                proof {
                    if let Ok(d) = before[0] {
                        lemma_prepend_push(found_before, d, scan(rest@));
                    }
                }
            },
            Err(e) => {
                assert(scan(before) == Err::<Seq<D>, ProviderError>(e));
                return Err(NvTopError::Nvml(e));
            },
        }
        index = index + 1;
    }
    assert(found@ + Seq::<D>::empty() =~= found@);
    if found.len() == 0 {
        Err(NvTopError::NoCompatibleDevice)
    } else {
        Ok(found)
    }
}

proof fn lemma_prepend_push<D>(found: Seq<D>, d: D, rest: Result<Seq<D>, ProviderError>)
    ensures
        prepend(found, prepend(seq![d], rest)) == prepend(found.push(d), rest),
{
    if let Ok(s) = rest {
        assert(found + (seq![d] + s) =~= found.push(d) + s);
    }
}

/// The guarantees of a device list that discovery hands out: not empty,
/// each entry's text block agrees with its properties, and indices strictly
/// increase.
pub open spec fn is_device_list(list: Seq<GpuInfo<'_>>) -> bool {
    &&& list.len() > 0
    &&& forall|j: int| 0 <= j < list.len() ==> (#[trigger] list[j]).wf()
    &&& forall|j: int, k: int| 0 <= j < k < list.len() ==> list[j].index < list[k].index
}

/// Outcomes of acquiring devices `0, 1, ...` in turn: each device acquired
/// carries its own index and consistent properties.
pub open spec fn indexed_probes(probes: Seq<Result<GpuInfo<'_>, ProviderError>>) -> bool {
    forall|k: int|
        0 <= k < probes.len() ==> (#[trigger] probes[k] matches Ok(g) ==> g.index == k && g.wf())
}

/// A scan over outcomes whose devices carry the indices `base, base + 1, ...`
/// finds devices with consistent properties and increasing indices, none below `base`.
proof fn lemma_scan_keeps_index_order(probes: Seq<Result<GpuInfo<'_>, ProviderError>>, base: int)
    requires
        forall|k: int|
            0 <= k < probes.len() ==> (#[trigger] probes[k] matches Ok(g) ==> g.index == base + k && g.wf()),
    ensures
        scan(probes) matches Ok(found) ==> {
            &&& forall|j: int| 0 <= j < found.len() ==> (#[trigger] found[j]).wf() && found[j].index >= base
            &&& forall|j: int, k: int| 0 <= j < k < found.len() ==> found[j].index < found[k].index
        },
    decreases probes.len(),
{
    if probes.len() > 0 {
        let rest = probes.drop_first();
        assert forall|k: int| 0 <= k < rest.len() implies (#[trigger] rest[k] matches Ok(g) ==> g.index == (base + 1)
            + k && g.wf()) by {
            assert(rest[k] == probes[k + 1]);
        }
        lemma_scan_keeps_index_order(rest, base + 1);
        if let Ok(d) = probes[0] {
            if let Ok(later) = scan(rest) {
                let found = seq![d] + later;
                assert forall|j: int| 0 <= j < found.len() implies (#[trigger] found[j]).wf() && found[j].index
                    >= base by {
                    if j > 0 {
                        assert(found[j] == later[j - 1]);
                    }
                }
                assert forall|j: int, k: int| 0 <= j < k < found.len() implies found[j].index
                    < found[k].index by {
                    assert(found[k] == later[k - 1]);
                    if j > 0 {
                        assert(found[j] == later[j - 1]);
                    }
                }
            }
        }
    }
}

/// Acquires the device at `index` and reads its properties: the device, or
/// why it could not be had. A failure while reading the properties is never
/// recoverable.
fn probe_device<'n>(nvml: &'n nvml_wrapper::Nvml, index: u32, lh: &LoggingHandle) -> (r: Result<GpuInfo<'n>, ProviderError>)
    ensures
        r matches Ok(g) ==> g.index == index && g.wf(),
{
    match nvml.device_by_index(index) {
        Ok(device) => match GpuInfo::from_device(index, device) {
            Ok(gpu) => {
                let mut msg = String::from_str("Compatible GPU found at [");
                push_decimal(&mut msg, index as u64);
                msg.append("]: ");
                msg.append(gpu.misc.as_str());
                lh.info(msg.as_str());
                Ok(gpu)
            },
            Err(e) => Err(ProviderError::Other(e)),
        },
        Err(e) => Err(provider_error(e)),
    }
}

/// Acquires every device the library reports, in index order, and hands
/// the outcomes to discovery (`collect_devices`): a device that cannot be
/// acquired for a recoverable reason is logged and skipped; any other
/// failure, including one while reading a device's properties, ends
/// discovery and no later index is tried. Finding no device at all is
/// `NoCompatibleDevice`. The only other error is a failure to count devices.
pub fn try_init_gpus<'n>(nvml: &'n nvml_wrapper::Nvml, lh: &LoggingHandle) -> (r: Result<Vec<GpuInfo<'n>>, NvTopError>)
    ensures
        r matches Ok(list) ==> is_device_list(list@),
        r matches Err(e) ==> (e is Nvml || e is NoCompatibleDevice),
        (r matches Err(NvTopError::Nvml(_))) || exists|probes: Seq<Result<GpuInfo<'n>, ProviderError>>|
            #[trigger] indexed_probes(probes) && discovery_matches(probes, finished(r)),
{
    let count = match nvml.device_count() {
        Ok(count) => count,
        Err(e) => return Err(NvTopError::from_nvml(e)),
    };
    let mut probes: Vec<Result<GpuInfo<'n>, ProviderError>> = Vec::new();
    let mut i: u32 = 0;
    while i < count
        invariant
            probes.len() == i,
            indexed_probes(probes@),
        decreases count - i,
    {
        let probe = probe_device(nvml, i, lh);
        let fatal = match &probe {
            Ok(_) => false,
            Err(e) => !e.recoverable(),
        };
        let ghost before = probes@;
        probes.push(probe);
        assert(indexed_probes(probes@)) by {
            assert forall|k: int| 0 <= k < probes@.len() implies (#[trigger] probes@[k] matches Ok(g) ==> g.index
                == k && g.wf()) by {
                if k < i {
                    assert(probes@[k] == before[k]);
                }
            }
        }
        i = i + 1;
        if fatal {
            break;
        }
    }
    let ghost outcomes = probes@;
    let r = collect_devices(probes, lh);
    proof {
        lemma_scan_keeps_index_order(outcomes, 0);
    }
    r
}

/// A failed rescan hint that is only logged: the operating system or the
/// user's permissions refused it.
pub open spec fn hint_failure_tolerated(e: ProviderError) -> bool {
    e is OperatingSystem || e is NoPermission
}

/// What the outcome of a rescan hint means for the rescan: success and a
/// tolerated refusal let it go on, any other error ends it.
pub fn rescan_hint_outcome(hint: Result<(), ProviderError>, lh: &LoggingHandle) -> (r: Result<(), ProviderError>)
    ensures
        match hint {
            Ok(()) => r is Ok,
            Err(e) => if hint_failure_tolerated(e) {
                r is Ok
            } else {
                r == Err::<(), ProviderError>(e)
            },
        },
{
    match hint {
        Ok(()) => {
            lh.debug("Re-scanned PCI tree");
            Ok(())
        },
        Err(e) => {
            if matches!(e, ProviderError::OperatingSystem | ProviderError::NoPermission) {
                let mut msg = String::from_str("Failed to re-scan PCI tree: ");
                msg.append(e.kind_name());
                lh.debug(msg.as_str());
                Ok(())
            } else {
                Err(e)
            }
        },
    }
}

/// The PCI location that asks for the whole tree: domain, bus and device all 0.
pub fn whole_pci_tree() -> (p: PciInfo)
    ensures
        p.bus == 0,
        p.bus_id@.len() == 0,
        p.device == 0,
        p.domain == 0,
        p.pci_device_id == 0,
        p.pci_sub_system_id == Some(0u32),
{
    PciInfo {
        bus: 0,
        bus_id: String::new(),
        device: 0,
        domain: 0,
        pci_device_id: 0,
        pci_sub_system_id: Some(0),
    }
}

/// Asks the driver to look for devices on the whole PCI tree, then runs
/// discovery again. A refusal by the operating system or for permissions is
/// logged and ignored; any other hint failure ends the rescan. The new list
/// replaces the old one wholesale.
pub fn rescan<'n>(nvml: &'n nvml_wrapper::Nvml, lh: &LoggingHandle) -> (r: Result<Vec<GpuInfo<'n>>, NvTopError>)
    ensures
        r matches Ok(list) ==> is_device_list(list@),
        r matches Err(e) ==> (e is Nvml || e is NoCompatibleDevice),
        (r matches Err(NvTopError::Nvml(_))) || exists|probes: Seq<Result<GpuInfo<'n>, ProviderError>>|
            #[trigger] indexed_probes(probes) && discovery_matches(probes, finished(r)),
{
    let hint = match nvml.discover_gpus(whole_pci_tree()) {
        Ok(()) => Ok(()),
        Err(e) => Err(provider_error(e)),
    };
    match rescan_hint_outcome(hint, lh) {
        Ok(()) => {},
        Err(e) => return Err(NvTopError::Nvml(e)),
    }
    try_init_gpus(nvml, lh)
}

/// The raw results of one round of metric reads, as the library gave them.
pub struct RawReadings {
    pub utilisation: Result<Utilization, NvmlError>,
    pub memory: Result<MemoryInfo, NvmlError>,
    pub temperature: Result<u32, NvmlError>,
    /// One result per fan, fans `0, 1, ...` in order.
    pub fans: Vec<Result<u32, NvmlError>>,
    pub core_clock: Result<u32, NvmlError>,
}

/// A reading, or 0 when it failed.
pub open spec fn or_zero(r: Result<u32, NvmlError>) -> u32 {
    match r {
        Ok(v) => v,
        Err(_) => 0,
    }
}

pub open spec fn utilisation_shown(raw: RawReadings) -> u32 {
    match raw.utilisation {
        Ok(u) => u.gpu,
        Err(_) => 0,
    }
}

pub open spec fn mem_used_shown(raw: RawReadings) -> u64 {
    match raw.memory {
        Ok(m) => m.used,
        Err(_) => 0,
    }
}

pub open spec fn mem_total_shown(raw: RawReadings) -> u64 {
    match raw.memory {
        Ok(m) => m.total,
        Err(_) => 0,
    }
}

/// The fan speeds shown: each fan's reading, or 0 when it failed.
pub open spec fn fan_speeds_shown(raw: RawReadings) -> Seq<u32> {
    raw.fans@.map_values(|f: Result<u32, NvmlError>| or_zero(f))
}

/// `r` is the sample made of these readings: a failed read shows as 0 and
/// only a failed core clock read fails the sample, with that read's error.
pub open spec fn sample_matches(raw: RawReadings, max_core_clock: u32, r: Result<MetricSample, ProviderError>) -> bool {
    &&& (r is Ok <==> raw.core_clock is Ok)
    &&& r matches Ok(s) ==> {
        &&& s.utilisation == utilisation_shown(raw)
        &&& s.mem_used == mem_used_shown(raw)
        &&& s.mem_total == mem_total_shown(raw)
        &&& s.temperature == or_zero(raw.temperature)
        &&& s.fan_speeds@ == fan_speeds_shown(raw)
        &&& s.core_clock == raw.core_clock->Ok_0
        &&& s.max_core_clock == max_core_clock
    }
    &&& r matches Err(pe) ==> (pe matches ProviderError::Other(inner) ==> inner == raw.core_clock->Err_0)
}

/// Makes a sample of one round of reads: failed reads show as 0, and only a
/// failed core clock read is an error.
pub fn sample_from(raw: RawReadings, max_core_clock: u32) -> (r: Result<MetricSample, ProviderError>)
    requires
        raw.fans.len() <= u32::MAX,
    ensures
        sample_matches(raw, max_core_clock, r),
        r matches Ok(s) ==> s.wf(),
{
    let ghost given = raw;
    let RawReadings { utilisation, memory, temperature, fans, core_clock } = raw;
    let core_clock = match core_clock {
        Ok(c) => c,
        Err(e) => return Err(provider_error(e)),
    };
    let utilisation = match utilisation {
        Ok(u) => u.gpu,
        Err(_) => 0,
    };
    let (mem_used, mem_total) = match memory {
        Ok(m) => (m.used, m.total),
        Err(_) => (0, 0),
    };
    let temperature = match temperature {
        Ok(t) => t,
        Err(_) => 0,
    };
    let mut fan_speeds: Vec<u32> = Vec::new();
    let mut f: usize = 0;
    while f < fans.len()
        invariant
            f <= fans.len(),
            fans@ == given.fans@,
            fan_speeds@ == fan_speeds_shown(given).take(f as int),
        decreases fans.len() - f,
    {
        let speed = match &fans[f] {
            Ok(speed) => *speed,
            Err(_) => 0,
        };
        fan_speeds.push(speed);
        f = f + 1;
        assert(fan_speeds@ =~= fan_speeds_shown(given).take(f as int));
    }
    assert(fan_speeds@ =~= fan_speeds_shown(given));
    Ok(MetricSample { utilisation, mem_used, mem_total, temperature, fan_speeds, core_clock, max_core_clock })
}

impl<'d> GpuInfo<'d> {
    /// Reads every live metric once (fans `0..n` for the `n` fans reported,
    /// none when the count cannot be read) and makes a sample of them with
    /// `sample_from`.
    pub fn read_sample(&self) -> (r: Result<MetricSample, ProviderError>)
        ensures
            exists|raw: RawReadings| #[trigger] sample_matches(raw, self.max_core_clock, r),
            r matches Ok(s) ==> s.wf(),
    {
        let utilisation = self.inner.utilization_rates();
        let memory = self.inner.memory_info();
        let temperature = self.inner.temperature(TemperatureSensor::Gpu);
        let count = match self.inner.num_fans() {
            Ok(n) => n,
            Err(_) => 0,
        };
        let mut fans: Vec<Result<u32, NvmlError>> = Vec::new();
        let mut f: u32 = 0;
        while f < count
            invariant
                fans.len() == f,
                f <= count,
            decreases count - f,
        {
            fans.push(self.inner.fan_speed(f));
            f = f + 1;
        }
        let core_clock = self.inner.clock(Clock::Graphics, ClockId::Current);
        let raw = RawReadings { utilisation, memory, temperature, fans, core_clock };
        let ghost given = raw;
        let r = sample_from(raw, self.max_core_clock);
        assert(sample_matches(given, self.max_core_clock, r));
        r
    }
}

/// `r` is the frame made of these readings with the text `misc`: failed
/// reads show as 0, and only a failed core clock read fails the frame.
pub open spec fn frame_matches(raw: RawReadings, max_core_clock: u32, misc: Seq<char>, r: Result<Panels, NvTopError>) -> bool {
    &&& (r is Ok <==> raw.core_clock is Ok)
    &&& r matches Ok(p) ==> panels_show_values(
        p,
        utilisation_shown(raw),
        mem_used_shown(raw),
        mem_total_shown(raw),
        or_zero(raw.temperature),
        fan_speeds_shown(raw),
        raw.core_clock->Ok_0,
        max_core_clock,
        misc,
    )
    &&& r matches Err(e) ==> (e matches NvTopError::Nvml(pe) && (pe matches ProviderError::Other(inner) ==> inner
        == raw.core_clock->Err_0))
}

/// Builds one frame for a device from fresh readings. Failed readings show
/// as 0; only a failed core clock reading fails the frame.
pub fn render(gpu: &GpuInfo<'_>) -> (r: Result<Panels, NvTopError>)
    ensures
        exists|raw: RawReadings| #[trigger] frame_matches(raw, gpu.max_core_clock, gpu.misc@, r),
{
    let sampled = gpu.read_sample();
    let ghost raw = choose|raw: RawReadings| #[trigger] sample_matches(raw, gpu.max_core_clock, sampled);
    match sampled {
        Ok(sample) => {
            let p = build_panels(&sample, gpu.misc.as_str());
            assert(frame_matches(raw, gpu.max_core_clock, gpu.misc@, Ok::<Panels, NvTopError>(p)));
            Ok(p)
        },
        Err(e) => {
            let r = Err(NvTopError::Nvml(e));
            assert(frame_matches(raw, gpu.max_core_clock, gpu.misc@, r));
            r
        },
    }
}

/// The outcome is an error that discovery skips.
pub open spec fn is_recoverable_failure<D>(probe: Result<D, ProviderError>) -> bool {
    probe matches Err(e) && e.is_recoverable()
}

/// The device of an outcome known to be `Ok`.
pub open spec fn acquired<D>(probe: Result<D, ProviderError>) -> D {
    probe->Ok_0
}

/// Dropping an outcome that is a recoverable error does not change what a
/// scan finds.
proof fn lemma_scan_without_recoverable<D>(probes: Seq<Result<D, ProviderError>>, i: int)
    requires
        0 <= i < probes.len(),
        is_recoverable_failure(probes[i]),
    ensures
        scan(probes) == scan(probes.remove(i)),
    decreases i,
{
    if i == 0 {
        assert(probes.remove(0) =~= probes.drop_first());
    } else {
        let shorter = probes.remove(i);
        assert(shorter.drop_first() =~= probes.drop_first().remove(i - 1));
        assert(shorter[0] == probes[0]);
        lemma_scan_without_recoverable(probes.drop_first(), i - 1);
    }
}

/// A scan in which every device was acquired finds all of them, in order.
proof fn lemma_scan_all_acquired<D>(probes: Seq<Result<D, ProviderError>>)
    requires
        forall|i: int| 0 <= i < probes.len() ==> (#[trigger] probes[i]) is Ok,
    ensures
        scan(probes) == Ok::<Seq<D>, ProviderError>(probes.map_values(|p: Result<D, ProviderError>| acquired(p))),
    decreases probes.len(),
{
    if probes.len() > 0 {
        let rest = probes.drop_first();
        assert(forall|i: int| 0 <= i < rest.len() ==> #[trigger] rest[i] == probes[i + 1]);
        lemma_scan_all_acquired(rest);
        assert(probes[0] is Ok);
        assert(probes.map_values(|p: Result<D, ProviderError>| acquired(p)) =~= seq![acquired(probes[0])]
            + rest.map_values(|p: Result<D, ProviderError>| acquired(p)));
    } else {
        assert(probes.map_values(|p: Result<D, ProviderError>| acquired(p)) =~= Seq::<D>::empty());
    }
}

/// Discovery where the devices at indices 1 and 3 fail for recoverable
/// reasons and all others are acquired gives the other devices, two fewer
/// than were probed, in the order of their indices.
pub proof fn lemma_discovery_skips_recoverable<D>(
    probes: Seq<Result<D, ProviderError>>,
    r: Result<Seq<D>, NvTopError>,
)
    requires
        probes.len() >= 4,
        is_recoverable_failure(probes[1]),
        is_recoverable_failure(probes[3]),
        forall|i: int| 0 <= i < probes.len() && i != 1 && i != 3 ==> (#[trigger] probes[i]) is Ok,
    ensures
        discovery_matches(probes, r) <==> r == Ok::<Seq<D>, NvTopError>(
            probes.remove(3).remove(1).map_values(|p: Result<D, ProviderError>| acquired(p)),
        ),
        probes.remove(3).remove(1).len() == probes.len() - 2,
{
    let kept = probes.remove(3).remove(1);
    lemma_scan_without_recoverable(probes, 3);
    lemma_scan_without_recoverable(probes.remove(3), 1);
    assert forall|i: int| 0 <= i < kept.len() implies (#[trigger] kept[i]) is Ok by {
        if i < 1 {
            assert(kept[i] == probes[i]);
        } else if i < 2 {
            assert(kept[i] == probes[i + 1]);
        } else {
            assert(kept[i] == probes[i + 2]);
        }
    }
    lemma_scan_all_acquired(kept);
}

/// Discovery where every device fails for a recoverable reason, or where
/// there is no device at all, ends in `NoCompatibleDevice` though no error
/// was fatal.
pub proof fn lemma_discovery_nothing_acquired<D>(
    probes: Seq<Result<D, ProviderError>>,
    r: Result<Seq<D>, NvTopError>,
)
    requires
        forall|i: int| 0 <= i < probes.len() ==> is_recoverable_failure(#[trigger] probes[i]),
    ensures
        discovery_matches(probes, r) <==> r matches Err(NvTopError::NoCompatibleDevice),
{
    lemma_scan_finds_nothing(probes);
}

proof fn lemma_scan_finds_nothing<D>(probes: Seq<Result<D, ProviderError>>)
    requires
        forall|i: int| 0 <= i < probes.len() ==> is_recoverable_failure(#[trigger] probes[i]),
    ensures
        scan(probes) == Ok::<Seq<D>, ProviderError>(Seq::empty()),
    decreases probes.len(),
{
    if probes.len() > 0 {
        let rest = probes.drop_first();
        assert(forall|i: int| 0 <= i < rest.len() ==> #[trigger] rest[i] == probes[i + 1]);
        lemma_scan_finds_nothing(rest);
        assert(is_recoverable_failure(probes[0]));
    }
}

} // verus!
