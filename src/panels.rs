use crate::numfmt::{decimal, fixed1, fixed2, push_decimal, push_fixed1, push_fixed2};
use crate::stylers::{calculate_severity, severity_of, Color, Ratio, Style};
use vstd::prelude::*;
use vstd::string::StringExecFns;

verus! {

/// Bytes in one GiB.
pub const GIB: u64 = 1073741824;

/// One filled bar of the dashboard: a titled box, the bar's fill as a ratio
/// in `[0, 1]`, a text drawn over it and the style of the fill.
#[derive(Debug)]
pub struct Gauge {
    pub title: String,
    pub label: String,
    pub ratio: Ratio,
    pub style: Style,
}

/// The style of a gauge coloured by the severity of `ratio`.
pub open spec fn severity_style(ratio: Ratio) -> Style {
    Style { fg: Color::Rgb(severity_of(ratio).color()), bold: true, italic: true }
}

/// The fixed accent of the core utilisation gauge.
pub open spec fn accent_style() -> Style {
    Style { fg: Color::Green, bold: true, italic: false }
}

/// `g` has this title, label and fill, and is coloured by the fill's severity.
pub open spec fn is_severity_gauge(g: Gauge, title: Seq<char>, label: Seq<char>, ratio: Ratio) -> bool {
    &&& g.title@ == title
    &&& g.label@ == label
    &&& g.ratio == ratio.spec_clamped()
    &&& g.style == severity_style(ratio)
}

fn severity_gauge(title: &str, label: String, ratio: Ratio) -> (g: Gauge)
    ensures
        is_severity_gauge(g, title@, label@, ratio),
{
    let severity = calculate_severity(ratio);
    Gauge { title: String::from_str(title), label, ratio: ratio.clamped(), style: severity.style_for() }
}

/// A byte count in hundredths of a GiB, rounded half up.
pub open spec fn centi_gib(bytes: nat) -> nat {
    ((100 * bytes + GIB / 2) / (GIB as int)) as nat
}

pub open spec fn memory_label(used: nat, total: nat) -> Seq<char> {
    fixed2(centi_gib(used)) + "/"@ + fixed2(centi_gib(total)) + "GB"@
}

fn to_centi_gib(bytes: u64) -> (c: u64)
    ensures
        c == centi_gib(bytes as nat),
{
    let wide = (bytes as u128) * 100 + (GIB / 2) as u128;
    let c = wide / (GIB as u128);
    assert(c < 0x1_0000_0000_0000_0000) by (nonlinear_arith)
        requires
            wide <= 0xffff_ffff_ffff_ffff * 100 + 536870912,
            c == wide / 1073741824,
    ;
    c as u64
}

/// The memory gauge: used over total bytes, labelled in GiB with two decimals.
/// A zero total shows an empty bar.
pub fn draw_memory_usage(used: u64, total: u64) -> (g: Gauge)
    ensures
        is_severity_gauge(g, "Memory Usage"@, memory_label(used as nat, total as nat), Ratio { num: used as i128, den: total }),
{
    let mut label = String::new();
    push_fixed2(&mut label, to_centi_gib(used));
    label.append("/");
    push_fixed2(&mut label, to_centi_gib(total));
    label.append("GB");
    severity_gauge("Memory Usage", label, Ratio { num: used as i128, den: total })
}

pub open spec fn temperature_label(celsius: nat) -> Seq<char> {
    decimal(celsius) + "\u{b0}C"@
}

/// The die temperature gauge: degrees Celsius over 100.
pub fn draw_gpu_die_temp(celsius: u32) -> (g: Gauge)
    ensures
        is_severity_gauge(g, "Temp"@, temperature_label(celsius as nat), Ratio { num: celsius as i128, den: 100 }),
{
    let mut label = String::new();
    push_decimal(&mut label, celsius as u64);
    label.append("\u{b0}C");
    severity_gauge("Temp", label, Ratio { num: celsius as i128, den: 100 })
}

/// The sum of the fan speeds.
pub open spec fn speed_sum(speeds: Seq<u32>) -> nat
    decreases speeds.len(),
{
    if speeds.len() == 0 {
        0
    } else {
        (speed_sum(speeds.drop_last()) + speeds.last()) as nat
    }
}

/// The mean fan speed in tenths of a percent, rounded half up; 0 without fans.
pub open spec fn average_tenths(speeds: Seq<u32>) -> nat {
    if speeds.len() == 0 {
        0
    } else {
        ((20 * speed_sum(speeds) + speeds.len()) as int / (2 * speeds.len()) as int) as nat
    }
}

/// The mean fan speed as a fraction of 100%; no fans give the ratio `0 / 0`, which counts as zero.
pub open spec fn fan_ratio(speeds: Seq<u32>) -> Ratio {
    if speeds.len() == 0 {
        Ratio { num: 0, den: 0 }
    } else {
        Ratio { num: speed_sum(speeds) as i128, den: (100 * speeds.len()) as u64 }
    }
}

proof fn lemma_speed_sum_bound(speeds: Seq<u32>)
    ensures
        speed_sum(speeds) <= speeds.len() * 0xffff_ffff,
    decreases speeds.len(),
{
    if speeds.len() > 0 {
        lemma_speed_sum_bound(speeds.drop_last());
    }
}

fn sum_speeds(speeds: &Vec<u32>) -> (sum: u64)
    requires
        speeds.len() <= u32::MAX,
    ensures
        sum == speed_sum(speeds@),
{
    let mut sum: u64 = 0;
    let mut i: usize = 0;
    while i < speeds.len()
        invariant
            i <= speeds.len() <= u32::MAX,
            sum == speed_sum(speeds@.take(i as int)),
        decreases speeds.len() - i,
    {
        proof {
            assert(speeds@.take(i + 1).drop_last() == speeds@.take(i as int));
            lemma_speed_sum_bound(speeds@.take(i as int));
            assert(sum + speeds[i as int] <= (i + 1) * 0xffff_ffff) by (nonlinear_arith)
                requires
                    sum <= i * 0xffff_ffff,
                    speeds[i as int] <= 0xffff_ffff,
            ;
            assert((i + 1) * 0xffff_ffff <= 0xffff_ffff * 0xffff_ffff) by (nonlinear_arith)
                requires
                    i + 1 <= 0xffff_ffff,
            ;
        }
        sum = sum + speeds[i] as u64;
        i = i + 1;
    }
    assert(speeds@.take(i as int) == speeds@);
    sum
}

/// The mean speed over all fans in tenths of a percent, rounded half up.
/// A device without fans has a mean of 0.
pub fn average_fan_speed(speeds: &Vec<u32>) -> (tenths: u64)
    requires
        speeds.len() <= u32::MAX,
    ensures
        tenths == average_tenths(speeds@),
        speeds.len() == 0 ==> tenths == 0,
{
    if speeds.len() == 0 {
        return 0;
    }
    let sum = sum_speeds(speeds);
    let n = speeds.len() as u128;
    let t = (20 * (sum as u128) + n) / (2 * n);
    proof {
        lemma_speed_sum_bound(speeds@);
    }
    assert(t <= 10 * 0xffff_ffff + 1) by (nonlinear_arith)
        requires
            sum <= n * 0xffff_ffff,
            n >= 1,
            t == (20 * sum + n) / (2 * n),
    {
        assert(20 * sum + n <= (10 * 0xffff_ffff + 1) * (2 * n));
    }
    t as u64
}

pub open spec fn fan_label(speeds: Seq<u32>) -> Seq<char> {
    fixed1(average_tenths(speeds)) + "%"@
}

/// The fan gauge: the mean speed over all fans, as a percentage.
pub fn draw_fan_speed(speeds: &Vec<u32>) -> (g: Gauge)
    requires
        speeds.len() <= u32::MAX,
    ensures
        is_severity_gauge(g, "Fan Speed"@, fan_label(speeds@), fan_ratio(speeds@)),
{
    let tenths = average_fan_speed(speeds);
    let mut label = String::new();
    push_fixed1(&mut label, tenths);
    label.append("%");
    let ratio = if speeds.len() == 0 {
        Ratio { num: 0, den: 0 }
    } else {
        let sum = sum_speeds(speeds);
        proof {
            lemma_speed_sum_bound(speeds@);
        }
        Ratio { num: sum as i128, den: 100 * speeds.len() as u64 }
    };
    severity_gauge("Fan Speed", label, ratio)
}

/// The utilisation shown: the reported percentage, capped at 100.
pub open spec fn shown_percent(utilisation: nat) -> nat {
    if utilisation > 100 {
        100
    } else {
        utilisation
    }
}

/// The core utilisation gauge: a direct percentage in the fixed accent colour.
pub fn draw_core_utilisation(utilisation: u32) -> (g: Gauge)
    ensures
        g.title@ == "Core Utilisation"@,
        g.label@ == decimal(shown_percent(utilisation as nat)) + "%"@,
        g.ratio == (Ratio { num: shown_percent(utilisation as nat) as i128, den: 100 }),
        g.style == accent_style(),
{
    let percent: u32 = if utilisation > 100 {
        100
    } else {
        utilisation
    };
    let mut label = String::new();
    push_decimal(&mut label, percent as u64);
    label.append("%");
    Gauge {
        title: String::from_str("Core Utilisation"),
        label,
        ratio: Ratio { num: percent as i128, den: 100 },
        style: Style { fg: Color::Green, bold: true, italic: false },
    }
}

pub open spec fn clock_label(current: nat, max: nat) -> Seq<char> {
    decimal(current) + "/"@ + decimal(max) + "Mhz"@
}

/// The core clock gauge: the current graphics clock over its maximum.
pub fn draw_core_clock(current: u32, max: u32) -> (g: Gauge)
    ensures
        is_severity_gauge(g, "Core Clock"@, clock_label(current as nat, max as nat), Ratio { num: current as i128, den: max as u64 }),
{
    let mut label = String::new();
    push_decimal(&mut label, current as u64);
    label.append("/");
    push_decimal(&mut label, max as u64);
    label.append("Mhz");
    severity_gauge("Core Clock", label, Ratio { num: current as i128, den: max as u64 })
}

/// One reading of every live metric of a device. Readings are taken anew
/// for each frame and never kept.
#[derive(Debug)]
pub struct MetricSample {
    /// Core utilisation, in percent.
    pub utilisation: u32,
    /// Memory in use, in bytes.
    pub mem_used: u64,
    /// Memory installed, in bytes.
    pub mem_total: u64,
    /// Die temperature, in degrees Celsius.
    pub temperature: u32,
    /// The speed of each fan, in percent.
    pub fan_speeds: Vec<u32>,
    /// Current graphics clock, in MHz.
    pub core_clock: u32,
    /// Maximum graphics clock, in MHz.
    pub max_core_clock: u32,
}

impl MetricSample {
    /// A device reports its fan count as a `u32`.
    pub open spec fn wf(&self) -> bool {
        self.fan_speeds.len() <= u32::MAX
    }
}

/// Everything drawn for one device in one frame.
#[derive(Debug)]
pub struct Panels {
    pub core_utilisation: Gauge,
    pub core_clock: Gauge,
    /// Card identity, driver version and compute-stack version.
    pub misc: String,
    pub memory_usage: Gauge,
    pub die_temp: Gauge,
    pub fan_speed: Gauge,
}

/// `p` shows these readings with the text `misc`.
pub open spec fn panels_show_values(
    p: Panels,
    utilisation: u32,
    mem_used: u64,
    mem_total: u64,
    temperature: u32,
    fan_speeds: Seq<u32>,
    core_clock: u32,
    max_core_clock: u32,
    misc: Seq<char>,
) -> bool {
    &&& p.core_utilisation.title@ == "Core Utilisation"@
    &&& p.core_utilisation.label@ == decimal(shown_percent(utilisation as nat)) + "%"@
    &&& p.core_utilisation.ratio == (Ratio { num: shown_percent(utilisation as nat) as i128, den: 100 })
    &&& p.core_utilisation.style == accent_style()
    &&& is_severity_gauge(
        p.core_clock,
        "Core Clock"@,
        clock_label(core_clock as nat, max_core_clock as nat),
        Ratio { num: core_clock as i128, den: max_core_clock as u64 },
    )
    &&& p.misc@ == misc
    &&& is_severity_gauge(
        p.memory_usage,
        "Memory Usage"@,
        memory_label(mem_used as nat, mem_total as nat),
        Ratio { num: mem_used as i128, den: mem_total },
    )
    &&& is_severity_gauge(
        p.die_temp,
        "Temp"@,
        temperature_label(temperature as nat),
        Ratio { num: temperature as i128, den: 100 },
    )
    &&& is_severity_gauge(p.fan_speed, "Fan Speed"@, fan_label(fan_speeds), fan_ratio(fan_speeds))
}

/// `p` shows the sample `s` with the text `misc`.
pub open spec fn panels_show(p: Panels, s: MetricSample, misc: Seq<char>) -> bool {
    panels_show_values(
        p,
        s.utilisation,
        s.mem_used,
        s.mem_total,
        s.temperature,
        s.fan_speeds@,
        s.core_clock,
        s.max_core_clock,
        misc,
    )
}

/// Lays out one sample: the primary column holds core utilisation, core
/// clock and the text block; the secondary one memory, temperature and fans.
pub fn build_panels(sample: &MetricSample, misc: &str) -> (p: Panels)
    requires
        sample.wf(),
    ensures
        panels_show(p, *sample, misc@),
{
    Panels {
        core_utilisation: draw_core_utilisation(sample.utilisation),
        core_clock: draw_core_clock(sample.core_clock, sample.max_core_clock),
        misc: misc.to_owned(),
        memory_usage: draw_memory_usage(sample.mem_used, sample.mem_total),
        die_temp: draw_gpu_die_temp(sample.temperature),
        fan_speed: draw_fan_speed(&sample.fan_speeds),
    }
}

} // verus!
