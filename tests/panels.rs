use nvtop::numfmt::{push_decimal, push_fixed1, push_fixed2, push_thousandths};
use nvtop::panels::{
    average_fan_speed, build_panels, draw_core_clock, draw_core_utilisation, draw_fan_speed,
    draw_gpu_die_temp, draw_memory_usage, MetricSample, GIB,
};
use nvtop::stylers::{Color, Ratio, Severity, Style};

fn severity_style(s: Severity) -> Style {
    s.style_for()
}

#[test]
fn single_device_scenario() {
    let sample = MetricSample {
        utilisation: 55,
        mem_used: 4 * GIB,
        mem_total: 8 * GIB,
        temperature: 72,
        fan_speeds: vec![40, 60],
        core_clock: 900,
        max_core_clock: 1800,
    };
    let p = build_panels(&sample, "Card: \"GeForce\"");

    assert_eq!(p.core_utilisation.title, "Core Utilisation");
    assert_eq!(p.core_utilisation.label, "55%");
    assert_eq!(p.core_utilisation.ratio, Ratio { num: 55, den: 100 });
    assert_eq!(p.core_utilisation.style, Style { fg: Color::Green, bold: true, italic: false });

    assert_eq!(p.memory_usage.label, "4.00/8.00GB");
    assert_eq!(p.memory_usage.ratio, Ratio { num: (4 * GIB) as i128, den: 8 * GIB });
    assert_eq!(p.memory_usage.style, severity_style(Severity::Medium));

    // 0.72 is at least 0.70 and below 0.80: the High tier.
    assert_eq!(p.die_temp.label, "72\u{b0}C");
    assert_eq!(p.die_temp.ratio, Ratio { num: 72, den: 100 });
    assert_eq!(p.die_temp.style, severity_style(Severity::High));

    assert_eq!(p.fan_speed.label, "50.0%");
    assert_eq!(p.fan_speed.ratio, Ratio { num: 100, den: 200 });
    assert_eq!(p.fan_speed.style, severity_style(Severity::Medium));

    assert_eq!(p.core_clock.label, "900/1800Mhz");
    assert_eq!(p.misc, "Card: \"GeForce\"");
}

#[test]
fn no_fans_average_zero() {
    assert_eq!(average_fan_speed(&vec![]), 0);
    let g = draw_fan_speed(&vec![]);
    assert_eq!(g.title, "Fan Speed");
    assert_eq!(g.label, "0.0%");
    assert_eq!(g.ratio, Ratio { num: 0, den: 1 });
    assert_eq!(g.style, severity_style(Severity::Low));
}

#[test]
fn fan_average_rounds_to_tenths() {
    assert_eq!(average_fan_speed(&vec![40, 60]), 500);
    assert_eq!(average_fan_speed(&vec![33, 33, 34]), 333);
    assert_eq!(average_fan_speed(&vec![1, 2]), 15);
    assert_eq!(draw_fan_speed(&vec![100, 100]).style, severity_style(Severity::Critical));
}

#[test]
fn clock_gauge_scales_with_the_clock() {
    let quarter = draw_core_clock(450, 1800);
    assert_eq!(quarter.ratio, Ratio { num: 450, den: 1800 });
    assert_eq!(quarter.style, severity_style(Severity::Low));
    let most = draw_core_clock(1500, 1800);
    assert_eq!(most.ratio, Ratio { num: 1500, den: 1800 });
    assert_eq!(most.style, severity_style(Severity::Critical));
    assert_eq!(draw_core_clock(2000, 1800).ratio, Ratio { num: 1800, den: 1800 });
    assert_eq!(draw_core_clock(300, 0).ratio, Ratio { num: 0, den: 1 });
    assert_eq!(draw_core_clock(300, 0).label, "300/0Mhz");
}

#[test]
fn memory_gauge_without_total_is_empty() {
    let g = draw_memory_usage(0, 0);
    assert_eq!(g.ratio, Ratio { num: 0, den: 1 });
    assert_eq!(g.label, "0.00/0.00GB");
    assert_eq!(g.style, severity_style(Severity::Low));
}

#[test]
fn memory_label_in_gib() {
    let g = draw_memory_usage(GIB / 2, 24 * GIB);
    assert_eq!(g.label, "0.50/24.00GB");
    let g = draw_memory_usage(u64::MAX, u64::MAX);
    assert_eq!(g.ratio, Ratio { num: u64::MAX as i128, den: u64::MAX });
    assert_eq!(g.style, severity_style(Severity::Critical));
}

#[test]
fn temperature_gauge() {
    let g = draw_gpu_die_temp(39);
    assert_eq!(g.title, "Temp");
    assert_eq!(g.label, "39\u{b0}C");
    assert_eq!(g.style, severity_style(Severity::Low));
    assert_eq!(draw_gpu_die_temp(130).ratio, Ratio { num: 100, den: 100 });
}

#[test]
fn utilisation_is_capped_at_100() {
    let g = draw_core_utilisation(250);
    assert_eq!(g.label, "100%");
    assert_eq!(g.ratio, Ratio { num: 100, den: 100 });
    assert_eq!(draw_core_utilisation(0).label, "0%");
}

#[test]
fn number_notations() {
    let mut s = String::from("n=");
    push_decimal(&mut s, 1234567890);
    assert_eq!(s, "n=1234567890");
    let mut s = String::new();
    push_decimal(&mut s, u64::MAX);
    assert_eq!(s, "18446744073709551615");
    let mut s = String::new();
    push_fixed2(&mut s, 1205);
    assert_eq!(s, "12.05");
    let mut s = String::new();
    push_fixed1(&mut s, 7);
    assert_eq!(s, "0.7");
    for (n, text) in [(12020u64, "12.02"), (11000, "11"), (12300, "12.3"), (12345, "12.345"), (5, "0.005")] {
        let mut s = String::new();
        push_thousandths(&mut s, n);
        assert_eq!(s, text);
    }
}
