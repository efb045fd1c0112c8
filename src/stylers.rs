use vstd::prelude::*;

verus! {

/// A proportion `num / den`, as read from a pair of counters.
/// A zero denominator stands for a reading with no meaningful ratio
/// (the quotient would not be finite), which counts as zero.
#[derive(Clone, Copy, Debug, PartialEq, Eq, Structural)]
pub struct Ratio {
    pub num: i128,
    pub den: u64,
}

impl Ratio {
    /// The numerator of this ratio once clamped into `[0, 1]`, over the same denominator.
    pub open spec fn clamped_num(self) -> int {
        if self.den == 0 || self.num <= 0 {
            0
        } else if self.num >= self.den {
            self.den as int
        } else {
            self.num as int
        }
    }

    /// The same ratio clamped into `[0, 1]`; a zero denominator gives `0 / 1`.
    pub open spec fn spec_clamped(self) -> Ratio {
        if self.den == 0 {
            Ratio { num: 0, den: 1 }
        } else {
            Ratio { num: self.clamped_num() as i128, den: self.den }
        }
    }

    /// The ratio lies in `[0, 1]` as it stands, over a nonzero denominator.
    pub open spec fn is_unit(self) -> bool {
        self.den > 0 && 0 <= self.num <= self.den
    }

    /// `self <= other` as rational numbers (both denominators nonzero).
    pub open spec fn le(self, other: Ratio) -> bool {
        self.num * other.den <= other.num * self.den
    }

    pub fn clamped(self) -> (r: Ratio)
        ensures
            r == self.spec_clamped(),
            r.is_unit(),
    {
        if self.den == 0 {
            Ratio { num: 0, den: 1 }
        } else if self.num <= 0 {
            Ratio { num: 0, den: self.den }
        } else if self.num >= self.den as i128 {
            Ratio { num: self.den as i128, den: self.den }
        } else {
            self
        }
    }
}

/// How alarming a reading is, from least to most.
#[derive(Clone, Copy, Debug, PartialEq, Eq, Structural)]
pub enum Severity {
    Low,
    Medium,
    High,
    Critical,
}

/// A colour as red, green and blue components.
#[derive(Clone, Copy, Debug, PartialEq, Eq, Structural)]
pub struct Rgb {
    pub r: u8,
    pub g: u8,
    pub b: u8,
}

/// The foreground colour a panel element is drawn in.
#[derive(Clone, Copy, Debug, PartialEq, Eq, Structural)]
pub enum Color {
    /// The fixed accent used where no severity applies.
    Green,
    Rgb(Rgb),
}

/// How a gauge or a text is drawn: a foreground colour and two text modifiers.
#[derive(Clone, Copy, Debug, PartialEq, Eq, Structural)]
pub struct Style {
    pub fg: Color,
    pub bold: bool,
    pub italic: bool,
}

impl Severity {
    /// Position in the order Low < Medium < High < Critical.
    pub open spec fn rank(self) -> nat {
        match self {
            Severity::Low => 0,
            Severity::Medium => 1,
            Severity::High => 2,
            Severity::Critical => 3,
        }
    }

    /// The fixed colour of each tier.
    pub open spec fn color(self) -> Rgb {
        match self {
            Severity::Low => Rgb { r: 244, g: 11, b: 104 },
            Severity::Medium => Rgb { r: 221, g: 244, b: 11 },
            Severity::High => Rgb { r: 11, g: 244, b: 151 },
            Severity::Critical => Rgb { r: 34, g: 11, b: 244 },
        }
    }

    /// The style of a gauge of this severity: the tier's colour, bold and italic.
    pub fn style_for(&self) -> (st: Style)
        ensures
            st == (Style { fg: Color::Rgb(self.color()), bold: true, italic: true }),
    {
        let fg = match self {
            Severity::Low => Rgb { r: 244, g: 11, b: 104 },
            Severity::Medium => Rgb { r: 221, g: 244, b: 11 },
            Severity::High => Rgb { r: 11, g: 244, b: 151 },
            Severity::Critical => Rgb { r: 34, g: 11, b: 244 },
        };
        Style { fg: Color::Rgb(fg), bold: true, italic: true }
    }
}

/// The severity tier of a ratio: it is clamped into `[0, 1]` first, then
/// below 0.40 is Low, below 0.70 Medium, below 0.80 High, and the rest Critical.
pub open spec fn severity_of(ratio: Ratio) -> Severity {
    let c = ratio.clamped_num();
    if ratio.den == 0 || 10 * c < 4 * ratio.den {
        Severity::Low
    } else if 10 * c < 7 * ratio.den {
        Severity::Medium
    } else if 10 * c < 8 * ratio.den {
        Severity::High
    } else {
        Severity::Critical
    }
}

/// Classifies a ratio into a severity tier. Total: any numerator and
/// denominator are accepted, and out-of-range ratios are clamped first.
pub fn calculate_severity(ratio: Ratio) -> (s: Severity)
    ensures
        s == severity_of(ratio),
{
    if ratio.den == 0 || ratio.num <= 0 {
        return Severity::Low;
    }
    let den = ratio.den as u128;
    if ratio.num as u128 >= den {
        return Severity::Critical;
    }
    let n = ratio.num as u128;
    if 10 * n < 4 * den {
        Severity::Low
    } else if 10 * n < 7 * den {
        Severity::Medium
    } else if 10 * n < 8 * den {
        Severity::High
    } else {
        Severity::Critical
    }
}

/// Classification is monotonic: a larger ratio never gets a lower tier.
pub proof fn lemma_severity_monotonic(a: Ratio, b: Ratio)
    requires
        a.den > 0,
        b.den > 0,
        a.le(b),
    ensures
        severity_of(a).rank() <= severity_of(b).rank(),
{
    let ca = a.clamped_num();
    let cb = b.clamped_num();
    let da = a.den as int;
    let db = b.den as int;
    assert(ca * db <= cb * da) by (nonlinear_arith)
        requires
            da > 0,
            db > 0,
            a.num * db <= b.num * da,
            ca == (if a.num <= 0 { 0 } else if a.num >= da { da } else { a.num as int }),
            cb == (if b.num <= 0 { 0 } else if b.num >= db { db } else { b.num as int }),
    ;
    lemma_below_threshold_transfers(ca, da, cb, db, 4);
    lemma_below_threshold_transfers(ca, da, cb, db, 7);
    lemma_below_threshold_transfers(ca, da, cb, db, 8);
    assert(10 * cb < 4 * db ==> 10 * ca < 4 * da);
    assert(10 * cb < 7 * db ==> 10 * ca < 7 * da);
    assert(10 * cb < 8 * db ==> 10 * ca < 8 * da);
}

/// If `ca / da <= cb / db` and `cb / db` is below `k / 10`, so is `ca / da`.
proof fn lemma_below_threshold_transfers(ca: int, da: int, cb: int, db: int, k: int)
    requires
        da > 0,
        db > 0,
        ca * db <= cb * da,
    ensures
        10 * cb < k * db ==> 10 * ca < k * da,
{
    if 10 * cb < k * db {
        assert(10 * ca * db <= 10 * cb * da) by (nonlinear_arith)
            requires
                ca * db <= cb * da,
        ;
        assert(10 * cb * da < k * db * da) by (nonlinear_arith)
            requires
                10 * cb < k * db,
                da > 0,
        ;
        assert(10 * ca * db < k * da * db) by (nonlinear_arith)
            requires
                10 * ca * db <= 10 * cb * da,
                10 * cb * da < k * db * da,
        ;
        assert(10 * ca < k * da) by (nonlinear_arith)
            requires
                10 * ca * db < k * da * db,
                db > 0,
        ;
    }
}

/// Out-of-range ratios are clamped before classification: a ratio at or
/// below zero is Low, one at or above one is Critical, and a ratio without
/// a finite value is Low.
pub proof fn lemma_severity_clamps(r: Ratio)
    ensures
        r.den == 0 ==> severity_of(r) == Severity::Low,
        r.num <= 0 ==> severity_of(r) == Severity::Low,
        r.den > 0 && r.num >= r.den ==> severity_of(r) == Severity::Critical,
        severity_of(r) == severity_of(r.spec_clamped()),
{
}

} // verus!
