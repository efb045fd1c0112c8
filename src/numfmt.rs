use vstd::prelude::*;
use vstd::string::StringExecFns;

verus! {

/// The character of a decimal digit.
pub open spec fn digit_char(d: nat) -> char {
    if d == 0 {
        '0'
    } else if d == 1 {
        '1'
    } else if d == 2 {
        '2'
    } else if d == 3 {
        '3'
    } else if d == 4 {
        '4'
    } else if d == 5 {
        '5'
    } else if d == 6 {
        '6'
    } else if d == 7 {
        '7'
    } else if d == 8 {
        '8'
    } else {
        '9'
    }
}

/// The decimal notation of `n`, without leading zeros.
pub open spec fn decimal(n: nat) -> Seq<char>
    decreases n,
{
    if n < 10 {
        seq![digit_char(n)]
    } else {
        decimal(n / 10).push(digit_char(n % 10))
    }
}

/// `hundredths / 100` written with exactly two decimals, as `12.05`.
pub open spec fn fixed2(hundredths: nat) -> Seq<char> {
    decimal(hundredths / 100) + seq!['.', digit_char((hundredths % 100) / 10), digit_char(hundredths % 10)]
}

/// `tenths / 10` written with exactly one decimal, as `40.5`.
pub open spec fn fixed1(tenths: nat) -> Seq<char> {
    decimal(tenths / 10) + seq!['.', digit_char(tenths % 10)]
}

fn digit_str(d: u64) -> (s: &'static str)
    requires
        d < 10,
    ensures
        s@ == seq![digit_char(d as nat)],
{
    proof {
        reveal_strlit("0");
        reveal_strlit("1");
        reveal_strlit("2");
        reveal_strlit("3");
        reveal_strlit("4");
        reveal_strlit("5");
        reveal_strlit("6");
        reveal_strlit("7");
        reveal_strlit("8");
        reveal_strlit("9");
    }
    match d {
        0 => "0",
        1 => "1",
        2 => "2",
        3 => "3",
        4 => "4",
        5 => "5",
        6 => "6",
        7 => "7",
        8 => "8",
        _ => "9",
    }
}

/// Appends the decimal notation of `n` to `s`.
pub fn push_decimal(s: &mut String, n: u64)
    ensures
        final(s)@ == old(s)@ + decimal(n as nat),
    decreases n,
{
    if n < 10 {
        s.append(digit_str(n));
    } else {
        push_decimal(s, n / 10);
        s.append(digit_str(n % 10));
        assert(final(s)@ == old(s)@ + decimal(n as nat)) by {
            assert(decimal(n as nat) == decimal((n / 10) as nat).push(digit_char((n % 10) as nat)));
        }
    }
}

/// Appends `hundredths / 100` with two decimals to `s`.
pub fn push_fixed2(s: &mut String, hundredths: u64)
    ensures
        final(s)@ == old(s)@ + fixed2(hundredths as nat),
{
    push_decimal(s, hundredths / 100);
    proof {
        reveal_strlit(".");
    }
    s.append(".");
    s.append(digit_str((hundredths % 100) / 10));
    s.append(digit_str(hundredths % 10));
}

/// Appends `tenths / 10` with one decimal to `s`.
pub fn push_fixed1(s: &mut String, tenths: u64)
    ensures
        final(s)@ == old(s)@ + fixed1(tenths as nat),
{
    push_decimal(s, tenths / 10);
    proof {
        reveal_strlit(".");
    }
    s.append(".");
    s.append(digit_str(tenths % 10));
}

/// `n / 1000` in its shortest decimal notation: no fractional part when it
/// is whole, else up to three decimals without trailing zeros (`12.02`).
pub open spec fn thousandths(n: nat) -> Seq<char> {
    let whole = decimal(n / 1000);
    let frac = n % 1000;
    if frac == 0 {
        whole
    } else if frac % 100 == 0 {
        whole + seq!['.', digit_char(frac / 100)]
    } else if frac % 10 == 0 {
        whole + seq!['.', digit_char(frac / 100), digit_char((frac / 10) % 10)]
    } else {
        whole + seq!['.', digit_char(frac / 100), digit_char((frac / 10) % 10), digit_char(frac % 10)]
    }
}

/// Appends `n / 1000` in its shortest decimal notation to `s`.
pub fn push_thousandths(s: &mut String, n: u64)
    ensures
        final(s)@ == old(s)@ + thousandths(n as nat),
{
    push_decimal(s, n / 1000);
    let frac = n % 1000;
    if frac != 0 {
        proof {
            reveal_strlit(".");
        }
        s.append(".");
        s.append(digit_str(frac / 100));
        if frac % 100 != 0 {
            s.append(digit_str((frac / 10) % 10));
            if frac % 10 != 0 {
                s.append(digit_str(frac % 10));
            }
        }
    }
}

} // verus!
