//! Byte counts in binary units, with one decimal place.

use vstd::prelude::*;
use vstd::string::StringExecFns;
use crate::text::{
    decimal, digit_char, digit_str, is_decimal_digit, is_digits, lemma_decimal_is_digits,
    push_decimal,
};

verus! {

/// Bytes in a kilobyte of 1024 bytes.
pub const KB: u64 = 1024;

/// Bytes in a megabyte of 1024 kilobytes.
pub const MB: u64 = 1_048_576;

/// Bytes in a gigabyte of 1024 megabytes.
pub const GB: u64 = 1_073_741_824;

/// Bytes in a terabyte of 1024 gigabytes.
pub const TB: u64 = 1_099_511_627_776;

/// `n / unit` in tenths, rounded to the nearest tenth. A quotient that lies
/// exactly half-way between two tenths goes to the even one.
pub open spec fn tenths(n: nat, unit: nat) -> nat
    recommends
        unit > 0,
{
    let quotient = (10 * n) / unit;
    let rest = (10 * n) % unit;
    if 2 * rest > unit || (2 * rest == unit && quotient % 2 == 1) {
        quotient + 1
    } else {
        quotient
    }
}

/// A number of tenths written with one decimal place: 15 is `1.5`.
pub open spec fn one_decimal(t: nat) -> Seq<char> {
    decimal(t / 10) + seq!['.', digit_char(t % 10)]
}

/// A byte count as people read it: in the largest unit (TB, GB, MB, KB) that
/// it reaches, with one decimal place, or in plain bytes below a kilobyte.
pub open spec fn byte_size_text(n: nat) -> Seq<char> {
    if n >= TB {
        one_decimal(tenths(n, TB as nat)) + " TB"@
    } else if n >= GB {
        one_decimal(tenths(n, GB as nat)) + " GB"@
    } else if n >= MB {
        one_decimal(tenths(n, MB as nat)) + " MB"@
    } else if n >= KB {
        one_decimal(tenths(n, KB as nat)) + " KB"@
    } else {
        decimal(n) + " B"@
    }
}

/// True of the texts that are a number with one decimal place: digits, a
/// point, and one more digit.
pub open spec fn is_one_decimal(text: Seq<char>) -> bool {
    &&& text.len() >= 3
    &&& is_digits(text.take(text.len() - 2))
    &&& text[text.len() - 2] == '.'
    &&& is_decimal_digit(text[text.len() - 1])
}

/// The unit in which a byte count of a kilobyte or more is shown, with the
/// space before it.
pub open spec fn unit_suffix(n: nat) -> Seq<char> {
    if n >= TB {
        " TB"@
    } else if n >= GB {
        " GB"@
    } else if n >= MB {
        " MB"@
    } else {
        " KB"@
    }
}

/// Below a kilobyte a byte count is shown as it is, with `B` for its unit.
pub proof fn law_bytes_below_a_kilobyte(n: nat)
    requires
        n < KB,
    ensures
        byte_size_text(n) == decimal(n) + " B"@,
        is_digits(decimal(n)),
{
    lemma_decimal_is_digits(n);
}

/// From a kilobyte on a byte count is shown as a number with one decimal
/// place, a space and its unit: `KB` below a megabyte, `MB` below a
/// gigabyte, `GB` below a terabyte, and `TB` from there on.
pub proof fn law_units_from_a_kilobyte(n: nat)
    requires
        n >= KB,
    ensures
        exists|number: Seq<char>|
            is_one_decimal(number) && byte_size_text(n) == #[trigger] (number + unit_suffix(n)),
{
    let unit: nat = if n >= TB {
        TB as nat
    } else if n >= GB {
        GB as nat
    } else if n >= MB {
        MB as nat
    } else {
        KB as nat
    };
    let t = tenths(n, unit);
    let number = one_decimal(t);
    lemma_decimal_is_digits(t / 10);
    assert(number.take(number.len() - 2) =~= decimal(t / 10));
    assert(is_one_decimal(number));
    assert(byte_size_text(n) == number + unit_suffix(n));
}

/// From a kilobyte up to a megabyte a byte count is shown in kilobytes: a
/// number with one decimal place, a space and `KB`.
pub proof fn law_kilobytes_below_a_megabyte(n: nat)
    requires
        KB <= n < MB,
    ensures
        exists|number: Seq<char>|
            is_one_decimal(number) && byte_size_text(n) == #[trigger] (number + " KB"@),
{
    law_units_from_a_kilobyte(n);
}

/// Splitting `n` into whole units and a rest does not change its tenths.
proof fn lemma_tenths_by_parts(n: nat, unit: nat)
    requires
        unit > 0,
    ensures
        (10 * n) / unit == 10 * (n / unit) + (10 * (n % unit)) / unit,
        (10 * n) % unit == (10 * (n % unit)) % unit,
{
    let whole = n / unit;
    let rest = n % unit;
    assert(n == whole * unit + rest) by {
        vstd::arithmetic::div_mod::lemma_fundamental_div_mod(n as int, unit as int);
    }
    assert(10 * n == (10 * whole) * unit + 10 * rest) by (nonlinear_arith)
        requires
            n == whole * unit + rest,
    ;
    let high = (10 * rest) / unit;
    let low = (10 * rest) % unit;
    assert(10 * rest == high * unit + low) by {
        vstd::arithmetic::div_mod::lemma_fundamental_div_mod((10 * rest) as int, unit as int);
    }
    assert(10 * n == (10 * whole + high) * unit + low) by (nonlinear_arith)
        requires
            10 * n == (10 * whole) * unit + 10 * rest,
            10 * rest == high * unit + low,
    ;
    vstd::arithmetic::div_mod::lemma_fundamental_div_mod_converse(
        (10 * n) as int,
        unit as int,
        (10 * whole + high) as int,
        low as int,
    );
}

/// Appends `n / unit` with one decimal place, then `suffix`.
fn push_in_unit(out: &mut String, n: u64, unit: u64, suffix: &str)
    requires
        KB <= unit <= TB,
    ensures
        final(out)@ == old(out)@ + one_decimal(tenths(n as nat, unit as nat)) + suffix@,
{
    let whole: u64 = n / unit;
    let rest: u64 = n % unit;
    assert(whole <= n / 1024) by (nonlinear_arith)
        requires
            whole == n / unit,
            unit >= 1024,
    ;
    let scaled: u64 = rest * 10;
    let mut t: u64 = whole * 10 + scaled / unit;
    let left: u64 = scaled % unit;
    if left > unit - left || (left == unit - left && t % 2 == 1) {
        t = t + 1;
    }
    proof {
        lemma_tenths_by_parts(n as nat, unit as nat);
        assert(t == tenths(n as nat, unit as nat));
    }
    push_decimal(out, t / 10);
    out.append(".");
    out.append(digit_str((t % 10) as u8));
    out.append(suffix);
    proof {
        reveal_strlit(".");
        assert(out@ =~= old(out)@ + one_decimal(t as nat) + suffix@);
    }
}

/// Numbers that can be shown as a byte count.
pub trait PrettyFormat {
    /// The text that `pretty_format` returns.
    spec fn pretty_text(&self) -> Seq<char>;

    /// The number as a byte count in binary units.
    fn pretty_format(&self) -> (text: String)
        ensures
            text@ == self.pretty_text(),
    ;
}

impl PrettyFormat for u64 {
    open spec fn pretty_text(&self) -> Seq<char> {
        byte_size_text(*self as nat)
    }

    fn pretty_format(&self) -> (text: String) {
        let n: u64 = *self;
        let mut text = String::new();
        if n >= TB {
            push_in_unit(&mut text, n, TB, " TB");
        } else if n >= GB {
            push_in_unit(&mut text, n, GB, " GB");
        } else if n >= MB {
            push_in_unit(&mut text, n, MB, " MB");
        } else if n >= KB {
            push_in_unit(&mut text, n, KB, " KB");
        } else {
            push_decimal(&mut text, n);
            text.append(" B");
        }
        assert(text@ =~= byte_size_text(n as nat));
        text
    }
}

impl PrettyFormat for u32 {
    open spec fn pretty_text(&self) -> Seq<char> {
        byte_size_text(*self as nat)
    }

    fn pretty_format(&self) -> (text: String) {
        (*self as u64).pretty_format()
    }
}

} // verus!
