//! Rendering of canonical-unit magnitudes as billions.

use vstd::prelude::*;
use vstd::string::*;
use num_format::{Locale, ToFormattedString};

verus! {

/// One billion canonical units.
pub const BILLION: u64 = 1_000_000_000;

/// The decimal digit character for `d` (meaningful for `d < 10`).
pub open spec fn digit_char(d: nat) -> char {
    seq!['0', '1', '2', '3', '4', '5', '6', '7', '8', '9'][d as int]
}

/// The plain decimal representation of `n`, most significant digit first.
pub open spec fn decimal(n: nat) -> Seq<char>
    decreases n,
{
    if n < 10 {
        seq![digit_char(n)]
    } else {
        decimal(n / 10).push(digit_char(n % 10))
    }
}

/// The last three decimal digits of `m` (for `m < 1000`), zero-padded.
pub open spec fn three_digits(m: nat) -> Seq<char> {
    seq![digit_char(m / 100), digit_char((m / 10) % 10), digit_char(m % 10)]
}

/// The decimal representation of `n` with a comma between each group of three
/// digits, counted from the right ("1,234,567").
pub open spec fn grouped(n: nat) -> Seq<char>
    decreases n,
{
    if n < 1000 {
        decimal(n)
    } else {
        grouped(n / 1000) + seq![','] + three_digits(n % 1000)
    }
}

/// `v` rounded to the nearest whole billion, halves rounding up.
pub open spec fn round_billion(v: nat) -> nat {
    (v + 500_000_000) / 1_000_000_000
}

/// The display form of a magnitude: below one billion, the billions truncated
/// to two decimals ("$0.42 B"); from one billion on, the rounded billions with
/// thousands separators ("$1,234 B").
pub open spec fn billion_text(v: nat) -> Seq<char> {
    if v < 1_000_000_000 {
        let hundredths = v / 10_000_000;
        "$0."@ + seq![digit_char(hundredths / 10), digit_char(hundredths % 10)] + " B"@
    } else {
        "$"@ + grouped(round_billion(v)) + " B"@
    }
}

/// The one-character string holding the digit `d`.
fn digit_str(d: u64) -> (r: &'static str)
    requires
        d < 10,
    ensures
        r@ == seq![digit_char(d as nat)],
{
    proof {
        reveal_strlit("0");
        reveal_strlit("1");
        reveal_strlit("2");
        reveal_strlit("3");
        reveal_strlit("4");
        reveal_strlit("5");
        reveal_strlit("6");
        reveal_strlit("7");
        reveal_strlit("8");
        reveal_strlit("9");
    }
    let r = match d {
        0 => "0",
        1 => "1",
        2 => "2",
        3 => "3",
        4 => "4",
        5 => "5",
        6 => "6",
        7 => "7",
        8 => "8",
        _ => "9",
    };
    assert(r@ =~= seq![digit_char(d as nat)]);
    r
}

/// The plain decimal representation of `n`.
pub fn decimal_text(n: u64) -> (r: String)
    ensures
        r@ == decimal(n as nat),
    decreases n,
{
    if n < 10 {
        String::from_str(digit_str(n))
    } else {
        let mut s = decimal_text(n / 10);
        s.append(digit_str(n % 10));
        s
    }
}

/// Relies on num_format's `ToFormattedString::to_formatted_string` with
/// `Locale::en`: plain decimal digits with a "," between groups of three,
/// counted from the right (separator "," and standard grouping for `en`).
#[verifier::external_body]
fn grouped_text(n: u64) -> (r: String)
    ensures
        r@ == grouped(n as nat),
{
    n.to_formatted_string(&Locale::en)
}

/// `value` rounded to the nearest whole billion, halves rounding up.
pub fn nearest_billion(value: u64) -> (r: u64)
    ensures
        r == round_billion(value as nat),
{
    let whole = value / BILLION;
    let rest = value % BILLION;
    if rest >= 500_000_000 {
        whole + 1
    } else {
        whole
    }
}

/// Renders a magnitude in billions: two truncated decimals below one billion,
/// rounded whole billions with thousands separators from one billion on.
pub fn format_billion(value: u64) -> (r: String)
    ensures
        r@ == billion_text(value as nat),
{
    if value < BILLION {
        let hundredths = value / 10_000_000;
        let mut s = String::from_str("$0.");
        s.append(digit_str(hundredths / 10));
        s.append(digit_str(hundredths % 10));
        s.append(" B");
        s
    } else {
        let mut s = String::from_str("$");
        let billions = grouped_text(nearest_billion(value));
        s.append(billions.as_str());
        s.append(" B");
        s
    }
}

/// Below one billion a magnitude stays in the two-decimal branch, whose text
/// starts with "$0." and so is never "$1.00 B"; from one billion on it is
/// shown as at least one whole billion.
pub proof fn lemma_billion_threshold(v: nat)
    ensures
        v < 1_000_000_000 ==> billion_text(v).subrange(0, 3) == "$0."@,
        v < 1_000_000_000 ==> billion_text(v) != "$1.00 B"@,
        v >= 1_000_000_000 ==> billion_text(v) == "$"@ + grouped(round_billion(v)) + " B"@
            && round_billion(v) >= 1,
{
    reveal_strlit("$0.");
    reveal_strlit("$1.00 B");
    if v < 1_000_000_000 {
        let h = v / 10_000_000;
        let t = "$0."@ + seq![digit_char(h / 10), digit_char(h % 10)] + " B"@;
        assert(t.subrange(0, 3) =~= "$0."@);
        assert(t[1] == '0');
        assert("$1.00 B"@[1] == '1');
    }
}

} // verus!
