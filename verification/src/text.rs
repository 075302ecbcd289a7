//! Pure, stateless formatting of snapshot values for human display:
//! decimal rendering, 1024-based byte sizes with one decimal place,
//! uptime as days/hours/minutes, and a textual usage bar.

use vstd::prelude::*;
use vstd::string::*;

use crate::metrics::BYTES_PER_GB;

verus! {

/// One kilobyte, in bytes.
pub const BYTES_PER_KB: u64 = 1024;

/// One megabyte, in bytes.
pub const BYTES_PER_MB: u64 = 1024 * 1024;

/// The decimal digit character for `d` (meaningful for `0 <= d <= 9`).
pub open spec fn dec_digit(d: int) -> char {
    if d == 0 {
        '0'
    } else if d == 1 {
        '1'
    } else if d == 2 {
        '2'
    } else if d == 3 {
        '3'
    } else if d == 4 {
        '4'
    } else if d == 5 {
        '5'
    } else if d == 6 {
        '6'
    } else if d == 7 {
        '7'
    } else if d == 8 {
        '8'
    } else {
        '9'
    }
}

/// The decimal digit string of `n` (meaningful for `n >= 0`), most
/// significant digit first, with no leading zeros except for `n == 0`
/// itself.
pub open spec fn dec_str(n: int) -> Seq<char>
    decreases n,
{
    if n < 10 {
        seq![dec_digit(n)]
    } else {
        dec_str(n / 10).push(dec_digit(n % 10))
    }
}

/// The single-character string for the decimal digit `d`.
fn dec_digit_str(d: u64) -> (r: &'static str)
    requires
        d < 10,
    ensures
        r@ == seq![dec_digit(d as int)],
{
    proof {
        reveal_strlit("0");
        reveal_strlit("1");
        reveal_strlit("2");
        reveal_strlit("3");
        reveal_strlit("4");
        reveal_strlit("5");
        reveal_strlit("6");
        reveal_strlit("7");
        reveal_strlit("8");
        reveal_strlit("9");
    }
    let r: &'static str = if d == 0 {
        "0"
    } else if d == 1 {
        "1"
    } else if d == 2 {
        "2"
    } else if d == 3 {
        "3"
    } else if d == 4 {
        "4"
    } else if d == 5 {
        "5"
    } else if d == 6 {
        "6"
    } else if d == 7 {
        "7"
    } else if d == 8 {
        "8"
    } else {
        "9"
    };
    proof {
        assert(r@ =~= seq![dec_digit(d as int)]);
    }
    r
}

/// Renders `n` in decimal.
pub fn u64_to_dec(n: u64) -> (r: String)
    ensures
        r@ == dec_str(n as int),
    decreases n,
{
    if n < 10 {
        String::from_str(dec_digit_str(n))
    } else {
        let mut s = u64_to_dec(n / 10);
        s.append(dec_digit_str(n % 10));
        proof {
            assert(s@ =~= dec_str(n as int));
        }
        s
    }
}

/// Uptime rendered as in `1d 2h 3m`: the day and hour fields are
/// omitted while zero (minutes always shown), and seconds are
/// rounded down to whole minutes.
pub open spec fn uptime_str_spec(seconds: int) -> Seq<char> {
    let days = seconds / 86400;
    let hours = (seconds % 86400) / 3600;
    let mins = (seconds % 3600) / 60;
    if days > 0 {
        dec_str(days) + seq!['d', ' '] + dec_str(hours) + seq!['h', ' '] + dec_str(mins)
            + seq!['m']
    } else if hours > 0 {
        dec_str(hours) + seq!['h', ' '] + dec_str(mins) + seq!['m']
    } else {
        dec_str(mins) + seq!['m']
    }
}

/// Renders an uptime, given in seconds, as days, hours and minutes.
pub fn format_uptime(seconds: u64) -> (r: String)
    ensures
        r@ == uptime_str_spec(seconds as int),
{
    proof {
        reveal_strlit("d ");
        reveal_strlit("h ");
        reveal_strlit("m");
    }
    let days = seconds / 86400;
    let hours = (seconds % 86400) / 3600;
    let mins = (seconds % 3600) / 60;
    let mut s = String::new();
    if days > 0 {
        s.append(u64_to_dec(days).as_str());
        s.append("d ");
        s.append(u64_to_dec(hours).as_str());
        s.append("h ");
        s.append(u64_to_dec(mins).as_str());
        s.append("m");
    } else if hours > 0 {
        s.append(u64_to_dec(hours).as_str());
        s.append("h ");
        s.append(u64_to_dec(mins).as_str());
        s.append("m");
    } else {
        s.append(u64_to_dec(mins).as_str());
        s.append("m");
    }
    proof {
        assert(s@ =~= uptime_str_spec(seconds as int));
    }
    s
}

/// `b / unit` in tenths, rounded to the nearest tenth with halves
/// rounded up (meaningful for even positive `unit`).
pub open spec fn tenths_spec(b: int, unit: int) -> int {
    (b * 10 + unit / 2) / unit
}

/// `b / unit` rendered with one decimal place.
pub open spec fn one_decimal_str(b: int, unit: int) -> Seq<char> {
    dec_str(tenths_spec(b, unit) / 10) + seq!['.', dec_digit(tenths_spec(b, unit) % 10)]
}

/// A byte count rendered for display: `B` below one kilobyte, then
/// `KB`, `MB` and `GB` with one decimal place, all 1024-based.
pub open spec fn bytes_str_spec(b: int) -> Seq<char> {
    if b >= BYTES_PER_GB {
        one_decimal_str(b, BYTES_PER_GB as int) + seq![' ', 'G', 'B']
    } else if b >= BYTES_PER_MB {
        one_decimal_str(b, BYTES_PER_MB as int) + seq![' ', 'M', 'B']
    } else if b >= BYTES_PER_KB {
        one_decimal_str(b, BYTES_PER_KB as int) + seq![' ', 'K', 'B']
    } else {
        dec_str(b) + seq![' ', 'B']
    }
}

/// Renders `b / unit` with one decimal place.
pub fn one_decimal(b: u64, unit: u64) -> (r: String)
    requires
        unit == BYTES_PER_KB || unit == BYTES_PER_MB || unit == BYTES_PER_GB,
    ensures
        r@ == one_decimal_str(b as int, unit as int),
{
    proof {
        reveal_strlit(".");
    }
    let tenths: u128 = ((b as u128) * 10 + (unit / 2) as u128) / (unit as u128);
    assert(tenths == tenths_spec(b as int, unit as int));
    proof {
        let a = (b as int) * 10 + (unit as int) / 2;
        vstd::arithmetic::div_mod::lemma_div_is_ordered_by_denominator(a, 1024, unit as int);
        vstd::arithmetic::div_mod::lemma_div_is_ordered(
            a,
            (u64::MAX as int) * 10 + 0x20000000,
            1024,
        );
        assert(tenths <= ((u64::MAX as int) * 10 + 0x20000000) / 1024);
    }
    let whole: u64 = (tenths / 10) as u64;
    let tenth: u64 = (tenths % 10) as u64;
    let mut s = u64_to_dec(whole);
    s.append(".");
    s.append(dec_digit_str(tenth));
    proof {
        assert(s@ =~= one_decimal_str(b as int, unit as int));
    }
    s
}

/// Renders a byte count for display, 1024-based, with one decimal
/// place above one kilobyte.
pub fn format_bytes(bytes: u64) -> (r: String)
    ensures
        r@ == bytes_str_spec(bytes as int),
{
    proof {
        reveal_strlit(" GB");
        reveal_strlit(" MB");
        reveal_strlit(" KB");
        reveal_strlit(" B");
    }
    let mut s: String;
    if bytes >= BYTES_PER_GB {
        s = one_decimal(bytes, BYTES_PER_GB);
        s.append(" GB");
    } else if bytes >= BYTES_PER_MB {
        s = one_decimal(bytes, BYTES_PER_MB);
        s.append(" MB");
    } else if bytes >= BYTES_PER_KB {
        s = one_decimal(bytes, BYTES_PER_KB);
        s.append(" KB");
    } else {
        s = u64_to_dec(bytes);
        s.append(" B");
    }
    proof {
        assert(s@ =~= bytes_str_spec(bytes as int));
    }
    s
}

/// The status marker for a value on a 0..=100 scale: green below 50,
/// yellow below 80, red at and above 80.
pub open spec fn bar_marker(value: int) -> char {
    if value < 50 {
        '🟢'
    } else if value < 80 {
        '🟡'
    } else {
        '🔴'
    }
}

/// `s` repeated `n` times (empty for `n <= 0`).
pub open spec fn repeat_seq(s: Seq<char>, n: int) -> Seq<char>
    decreases n,
{
    if n <= 0 {
        Seq::empty()
    } else {
        repeat_seq(s, n - 1) + s
    }
}

/// A usage bar: a colored marker, then `width` cells in brackets of
/// which the first `value * width / max_value` are filled.
pub open spec fn bar_chart_spec(value: int, max_value: int, width: int) -> Seq<char> {
    let filled = value * width / max_value;
    seq![bar_marker(value), ' ', '['] + repeat_seq(seq!['|'], filled) + repeat_seq(
        seq!['-'],
        width - filled,
    ) + seq![']']
}

/// The single-character marker string for a value on a 0..=100 scale.
fn bar_marker_str(value: u64) -> (r: &'static str)
    ensures
        r@ == seq![bar_marker(value as int)],
{
    proof {
        reveal_strlit("🟢");
        reveal_strlit("🟡");
        reveal_strlit("🔴");
    }
    let r: &'static str = if value < 50 {
        "🟢"
    } else if value < 80 {
        "🟡"
    } else {
        "🔴"
    };
    proof {
        assert(r@ =~= seq![bar_marker(value as int)]);
    }
    r
}

/// Appends `piece` to `s`, `n` times.
fn append_repeat(s: &mut String, piece: &str, n: u64)
    ensures
        final(s)@ == old(s)@ + repeat_seq(piece@, n as int),
{
    let ghost s0 = s@;
    let mut i: u64 = 0;
    proof {
        assert(s@ =~= s0 + repeat_seq(piece@, 0));
    }
    while i < n
        invariant
            i <= n,
            s@ == s0 + repeat_seq(piece@, i as int),
        decreases n - i,
    {
        s.append(piece);
        i = i + 1;
        proof {
            assert(s@ =~= s0 + repeat_seq(piece@, i as int));
        }
    }
}

/// Renders a usage bar of `width` cells for `value` out of
/// `max_value`, with a marker colored by `value` on a 0..=100 scale.
pub fn create_bar_chart(value: u64, max_value: u64, width: u64) -> (r: String)
    requires
        0 < max_value,
        value <= max_value,
    ensures
        r@ == bar_chart_spec(value as int, max_value as int, width as int),
{
    proof {
        reveal_strlit(" [");
        reveal_strlit("]");
        reveal_strlit("|");
        reveal_strlit("-");
    }
    proof {
        vstd::arithmetic::mul::lemma_mul_inequality(value as int, u64::MAX as int, width as int);
        vstd::arithmetic::mul::lemma_mul_inequality(
            width as int,
            u64::MAX as int,
            u64::MAX as int,
        );
        assert((value as int) * (width as int) <= (u64::MAX as int) * (u64::MAX as int));
    }
    let filled_wide: u128 = (value as u128) * (width as u128) / (max_value as u128);
    proof {
        vstd::arithmetic::mul::lemma_mul_inequality(value as int, max_value as int, width as int);
        vstd::arithmetic::div_mod::lemma_div_is_ordered(
            (value as int) * (width as int),
            (max_value as int) * (width as int),
            max_value as int,
        );
        vstd::arithmetic::div_mod::lemma_div_multiples_vanish(width as int, max_value as int);
        assert(filled_wide <= width);
    }
    let filled: u64 = filled_wide as u64;
    let empty: u64 = width - filled;
    let mut s = String::from_str(bar_marker_str(value));
    s.append(" [");
    append_repeat(&mut s, "|", filled);
    append_repeat(&mut s, "-", empty);
    s.append("]");
    proof {
        assert(" ["@ =~= seq![' ', '[']);
        assert("]"@ =~= seq![']']);
        assert("|"@ =~= seq!['|']);
        assert("-"@ =~= seq!['-']);
        assert(filled as int == (value as int) * (width as int) / (max_value as int));
        assert(s@ =~= bar_chart_spec(value as int, max_value as int, width as int));
    }
    s
}

} // verus!
