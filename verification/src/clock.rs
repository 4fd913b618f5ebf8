//! Local timestamps in the `YYYY-MM-DDTHH:MM:SS` form used throughout the
//! logs, built from the broken-down time that the C library gives.

use vstd::prelude::*;

use crate::text::{decimal_digits, push_char, push_decimal};

verus! {

/// `n` zeros (none when `n` is not positive).
pub open spec fn zeros(n: int) -> Seq<char> {
    if n <= 0 {
        Seq::empty()
    } else {
        Seq::new(n as nat, |_k: int| '0')
    }
}

/// An integer formatted as `{:0width$}` formats it: a `-` for a negative
/// value, then zeros up to `width` characters in all, then the digits.
pub open spec fn zero_padded(i: int, width: nat) -> Seq<char> {
    let digits = decimal_digits(if i < 0 { (-i) as nat } else { i as nat });
    let sign: Seq<char> = if i < 0 { seq!['-'] } else { Seq::empty() };
    sign + zeros(width - sign.len() - digits.len()) + digits
}

/// Appends `v` formatted with zero padding to `width` characters.
pub fn push_padded(s: &mut String, v: i64, width: usize)
    ensures
        final(s)@ == old(s)@ + zero_padded(v as int, width as nat),
{
    let magnitude: u64 = if v < 0 { ((-(v + 1)) as u64) + 1 } else { v as u64 };
    let mut digits = String::new();
    push_decimal(&mut digits, magnitude);
    assert(digits@ =~= decimal_digits(magnitude as nat));
    let n = digits.unicode_len();
    let ghost base = s@;
    let ghost sign: Seq<char> = if v < 0 { seq!['-'] } else { Seq::empty() };
    if v < 0 {
        push_char(s, '-');
    }
    assert(s@ =~= base + sign);
    let room: usize = if width > n { width - n } else { 0 };
    let pad: usize = if v < 0 { if room > 1 { room - 1 } else { 0 } } else { room };
    let mut k: usize = 0;
    while k < pad
        invariant
            k <= pad,
            s@ == base + sign + zeros(k as int),
        decreases pad - k,
    {
        push_char(s, '0');
        k += 1;
        assert(s@ =~= base + sign + zeros(k as int));
    }
    s.append(digits.as_str());
    assert(zeros(pad as int) =~= zeros(width - sign.len() - digits@.len()));
    assert(s@ =~= old(s)@ + zero_padded(v as int, width as nat));
}

/// The text of a local time given as the C library's broken-down fields
/// (`tm_year` counts from 1900, `tm_mon` from 0):
/// `{year:04}-{month:02}-{day:02}T{hour:02}:{minute:02}:{second:02}`.
pub open spec fn local_time_text(
    tm_year: int,
    tm_mon: int,
    tm_mday: int,
    tm_hour: int,
    tm_min: int,
    tm_sec: int,
) -> Seq<char> {
    zero_padded(tm_year + 1900, 4) + seq!['-'] + zero_padded(tm_mon + 1, 2) + seq!['-'] + zero_padded(tm_mday, 2)
        + seq!['T'] + zero_padded(tm_hour, 2) + seq![':'] + zero_padded(tm_min, 2) + seq![':'] + zero_padded(
        tm_sec,
        2,
    )
}

/// Formats a broken-down local time as `YYYY-MM-DDTHH:MM:SS`.
pub fn format_local_time(tm_year: i32, tm_mon: i32, tm_mday: i32, tm_hour: i32, tm_min: i32, tm_sec: i32) -> (text: String)
    requires
        tm_year + 1900 <= i32::MAX,
        tm_mon + 1 <= i32::MAX,
    ensures
        text@ == local_time_text(
            tm_year as int,
            tm_mon as int,
            tm_mday as int,
            tm_hour as int,
            tm_min as int,
            tm_sec as int,
        ),
{
    let mut text = String::new();
    push_padded(&mut text, (tm_year + 1900) as i64, 4);
    push_char(&mut text, '-');
    push_padded(&mut text, (tm_mon + 1) as i64, 2);
    push_char(&mut text, '-');
    push_padded(&mut text, tm_mday as i64, 2);
    push_char(&mut text, 'T');
    push_padded(&mut text, tm_hour as i64, 2);
    push_char(&mut text, ':');
    push_padded(&mut text, tm_min as i64, 2);
    push_char(&mut text, ':');
    push_padded(&mut text, tm_sec as i64, 2);
    assert(text@ =~= local_time_text(
        tm_year as int,
        tm_mon as int,
        tm_mday as int,
        tm_hour as int,
        tm_min as int,
        tm_sec as int,
    ));
    text
}

} // verus!
