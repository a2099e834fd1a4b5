//! Rendering of the wall-clock instant that names a recording: the fixed
//! `YYYYMMDD_HHMMSS` form, and the file name built from it.  Reading the
//! clock is the runtime's job; it hands the instant in as plain values.

use vstd::prelude::*;

use vstd::string::StringExecFns;

verus! {

/// The decimal digit character for a value in `[0, 10)`.
pub open spec fn digit_char(d: int) -> char {
    if d == 0 {
        '0'
    } else if d == 1 {
        '1'
    } else if d == 2 {
        '2'
    } else if d == 3 {
        '3'
    } else if d == 4 {
        '4'
    } else if d == 5 {
        '5'
    } else if d == 6 {
        '6'
    } else if d == 7 {
        '7'
    } else if d == 8 {
        '8'
    } else {
        '9'
    }
}

/// A value in `[0, 100)` rendered as two digits, zero padded.
pub open spec fn two_digits(x: int) -> Seq<char> {
    seq![digit_char(x / 10), digit_char(x % 10)]
}

/// A value in `[0, 10000)` rendered as four digits, zero padded.
pub open spec fn four_digits(x: int) -> Seq<char> {
    two_digits(x / 100) + two_digits(x % 100)
}

/// The `YYYYMMDD_HHMMSS` rendering of a wall-clock instant.
pub open spec fn spec_timestamp(
    year: int,
    month: int,
    day: int,
    hour: int,
    minute: int,
    second: int,
) -> Seq<char> {
    four_digits(year) + two_digits(month) + two_digits(day) + seq!['_'] + two_digits(hour)
        + two_digits(minute) + two_digits(second)
}

fn append_digit(out: &mut String, d: u8)
    requires
        d < 10,
    ensures
        final(out)@ == old(out)@ + seq![digit_char(d as int)],
{
    match d {
        0 => out.append("0"),
        1 => out.append("1"),
        2 => out.append("2"),
        3 => out.append("3"),
        4 => out.append("4"),
        5 => out.append("5"),
        6 => out.append("6"),
        7 => out.append("7"),
        8 => out.append("8"),
        _ => out.append("9"),
    }
    proof {
        reveal_strlit("0");
        reveal_strlit("1");
        reveal_strlit("2");
        reveal_strlit("3");
        reveal_strlit("4");
        reveal_strlit("5");
        reveal_strlit("6");
        reveal_strlit("7");
        reveal_strlit("8");
        reveal_strlit("9");
        assert(out@ =~= old(out)@ + seq![digit_char(d as int)]);
    }
}

fn append_two_digits(out: &mut String, x: u8)
    requires
        x < 100,
    ensures
        final(out)@ == old(out)@ + two_digits(x as int),
{
    append_digit(out, x / 10);
    append_digit(out, x % 10);
    proof {
        assert(out@ =~= old(out)@ + two_digits(x as int));
    }
}

/// Render a wall-clock instant as `YYYYMMDD_HHMMSS`, every field zero
/// padded to its fixed width.
pub fn format_timestamp(
    year: u16,
    month: u8,
    day: u8,
    hour: u8,
    minute: u8,
    second: u8,
) -> (r: String)
    requires
        year < 10000,
        month < 100,
        day < 100,
        hour < 100,
        minute < 100,
        second < 100,
    ensures
        r@ == spec_timestamp(
            year as int,
            month as int,
            day as int,
            hour as int,
            minute as int,
            second as int,
        ),
{
    let mut out: String = String::new();
    append_two_digits(&mut out, (year / 100) as u8);
    append_two_digits(&mut out, (year % 100) as u8);
    append_two_digits(&mut out, month);
    append_two_digits(&mut out, day);
    out.append("_");
    append_two_digits(&mut out, hour);
    append_two_digits(&mut out, minute);
    append_two_digits(&mut out, second);
    proof {
        reveal_strlit("_");
        assert(out@ =~= spec_timestamp(
            year as int,
            month as int,
            day as int,
            hour as int,
            minute as int,
            second as int,
        ));
    }
    out
}

/// The file name a recording started at `timestamp` is persisted under.
pub fn recording_file_name(timestamp: &str) -> (r: String)
    ensures
        r@ == "recording_"@ + timestamp@ + ".wav"@,
{
    let mut r: String = String::from_str("recording_");
    r.append(timestamp);
    r.append(".wav");
    r
}

} // verus!
