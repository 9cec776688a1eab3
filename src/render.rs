use vstd::prelude::*;
use crate::reading::{SensorReading, Selection};

verus! {

/// The character of the decimal digit `d`.
pub open spec fn digit_char(d: nat) -> char {
    seq!['0', '1', '2', '3', '4', '5', '6', '7', '8', '9'][d as int]
}

/// `n` written in decimal, without leading zeros.
pub open spec fn decimal(n: nat) -> Seq<char>
    decreases n,
{
    if n < 10 {
        seq![digit_char(n)]
    } else {
        decimal(n / 10) + seq![digit_char(n % 10)]
    }
}

/// A temperature in hundredths of a degree, cut towards zero to one decimal.
pub open spec fn temperature_text(centi: int) -> Seq<char> {
    let tenths = (if centi < 0 { -centi } else { centi }) / 10;
    let sign = if centi < 0 && tenths > 0 { seq!['-'] } else { Seq::empty() };
    sign + decimal((tenths / 10) as nat) + seq!['.', digit_char((tenths % 10) as nat)]
}

/// A humidity, zero-padded to at least two digits.
pub open spec fn humidity_text(h: nat) -> Seq<char> {
    if h < 10 {
        seq!['0'] + decimal(h)
    } else {
        decimal(h)
    }
}

/// The line for one reading: thermometer glyph, temperature, droplet glyph,
/// humidity, percent glyph.
pub open spec fn reading_line(r: SensorReading) -> Seq<char> {
    seq!['\u{f07d0}', ' '] + temperature_text(r.centidegrees as int) + seq!['\u{f0504}', ' ']
        + humidity_text(r.humidity as nat) + seq!['\u{e373}']
}

/// Line printed when the hub has no supported sensor.
pub open spec fn no_sensor_line() -> Seq<char> {
    seq!['N', 'O', '_', 'S', 'E', 'N', 'S']
}

/// Line printed when no single sensor could be chosen.
pub open spec fn ambiguous_line() -> Seq<char> {
    seq!['A', 'M', 'B', 'I', 'G', '_', 'S', 'E', 'N', 'S']
}

/// The status line for an outcome of a poll.
pub open spec fn status_line(sel: Selection) -> Seq<char> {
    match sel {
        Selection::Unique(r) => reading_line(r),
        Selection::NoSensor => no_sensor_line(),
        Selection::Ambiguous { .. } => ambiguous_line(),
    }
}

fn digit_str(d: u64) -> (r: &'static str)
    requires
        d < 10,
    ensures
        r@ == seq![digit_char(d as nat)],
{
    proof {
        reveal_strlit("0");
        reveal_strlit("1");
        reveal_strlit("2");
        reveal_strlit("3");
        reveal_strlit("4");
        reveal_strlit("5");
        reveal_strlit("6");
        reveal_strlit("7");
        reveal_strlit("8");
        reveal_strlit("9");
    }
    let r = match d {
        0 => "0",
        1 => "1",
        2 => "2",
        3 => "3",
        4 => "4",
        5 => "5",
        6 => "6",
        7 => "7",
        8 => "8",
        _ => "9",
    };
    assert(r@ =~= seq![digit_char(d as nat)]);
    r
}

/// Appends `n` in decimal to `out`.
pub fn push_decimal(out: &mut String, n: u64)
    ensures
        final(out)@ == old(out)@ + decimal(n as nat),
    decreases n,
{
    if n >= 10 {
        push_decimal(out, n / 10);
    }
    out.append(digit_str(n % 10));
    assert(final(out)@ =~= old(out)@ + decimal(n as nat));
}

/// Appends a temperature given in hundredths of a degree, cut towards zero to
/// one decimal place.
pub fn push_temperature(out: &mut String, centi: i32)
    ensures
        final(out)@ == old(out)@ + temperature_text(centi as int),
{
    let magnitude: u64 = if centi < 0 { (-(centi as i64)) as u64 } else { centi as u64 };
    let tenths: u64 = magnitude / 10;
    if centi < 0 && tenths > 0 {
        proof { reveal_strlit("-"); }
        out.append("-");
    }
    push_decimal(out, tenths / 10);
    proof { reveal_strlit("."); }
    out.append(".");
    out.append(digit_str(tenths % 10));
    assert(final(out)@ =~= old(out)@ + temperature_text(centi as int));
}

/// Appends a humidity, zero-padded to two digits.
pub fn push_humidity(out: &mut String, h: u8)
    ensures
        final(out)@ == old(out)@ + humidity_text(h as nat),
{
    if h < 10 {
        proof { reveal_strlit("0"); }
        out.append("0");
    }
    push_decimal(out, h as u64);
    assert(final(out)@ =~= old(out)@ + humidity_text(h as nat));
}

/// Renders the outcome of a poll as one status line.
pub fn render(sel: &Selection) -> (r: String)
    ensures
        r@ == status_line(*sel),
{
    match sel {
        Selection::Unique(reading) => {
            let mut out = String::new();
            proof {
                reveal_strlit("\u{f07d0} ");
                reveal_strlit("\u{f0504} ");
                reveal_strlit("\u{e373}");
            }
            out.append("\u{f07d0} ");
            push_temperature(&mut out, reading.centidegrees);
            out.append("\u{f0504} ");
            push_humidity(&mut out, reading.humidity);
            out.append("\u{e373}");
            assert(out@ =~= reading_line(*reading));
            out
        },
        Selection::NoSensor => {
            proof { reveal_strlit("NO_SENS"); }
            let out = String::from_str("NO_SENS");
            assert(out@ =~= no_sensor_line());
            out
        },
        Selection::Ambiguous { .. } => {
            proof { reveal_strlit("AMBIG_SENS"); }
            let out = String::from_str("AMBIG_SENS");
            assert(out@ =~= ambiguous_line());
            out
        },
    }
}

/// Rendering depends on the outcome alone: equal outcomes give equal lines,
/// on every call.
pub proof fn lemma_render_deterministic(a: Selection, b: Selection)
    requires
        a == b,
    ensures
        status_line(a) == status_line(b),
{
}

} // verus!
