//! The text of a log line: `HH:MM:SS [LEVEL] message`, ended by a newline.

use crate::facade::level_name;
use crate::severity::Severity;
use crate::time::TimeTriplet;
use vstd::prelude::*;
use vstd::string::StringExecFns;

verus! {

/// The character that stands for a decimal digit.
pub open spec fn digit_char(d: nat) -> char {
    if d == 0 {
        '0'
    } else if d == 1 {
        '1'
    } else if d == 2 {
        '2'
    } else if d == 3 {
        '3'
    } else if d == 4 {
        '4'
    } else if d == 5 {
        '5'
    } else if d == 6 {
        '6'
    } else if d == 7 {
        '7'
    } else if d == 8 {
        '8'
    } else {
        '9'
    }
}

/// A number in decimal, padded on the left with a zero to a width of two.
/// From 100 on it takes the three digits it needs.
pub open spec fn padded(v: nat) -> Seq<char> {
    if v < 100 {
        seq![digit_char(v / 10), digit_char(v % 10)]
    } else {
        seq![digit_char(v / 100), digit_char(v / 10 % 10), digit_char(v % 10)]
    }
}

/// A time of day as `HH:MM:SS`.
pub open spec fn time_text(time: TimeTriplet) -> Seq<char> {
    padded(time.hour as nat) + seq![':'] + padded(time.minute as nat) + seq![':'] + padded(
        time.second as nat,
    )
}

/// The whole line for one record, newline included.
pub open spec fn line_text(time: TimeTriplet, severity: Severity, message: Seq<char>) -> Seq<char> {
    time_text(time) + seq![' ', '['] + severity.name() + seq![']', ' '] + message + seq!['\n']
}

fn digit_str(d: u8) -> (r: &'static str)
    requires
        d < 10,
    ensures
        r@ == seq![digit_char(d as nat)],
{
    proof {
        reveal_strlit("0");
        reveal_strlit("1");
        reveal_strlit("2");
        reveal_strlit("3");
        reveal_strlit("4");
        reveal_strlit("5");
        reveal_strlit("6");
        reveal_strlit("7");
        reveal_strlit("8");
        reveal_strlit("9");
    }
    let r = match d {
        0 => "0",
        1 => "1",
        2 => "2",
        3 => "3",
        4 => "4",
        5 => "5",
        6 => "6",
        7 => "7",
        8 => "8",
        _ => "9",
    };
    assert(r@ =~= seq![digit_char(d as nat)]);
    r
}

/// Appends `v` in decimal to `out`, at least two digits wide.
fn push_padded(out: &mut String, v: u8)
    ensures
        final(out)@ == old(out)@ + padded(v as nat),
{
    if v >= 100 {
        out.append(digit_str(v / 100));
        out.append(digit_str(v / 10 % 10));
    } else {
        out.append(digit_str(v / 10));
    }
    out.append(digit_str(v % 10));
    assert(out@ =~= old(out)@ + padded(v as nat));
}

/// Renders a number as a field of the timestamp.
pub fn pad2(v: u8) -> (r: String)
    ensures
        r@ == padded(v as nat),
        v < 100 ==> r@.len() == 2,
        v < 10 ==> r@[0] == '0' && r@[1] == digit_char(v as nat),
        10 <= v < 100 ==> r@[0] != '0',
{
    let mut out = String::new();
    push_padded(&mut out, v);
    assert(out@ =~= padded(v as nat));
    proof {
        if v < 100 {
            lemma_zero_padding(v as nat);
        }
    }
    out
}

/// Renders a time of day as `HH:MM:SS`.
pub fn format_time(time: TimeTriplet) -> (r: String)
    ensures
        r@ == time_text(time),
        time.wf() ==> r@.len() == 8,
{
    proof {
        reveal_strlit(":");
    }
    let mut out = String::new();
    push_padded(&mut out, time.hour);
    out.append(":");
    push_padded(&mut out, time.minute);
    out.append(":");
    push_padded(&mut out, time.second);
    assert(":"@ =~= seq![':']);
    assert(out@ =~= time_text(time));
    out
}

/// Renders the line for a record of `severity` that was accepted at `time`.
/// The message is taken as it is: nothing is escaped and nothing is cut off.
pub fn format_line(time: TimeTriplet, severity: Severity, message: &str) -> (r: String)
    ensures
        r@ == line_text(time, severity, message@),
{
    proof {
        reveal_strlit(" [");
        reveal_strlit("] ");
        reveal_strlit("\n");
    }
    let mut out = format_time(time);
    out.append(" [");
    out.append(level_name(severity));
    out.append("] ");
    out.append(message);
    out.append("\n");
    assert(" ["@ =~= seq![' ', '[']);
    assert("] "@ =~= seq![']', ' ']);
    assert("\n"@ =~= seq!['\n']);
    assert(out@ =~= line_text(time, severity, message@));
    out
}

/// A field below ten is written with a leading zero; a field from ten to
/// ninety-nine is written as its two digits, with nothing added. Either way
/// the field is two characters wide.
pub proof fn lemma_zero_padding(v: nat)
    requires
        v < 100,
    ensures
        padded(v).len() == 2,
        v < 10 ==> padded(v) == seq!['0', digit_char(v)],
        v >= 10 ==> padded(v)[0] != '0' && padded(v)[0] == digit_char(v / 10) && padded(v)[1]
            == digit_char(v % 10),
{
    if v < 10 {
        assert(padded(v) =~= seq!['0', digit_char(v)]);
    }
}

} // verus!
