//! Rendering of timestamps and measurement values as CSV text.
//!
//! Each exported row becomes one line `YYYY-MM-DD HH:MM:SS,<value>\n`.
//! A null measurement renders as the canonical `NaN` token, never as an
//! empty field, so the value column always holds a numeric-looking token.

use vstd::prelude::*;
use vstd::string::StringExecFns;
use crate::dates::Timestamp;

verus! {

pub open spec fn digit_char(d: int) -> char {
    if d == 0 {
        '0'
    } else if d == 1 {
        '1'
    } else if d == 2 {
        '2'
    } else if d == 3 {
        '3'
    } else if d == 4 {
        '4'
    } else if d == 5 {
        '5'
    } else if d == 6 {
        '6'
    } else if d == 7 {
        '7'
    } else if d == 8 {
        '8'
    } else {
        '9'
    }
}

/// `n` as exactly two decimal digits, zero-padded.
pub open spec fn two_digit_text(n: int) -> Seq<char> {
    seq![digit_char(n / 10), digit_char(n % 10)]
}

/// `n` as exactly four decimal digits, zero-padded.
pub open spec fn four_digit_text(n: int) -> Seq<char> {
    two_digit_text(n / 100) + two_digit_text(n % 100)
}

/// The timestamp as `YYYY-MM-DD HH:MM:SS`.
pub open spec fn timestamp_text(ts: Timestamp) -> Seq<char> {
    four_digit_text(ts.year as int) + seq!['-'] + two_digit_text(ts.month as int) + seq!['-']
        + two_digit_text(ts.day as int) + seq![' '] + two_digit_text(ts.hour as int) + seq![':']
        + two_digit_text(ts.minute as int) + seq![':'] + two_digit_text(ts.second as int)
}

/// The canonical token a null measurement renders as.
pub open spec fn nan_text() -> Seq<char> {
    seq!['N', 'a', 'N']
}

/// One CSV line: the timestamp, a comma, the value's text (or `NaN`
/// when the value is null), and a line feed.
pub open spec fn csv_line_text(ts: Timestamp, value: Option<Seq<char>>) -> Seq<char> {
    timestamp_text(ts) + seq![','] + (match value {
        Some(v) => v,
        None => nan_text(),
    }) + seq!['\n']
}

fn digit_str(d: u8) -> (r: &'static str)
    requires
        d <= 9,
    ensures
        r@ == seq![digit_char(d as int)],
{
    proof {
        reveal_strlit("0");
        reveal_strlit("1");
        reveal_strlit("2");
        reveal_strlit("3");
        reveal_strlit("4");
        reveal_strlit("5");
        reveal_strlit("6");
        reveal_strlit("7");
        reveal_strlit("8");
        reveal_strlit("9");
    }
    let r = match d {
        0 => "0",
        1 => "1",
        2 => "2",
        3 => "3",
        4 => "4",
        5 => "5",
        6 => "6",
        7 => "7",
        8 => "8",
        _ => "9",
    };
    proof {
        assert(r@ =~= seq![digit_char(d as int)]);
    }
    r
}

fn push_two_digits(out: &mut String, n: u8)
    requires
        n < 100,
    ensures
        final(out)@ == old(out)@ + two_digit_text(n as int),
{
    out.append(digit_str(n / 10));
    out.append(digit_str(n % 10));
    proof {
        assert(final(out)@ =~= old(out)@ + two_digit_text(n as int));
    }
}

fn push_four_digits(out: &mut String, n: u16)
    requires
        n < 10000,
    ensures
        final(out)@ == old(out)@ + four_digit_text(n as int),
{
    push_two_digits(out, (n / 100) as u8);
    push_two_digits(out, (n % 100) as u8);
    proof {
        assert(final(out)@ =~= old(out)@ + four_digit_text(n as int));
    }
}

/// Render one result row as its CSV line. `value` is the measurement's
/// decimal text, or `None` for a null measurement, which renders as the
/// `NaN` token.
pub fn render_line(ts: &Timestamp, value: Option<&String>) -> (r: String)
    requires
        ts.valid(),
    ensures
        r@ == csv_line_text(*ts, match value {
            Some(v) => Some(v@),
            None => None,
        }),
{
    proof {
        reveal_strlit("-");
        reveal_strlit(" ");
        reveal_strlit(":");
        reveal_strlit(",");
        reveal_strlit("NaN");
        reveal_strlit("\n");
    }
    let mut out = String::new();
    push_four_digits(&mut out, ts.year);
    out.append("-");
    push_two_digits(&mut out, ts.month);
    out.append("-");
    push_two_digits(&mut out, ts.day);
    out.append(" ");
    push_two_digits(&mut out, ts.hour);
    out.append(":");
    push_two_digits(&mut out, ts.minute);
    out.append(":");
    push_two_digits(&mut out, ts.second);
    out.append(",");
    match value {
        Some(v) => out.append(v.as_str()),
        None => out.append("NaN"),
    }
    out.append("\n");
    proof {
        assert(out@ =~= csv_line_text(*ts, match value {
            Some(v) => Some(v@),
            None => None,
        }));
    }
    out
}

} // verus!
