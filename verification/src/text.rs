//! Verified text rendering of durations.
//!
//! Decimal rendering is specified by [`dec_digits`] and proved digit by
//! digit; on top of it sit the human-readable duration used by the status
//! display ([`format_duration`]) and the zero-padded `mm:ss` countdown of the
//! break screen ([`clock_text`]).

use vstd::prelude::*;
use vstd::string::StringExecFns;

verus! {

/// The decimal digit character for `d` in `0 ..= 9`.
pub open spec fn digit_char(d: int) -> char {
    if d == 0 {
        '0'
    } else if d == 1 {
        '1'
    } else if d == 2 {
        '2'
    } else if d == 3 {
        '3'
    } else if d == 4 {
        '4'
    } else if d == 5 {
        '5'
    } else if d == 6 {
        '6'
    } else if d == 7 {
        '7'
    } else if d == 8 {
        '8'
    } else {
        '9'
    }
}

/// The decimal rendering of a non-negative integer, most significant digit
/// first, with no leading zeros (a lone `0` for zero).
pub open spec fn dec_digits(n: int) -> Seq<char>
    recommends
        0 <= n,
    decreases n,
{
    if n < 10 {
        seq![digit_char(n)]
    } else {
        dec_digits(n / 10).push(digit_char(n % 10))
    }
}

/// The decimal rendering of `n`, zero-padded on the left to at least two
/// characters.
pub open spec fn pad2(n: int) -> Seq<char> {
    if n < 10 {
        seq!['0'] + dec_digits(n)
    } else {
        dec_digits(n)
    }
}

/// The human-readable duration for a signed number of seconds: `"12m 3s"`
/// when at least one full positive minute remains, otherwise just the
/// truncated seconds part (which keeps its sign, so an overdue duration
/// shows as, say, `"-5s"`).
pub open spec fn spec_format_duration(seconds: int) -> Seq<char> {
    if seconds >= 0 {
        let minutes = seconds / 60;
        let rest = seconds % 60;
        if minutes > 0 {
            dec_digits(minutes) + seq!['m', ' '] + dec_digits(rest) + seq!['s']
        } else {
            dec_digits(rest) + seq!['s']
        }
    } else {
        let rest = (-seconds) % 60;
        if rest == 0 {
            seq!['0', 's']
        } else {
            seq!['-'] + dec_digits(rest) + seq!['s']
        }
    }
}

/// The `mm:ss` countdown text for a number of remaining seconds, each part
/// zero-padded to two characters.
pub open spec fn spec_clock_text(remaining: int) -> Seq<char> {
    pad2(remaining / 60) + seq![':'] + pad2(remaining % 60)
}

/// The one-character string for a decimal digit.
fn digit_str(d: u64) -> (s: &'static str)
    requires
        d < 10,
    ensures
        s@ == seq![digit_char(d as int)],
{
    proof {
        reveal_strlit("0");
        reveal_strlit("1");
        reveal_strlit("2");
        reveal_strlit("3");
        reveal_strlit("4");
        reveal_strlit("5");
        reveal_strlit("6");
        reveal_strlit("7");
        reveal_strlit("8");
        reveal_strlit("9");
    }
    let s = if d == 0 {
        "0"
    } else if d == 1 {
        "1"
    } else if d == 2 {
        "2"
    } else if d == 3 {
        "3"
    } else if d == 4 {
        "4"
    } else if d == 5 {
        "5"
    } else if d == 6 {
        "6"
    } else if d == 7 {
        "7"
    } else if d == 8 {
        "8"
    } else {
        "9"
    };
    assert(s@ =~= seq![digit_char(d as int)]);
    s
}

/// Append the decimal rendering of `n` to `out`.
fn push_dec(n: u64, out: &mut String)
    ensures
        final(out)@ == old(out)@ + dec_digits(n as int),
    decreases n,
{
    if n < 10 {
        out.append(digit_str(n));
        assert(out@ =~= old(out)@ + dec_digits(n as int));
    } else {
        push_dec(n / 10, out);
        out.append(digit_str(n % 10));
        assert(out@ =~= old(out)@ + dec_digits(n as int));
    }
}

/// The decimal rendering of `n` as a fresh string.
pub fn u64_to_string(n: u64) -> (s: String)
    ensures
        s@ == dec_digits(n as int),
{
    let mut s = String::new();
    push_dec(n, &mut s);
    assert(s@ =~= dec_digits(n as int));
    s
}

/// Format a signed number of seconds for display, as `"12m 3s"` or `"45s"`.
pub fn format_duration(seconds: i64) -> (s: String)
    requires
        i64::MIN < seconds,
    ensures
        s@ == spec_format_duration(seconds as int),
{
    proof {
        reveal_strlit("m ");
        reveal_strlit("s");
        reveal_strlit("-");
        reveal_strlit("0s");
    }
    if seconds >= 0 {
        let n = seconds as u64;
        let minutes = n / 60;
        let rest = n % 60;
        let mut s = String::new();
        if minutes > 0 {
            push_dec(minutes, &mut s);
            s.append("m ");
            push_dec(rest, &mut s);
            s.append("s");
            assert(s@ =~= spec_format_duration(seconds as int));
            s
        } else {
            push_dec(rest, &mut s);
            s.append("s");
            assert(s@ =~= spec_format_duration(seconds as int));
            s
        }
    } else {
        let positive = (-seconds) as u64;
        let rest = positive % 60;
        if rest == 0 {
            let s = "0s".to_owned();
            assert(s@ =~= spec_format_duration(seconds as int));
            s
        } else {
            let mut s = String::new();
            s.append("-");
            push_dec(rest, &mut s);
            s.append("s");
            assert(s@ =~= spec_format_duration(seconds as int));
            s
        }
    }
}

/// Append the zero-padded two-or-more character rendering of `n` to `out`.
fn push_pad2(n: u64, out: &mut String)
    ensures
        final(out)@ == old(out)@ + pad2(n as int),
{
    proof {
        reveal_strlit("0");
    }
    if n < 10 {
        out.append("0");
        push_dec(n, out);
        assert(out@ =~= old(out)@ + pad2(n as int));
    } else {
        push_dec(n, out);
        assert(out@ =~= old(out)@ + pad2(n as int));
    }
}

/// The `mm:ss` countdown text for `remaining` seconds.
pub fn clock_text(remaining: u64) -> (s: String)
    ensures
        s@ == spec_clock_text(remaining as int),
{
    proof {
        reveal_strlit(":");
    }
    let minutes = remaining / 60;
    let rest = remaining % 60;
    let mut s = String::new();
    push_pad2(minutes, &mut s);
    s.append(":");
    push_pad2(rest, &mut s);
    assert(s@ =~= spec_clock_text(remaining as int));
    s
}

} // verus!
