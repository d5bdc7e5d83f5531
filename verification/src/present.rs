//! Rendering of the two personnel counters as `"<current>↑<increase>"`.
//!
//! The decimal rendering of the counters and the composition of the output
//! line are verified here; the visual emphasis around each counter comes from
//! the `colored` crate through trusted wrappers, so the contract of `render`
//! pins the counters and the arrow exactly and leaves the emphasis bytes
//! around them open.

use vstd::prelude::*;
use vstd::string::StringExecFns;
use colored::Colorize;

use crate::api::Statistics;

verus! {

/// The decimal digit character for a digit value; values of ten or more are
/// never produced by the renderings below.
pub open spec fn digit_char(d: int) -> char {
    if d == 0 {
        '0'
    } else if d == 1 {
        '1'
    } else if d == 2 {
        '2'
    } else if d == 3 {
        '3'
    } else if d == 4 {
        '4'
    } else if d == 5 {
        '5'
    } else if d == 6 {
        '6'
    } else if d == 7 {
        '7'
    } else if d == 8 {
        '8'
    } else {
        '9'
    }
}

/// The decimal rendering of an unsigned value, most significant digit first,
/// with no leading zeros (zero renders as a single `'0'`).
pub open spec fn spec_u64_string(n: nat) -> Seq<char>
    decreases n,
{
    if n < 10 {
        seq![digit_char(n as int)]
    } else {
        spec_u64_string(n / 10).push(digit_char((n % 10) as int))
    }
}

/// The decimal rendering of a signed value: the magnitude's rendering, with a
/// leading `'-'` when the value is negative.
pub open spec fn spec_i64_string(v: int) -> Seq<char> {
    if v >= 0 {
        spec_u64_string(v as nat)
    } else {
        seq!['-'] + spec_u64_string((-v) as nat)
    }
}

/// The separator between the two counters in the output line.
pub open spec fn up_arrow() -> Seq<char> {
    seq!['↑']
}

/// No character of an unsigned decimal rendering is the ANSI escape
/// character.
pub proof fn lemma_u64_string_no_escape(n: nat)
    ensures
        forall|i: int|
            0 <= i < spec_u64_string(n).len() ==> #[trigger] spec_u64_string(n)[i] != '\u{1b}',
    decreases n,
{
    if n >= 10 {
        lemma_u64_string_no_escape(n / 10);
        assert forall|i: int|
            0 <= i < spec_u64_string(n).len() implies #[trigger] spec_u64_string(n)[i]
            != '\u{1b}' by {
            if i < spec_u64_string(n / 10).len() {
                assert(spec_u64_string(n)[i] == spec_u64_string(n / 10)[i]);
            }
        }
    }
}

/// No character of a signed decimal rendering is the ANSI escape character.
pub proof fn lemma_i64_string_no_escape(v: int)
    ensures
        forall|i: int|
            0 <= i < spec_i64_string(v).len() ==> #[trigger] spec_i64_string(v)[i] != '\u{1b}',
{
    if v >= 0 {
        lemma_u64_string_no_escape(v as nat);
    } else {
        lemma_u64_string_no_escape((-v) as nat);
        assert forall|i: int|
            0 <= i < spec_i64_string(v).len() implies #[trigger] spec_i64_string(v)[i]
            != '\u{1b}' by {
            if i > 0 {
                assert(spec_i64_string(v)[i] == spec_u64_string((-v) as nat)[i - 1]);
            }
        }
    }
}

/// Append the character of a single decimal digit.
fn push_digit(out: &mut String, d: u64)
    requires
        d < 10,
    ensures
        final(out)@ == old(out)@ + seq![digit_char(d as int)],
{
    if d == 0 {
        out.append("0");
        proof {
            reveal_strlit("0");
            assert(out@ =~= old(out)@ + seq![digit_char(0)]);
        }
    } else if d == 1 {
        out.append("1");
        proof {
            reveal_strlit("1");
            assert(out@ =~= old(out)@ + seq![digit_char(1)]);
        }
    } else if d == 2 {
        out.append("2");
        proof {
            reveal_strlit("2");
            assert(out@ =~= old(out)@ + seq![digit_char(2)]);
        }
    } else if d == 3 {
        out.append("3");
        proof {
            reveal_strlit("3");
            assert(out@ =~= old(out)@ + seq![digit_char(3)]);
        }
    } else if d == 4 {
        out.append("4");
        proof {
            reveal_strlit("4");
            assert(out@ =~= old(out)@ + seq![digit_char(4)]);
        }
    } else if d == 5 {
        out.append("5");
        proof {
            reveal_strlit("5");
            assert(out@ =~= old(out)@ + seq![digit_char(5)]);
        }
    } else if d == 6 {
        out.append("6");
        proof {
            reveal_strlit("6");
            assert(out@ =~= old(out)@ + seq![digit_char(6)]);
        }
    } else if d == 7 {
        out.append("7");
        proof {
            reveal_strlit("7");
            assert(out@ =~= old(out)@ + seq![digit_char(7)]);
        }
    } else if d == 8 {
        out.append("8");
        proof {
            reveal_strlit("8");
            assert(out@ =~= old(out)@ + seq![digit_char(8)]);
        }
    } else {
        out.append("9");
        proof {
            reveal_strlit("9");
            assert(out@ =~= old(out)@ + seq![digit_char(9)]);
        }
    }
}

/// Append the decimal rendering of an unsigned value.
fn push_u64_digits(out: &mut String, n: u64)
    ensures
        final(out)@ == old(out)@ + spec_u64_string(n as nat),
    decreases n,
{
    if n < 10 {
        push_digit(out, n);
    } else {
        push_u64_digits(out, n / 10);
        push_digit(out, n % 10);
        proof {
            assert(out@ =~= old(out)@ + spec_u64_string(n as nat));
        }
    }
}

/// The decimal rendering of an unsigned value as a `String`.
pub fn u64_to_string(n: u64) -> (s: String)
    ensures
        s@ == spec_u64_string(n as nat),
{
    let mut s = String::new();
    push_u64_digits(&mut s, n);
    proof {
        assert(s@ =~= spec_u64_string(n as nat));
    }
    s
}

/// The decimal rendering of a signed value as a `String`.
pub fn i64_to_string(v: i64) -> (s: String)
    ensures
        s@ == spec_i64_string(v as int),
{
    if v >= 0 {
        u64_to_string(v as u64)
    } else {
        let mut s = String::new();
        s.append("-");
        let mag: u64 = if v == i64::MIN {
            9223372036854775808
        } else {
            (-v) as u64
        };
        push_u64_digits(&mut s, mag);
        proof {
            reveal_strlit("-");
            assert(s@ =~= spec_i64_string(v as int));
        }
        s
    }
}

/// Relies on `colored`'s `Colorize::red` and the `Display` rendering of its
/// `ColoredString`: for input free of the ANSI escape character, the
/// rendering is the input itself, possibly wrapped between a style prefix
/// and a reset suffix — whether it is wrapped depends on the process's color
/// configuration and environment, so nothing more is stated.
#[verifier::external_body]
fn paint_red(s: &str) -> (r: String)
    requires
        forall|i: int| 0 <= i < s@.len() ==> s@[i] != '\u{1b}',
    ensures
        exists|pre: Seq<char>, suf: Seq<char>| r@ == pre + s@ + suf,
{
    s.red().to_string()
}

/// Relies on `colored`'s `Colorize::green` and the `Display` rendering of
/// its `ColoredString`, exactly as `paint_red` relies on `Colorize::red`.
#[verifier::external_body]
fn paint_green(s: &str) -> (r: String)
    requires
        forall|i: int| 0 <= i < s@.len() ==> s@[i] != '\u{1b}',
    ensures
        exists|pre: Seq<char>, suf: Seq<char>| r@ == pre + s@ + suf,
{
    s.green().to_string()
}

/// The output line: the current counter's text, the up arrow, then the
/// increase counter's text, in that order and nothing else.
pub fn compose_output(current: &String, increase: &String) -> (r: String)
    ensures
        r@ == current@ + up_arrow() + increase@,
{
    let mut r = String::new();
    r.append(current.as_str());
    r.append("↑");
    r.append(increase.as_str());
    proof {
        reveal_strlit("↑");
        assert(r@ =~= current@ + up_arrow() + increase@);
    }
    r
}

/// The rendered result line: the cumulative personnel counter and its
/// per-period increase, each in decimal and possibly wrapped in visual
/// emphasis, separated by the up arrow. The emphasis bytes come from the
/// `colored` crate and are not pinned down; the two decimal renderings and
/// the arrow between them are.
pub fn render(stats: &Statistics) -> (r: String)
    ensures
        exists|a: Seq<char>, b: Seq<char>, c: Seq<char>, d: Seq<char>|
            r@ == a + spec_i64_string(stats.data.stats.personnel_units as int) + b + up_arrow()
                + c + spec_i64_string(stats.data.increase.personnel_units as int) + d,
{
    let mil = i64_to_string(stats.data.stats.personnel_units);
    let inc = i64_to_string(stats.data.increase.personnel_units);
    proof {
        lemma_i64_string_no_escape(stats.data.stats.personnel_units as int);
        lemma_i64_string_no_escape(stats.data.increase.personnel_units as int);
    }
    let mil_col = paint_red(mil.as_str());
    let inc_col = paint_green(inc.as_str());
    let out = compose_output(&mil_col, &inc_col);
    proof {
        let cur = spec_i64_string(stats.data.stats.personnel_units as int);
        let ins = spec_i64_string(stats.data.increase.personnel_units as int);
        let (p1, s1) = choose|p1: Seq<char>, s1: Seq<char>| mil_col@ == p1 + mil@ + s1;
        let (p2, s2) = choose|p2: Seq<char>, s2: Seq<char>| inc_col@ == p2 + inc@ + s2;
        assert(out@ =~= p1 + cur + s1 + up_arrow() + p2 + ins + s2);
    }
    out
}

} // verus!
