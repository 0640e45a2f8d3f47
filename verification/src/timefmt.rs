//! Rendering an uptime, given in seconds, as zero-padded `H:MM:SS` text.

use vstd::prelude::*;

verus! {

/// The decimal digit character of `d`.
pub open spec fn digit_char(d: nat) -> char {
    if d == 0 {
        '0'
    } else if d == 1 {
        '1'
    } else if d == 2 {
        '2'
    } else if d == 3 {
        '3'
    } else if d == 4 {
        '4'
    } else if d == 5 {
        '5'
    } else if d == 6 {
        '6'
    } else if d == 7 {
        '7'
    } else if d == 8 {
        '8'
    } else {
        '9'
    }
}

/// The decimal digits of `n`, most significant first.
pub open spec fn decimal_seq(n: nat) -> Seq<char>
    decreases n,
{
    if n < 10 {
        seq![digit_char(n)]
    } else {
        decimal_seq(n / 10) + seq![digit_char(n % 10)]
    }
}

/// The decimal digits of `n`, zero-padded to at least two places.
pub open spec fn two_digit_seq(n: nat) -> Seq<char> {
    if n < 10 {
        seq!['0'] + decimal_seq(n)
    } else {
        decimal_seq(n)
    }
}

/// `total_seconds`, split into hours, minutes and seconds and rendered
/// with each part zero-padded to two places.
pub open spec fn duration_text(total_seconds: nat) -> Seq<char> {
    two_digit_seq(total_seconds / 3600) + seq![':'] + two_digit_seq((total_seconds % 3600) / 60)
        + seq![':'] + two_digit_seq(total_seconds % 60)
}

/// The single-character string of one decimal digit.
fn digit_str(d: u64) -> (s: &'static str)
    requires
        d < 10,
    ensures
        s@ == seq![digit_char(d as nat)],
{
    proof {
        reveal_strlit("0");
        reveal_strlit("1");
        reveal_strlit("2");
        reveal_strlit("3");
        reveal_strlit("4");
        reveal_strlit("5");
        reveal_strlit("6");
        reveal_strlit("7");
        reveal_strlit("8");
        reveal_strlit("9");
    }
    let s = if d == 0 {
        "0"
    } else if d == 1 {
        "1"
    } else if d == 2 {
        "2"
    } else if d == 3 {
        "3"
    } else if d == 4 {
        "4"
    } else if d == 5 {
        "5"
    } else if d == 6 {
        "6"
    } else if d == 7 {
        "7"
    } else if d == 8 {
        "8"
    } else {
        "9"
    };
    proof {
        assert(s@ =~= seq![digit_char(d as nat)]);
    }
    s
}

/// Appends the decimal digits of `n` to `out`.
fn push_decimal(out: &mut String, n: u64)
    ensures
        final(out)@ == old(out)@ + decimal_seq(n as nat),
    decreases n,
{
    if n >= 10 {
        push_decimal(out, n / 10);
        out.append(digit_str(n % 10));
        proof {
            assert(out@ =~= old(out)@ + decimal_seq(n as nat));
        }
    } else {
        out.append(digit_str(n));
        proof {
            assert(out@ =~= old(out)@ + decimal_seq(n as nat));
        }
    }
}

/// Appends the decimal digits of `n` to `out`, zero-padded to at least
/// two places.
fn push_two_digit(out: &mut String, n: u64)
    ensures
        final(out)@ == old(out)@ + two_digit_seq(n as nat),
{
    if n < 10 {
        proof {
            reveal_strlit("0");
        }
        out.append("0");
        proof {
            assert(out@ =~= old(out)@ + seq!['0']);
        }
    }
    push_decimal(out, n);
    proof {
        assert(out@ =~= old(out)@ + two_digit_seq(n as nat));
    }
}

/// The decimal text of `n`, as identifiers are rendered into tokens.
pub fn decimal_string(n: u64) -> (text: String)
    ensures
        text@ == decimal_seq(n as nat),
{
    let mut out = String::new();
    push_decimal(&mut out, n);
    proof {
        assert(out@ =~= decimal_seq(n as nat));
    }
    out
}

/// A decimal rendering always has at least one digit.
proof fn lemma_decimal_seq_nonempty(n: nat)
    ensures
        decimal_seq(n).len() >= 1,
    decreases n,
{
    if n >= 10 {
        lemma_decimal_seq_nonempty(n / 10);
    }
}

/// Distinct numbers have distinct decimal renderings.
pub proof fn lemma_decimal_seq_injective(a: nat, b: nat)
    requires
        a != b,
    ensures
        decimal_seq(a) != decimal_seq(b),
    decreases a + b,
{
    if decimal_seq(a) == decimal_seq(b) {
        if a < 10 && b < 10 {
            assert(digit_char(a) != digit_char(b));
            assert(decimal_seq(a)[0] == digit_char(a));
            assert(decimal_seq(b)[0] == digit_char(b));
        } else if a < 10 && b >= 10 {
            assert(decimal_seq(a).len() == 1);
            lemma_decimal_seq_nonempty(b / 10);
            assert(decimal_seq(b).len() == decimal_seq(b / 10).len() + 1);
        } else if a >= 10 && b < 10 {
            assert(decimal_seq(b).len() == 1);
            lemma_decimal_seq_nonempty(a / 10);
            assert(decimal_seq(a).len() == decimal_seq(a / 10).len() + 1);
        } else {
            assert(decimal_seq(a).last() == decimal_seq(b).last());
            assert(digit_char(a % 10) == digit_char(b % 10));
            assert(a % 10 == b % 10);
            assert(decimal_seq(a).drop_last() =~= decimal_seq(a / 10));
            assert(decimal_seq(b).drop_last() =~= decimal_seq(b / 10));
            if a / 10 != b / 10 {
                lemma_decimal_seq_injective(a / 10, b / 10);
            }
        }
    }
}

/// Renders a duration of `total_seconds` seconds as zero-padded
/// hours:minutes:seconds text.
pub fn format_durationu(total_seconds: u64) -> (text: String)
    ensures
        text@ == duration_text(total_seconds as nat),
{
    let hours = total_seconds / 3600;
    let mins = (total_seconds % 3600) / 60;
    let secs = total_seconds % 60;
    let mut out = String::new();
    push_two_digit(&mut out, hours);
    proof {
        reveal_strlit(":");
    }
    out.append(":");
    proof {
        assert(":"@ =~= seq![':']);
    }
    push_two_digit(&mut out, mins);
    out.append(":");
    push_two_digit(&mut out, secs);
    proof {
        assert(out@ =~= duration_text(total_seconds as nat));
    }
    out
}

} // verus!
