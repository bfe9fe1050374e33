//! Countdown text composition: decimal rendering of counts and the
//! "<hour clause> <M> minute(s)" phrase the narrative is built from.

use vstd::prelude::*;

verus! {

/// The decimal digit character for `d` (meaningful for `0 <= d <= 9`).
pub open spec fn spec_digit(d: int) -> char {
    if d == 0 {
        '0'
    } else if d == 1 {
        '1'
    } else if d == 2 {
        '2'
    } else if d == 3 {
        '3'
    } else if d == 4 {
        '4'
    } else if d == 5 {
        '5'
    } else if d == 6 {
        '6'
    } else if d == 7 {
        '7'
    } else if d == 8 {
        '8'
    } else {
        '9'
    }
}

/// The decimal representation of `n`, most significant digit first, no sign
/// and no leading zero (a single `'0'` for zero).
pub open spec fn spec_decimal(n: nat) -> Seq<char>
    decreases n,
{
    if n < 10 {
        seq![spec_digit(n as int)]
    } else {
        spec_decimal(n / 10) + seq![spec_digit((n % 10) as int)]
    }
}

/// A one-character string slice holding the digit `d`.
fn digit_str(d: u64) -> (r: &'static str)
    requires
        d < 10,
    ensures
        r@ == seq![spec_digit(d as int)],
{
    if d == 0 {
        proof {
            reveal_strlit("0");
            assert("0"@ =~= seq![spec_digit(0)]);
        }
        "0"
    } else if d == 1 {
        proof {
            reveal_strlit("1");
            assert("1"@ =~= seq![spec_digit(1)]);
        }
        "1"
    } else if d == 2 {
        proof {
            reveal_strlit("2");
            assert("2"@ =~= seq![spec_digit(2)]);
        }
        "2"
    } else if d == 3 {
        proof {
            reveal_strlit("3");
            assert("3"@ =~= seq![spec_digit(3)]);
        }
        "3"
    } else if d == 4 {
        proof {
            reveal_strlit("4");
            assert("4"@ =~= seq![spec_digit(4)]);
        }
        "4"
    } else if d == 5 {
        proof {
            reveal_strlit("5");
            assert("5"@ =~= seq![spec_digit(5)]);
        }
        "5"
    } else if d == 6 {
        proof {
            reveal_strlit("6");
            assert("6"@ =~= seq![spec_digit(6)]);
        }
        "6"
    } else if d == 7 {
        proof {
            reveal_strlit("7");
            assert("7"@ =~= seq![spec_digit(7)]);
        }
        "7"
    } else if d == 8 {
        proof {
            reveal_strlit("8");
            assert("8"@ =~= seq![spec_digit(8)]);
        }
        "8"
    } else {
        proof {
            reveal_strlit("9");
            assert("9"@ =~= seq![spec_digit(9)]);
        }
        "9"
    }
}

/// Appends the decimal representation of `n` to `s`.
pub fn push_decimal(s: &mut String, n: u64)
    ensures
        final(s)@ == old(s)@ + spec_decimal(n as nat),
    decreases n,
{
    if n >= 10 {
        push_decimal(s, n / 10);
        s.append(digit_str(n % 10));
        proof {
            assert(s@ =~= old(s)@ + spec_decimal(n as nat));
        }
    } else {
        s.append(digit_str(n));
        proof {
            assert(s@ =~= old(s)@ + spec_decimal(n as nat));
        }
    }
}

/// The hour clause of a countdown phrase: omitted when zero, singular when
/// exactly one.
pub open spec fn spec_hours_clause(hours: int) -> Seq<char> {
    if hours == 0 {
        Seq::empty()
    } else if hours == 1 {
        "1 hour and "@
    } else {
        spec_decimal(hours as nat) + " hours and "@
    }
}

/// The minute clause of a countdown phrase: singular exactly when one.
pub open spec fn spec_minutes_clause(mins: int) -> Seq<char> {
    spec_decimal(mins as nat) + if mins == 1 {
        " minute"@
    } else {
        " minutes"@
    }
}

/// The countdown phrase for a non-negative number of minutes:
/// "<hour clause> <M> minute(s)".
pub open spec fn spec_count_text(total_mins: int) -> Seq<char> {
    spec_hours_clause(total_mins / 60) + spec_minutes_clause(total_mins % 60)
}

/// Builds the countdown phrase for `total_mins` minutes.
pub fn count_text(total_mins: u64) -> (r: String)
    ensures
        r@ == spec_count_text(total_mins as int),
{
    let hours = total_mins / 60;
    let mins = total_mins % 60;
    let mut s = String::new();
    if hours == 1 {
        s.append("1 hour and ");
    } else if hours > 1 {
        push_decimal(&mut s, hours);
        s.append(" hours and ");
    }
    push_decimal(&mut s, mins);
    if mins == 1 {
        s.append(" minute");
    } else {
        s.append(" minutes");
    }
    proof {
        assert(s@ =~= spec_count_text(total_mins as int));
    }
    s
}

} // verus!
