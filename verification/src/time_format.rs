//! Rendering of an elapsed duration, given in whole seconds, as a
//! human-readable string using the single largest applicable unit
//! (days, hours, minutes, seconds), pluralized.

use vstd::prelude::*;
use vstd::string::StringExecFns;

verus! {

/// The decimal digit character for a value below ten.
pub open spec fn digit_char(d: nat) -> char {
    if d == 0 {
        '0'
    } else if d == 1 {
        '1'
    } else if d == 2 {
        '2'
    } else if d == 3 {
        '3'
    } else if d == 4 {
        '4'
    } else if d == 5 {
        '5'
    } else if d == 6 {
        '6'
    } else if d == 7 {
        '7'
    } else if d == 8 {
        '8'
    } else {
        '9'
    }
}

/// The decimal representation of a natural number, most significant
/// digit first, with no leading zeros (a lone zero for zero itself).
pub open spec fn dec_rep(n: nat) -> Seq<char>
    decreases n,
{
    if n < 10 {
        seq![digit_char(n)]
    } else {
        dec_rep(n / 10) + seq![digit_char(n % 10)]
    }
}

/// A value followed by a unit name, singular exactly when the value is one.
pub open spec fn spec_number_with_unit(value: nat, singular: Seq<char>, plural: Seq<char>) -> Seq<
    char,
> {
    dec_rep(value) + (if value == 1 {
        singular
    } else {
        plural
    })
}

/// The formatted elapsed time: the largest unit whose threshold the raw
/// second count reaches, by integer division, with no carrying between
/// units; zero seconds reads "0 seconds".
pub open spec fn spec_format_time(duration: nat) -> Seq<char> {
    if duration / 86400 > 0 {
        spec_number_with_unit(duration / 86400, " day"@, " days"@)
    } else if duration / 3600 > 0 {
        spec_number_with_unit(duration / 3600, " hour"@, " hours"@)
    } else if duration / 60 > 0 {
        spec_number_with_unit(duration / 60, " minute"@, " minutes"@)
    } else {
        spec_number_with_unit(duration, " second"@, " seconds"@)
    }
}

fn digit_to_str(d: u64) -> (s: &'static str)
    requires
        d < 10,
    ensures
        s@ == seq![digit_char(d as nat)],
{
    proof {
        reveal_strlit("0");
        reveal_strlit("1");
        reveal_strlit("2");
        reveal_strlit("3");
        reveal_strlit("4");
        reveal_strlit("5");
        reveal_strlit("6");
        reveal_strlit("7");
        reveal_strlit("8");
        reveal_strlit("9");
    }
    let s: &'static str = if d == 0 {
        "0"
    } else if d == 1 {
        "1"
    } else if d == 2 {
        "2"
    } else if d == 3 {
        "3"
    } else if d == 4 {
        "4"
    } else if d == 5 {
        "5"
    } else if d == 6 {
        "6"
    } else if d == 7 {
        "7"
    } else if d == 8 {
        "8"
    } else {
        "9"
    };
    proof {
        assert(s@ =~= seq![digit_char(d as nat)]);
    }
    s
}

/// Appends the decimal representation of `n` to `s`.
fn push_decimal(s: &mut String, n: u64)
    ensures
        final(s)@ == old(s)@ + dec_rep(n as nat),
    decreases n,
{
    if n < 10 {
        s.append(digit_to_str(n));
    } else {
        proof {
            assert(n / 10 < n) by (nonlinear_arith)
                requires
                    n >= 10,
            ;
        }
        push_decimal(s, n / 10);
        s.append(digit_to_str(n % 10));
        proof {
            assert(s@ =~= old(s)@ + dec_rep(n as nat));
        }
    }
}

fn number_with_unit(value: u64, singular: &str, plural: &str) -> (s: String)
    ensures
        s@ == spec_number_with_unit(value as nat, singular@, plural@),
{
    let mut s = String::new();
    push_decimal(&mut s, value);
    if value == 1 {
        s.append(singular);
    } else {
        s.append(plural);
    }
    proof {
        assert(s@ =~= spec_number_with_unit(value as nat, singular@, plural@));
    }
    s
}

/// Formats a duration of whole seconds with its single largest applicable
/// unit: days over hours over minutes over seconds, each by integer
/// division of the raw total, singular exactly when the shown value is one.
pub fn format_time(duration: u64) -> (s: String)
    ensures
        s@ == spec_format_time(duration as nat),
{
    let days: u64 = duration / 86400;
    let hours: u64 = duration / 3600;
    let minutes: u64 = duration / 60;
    if days > 0 {
        number_with_unit(days, " day", " days")
    } else if hours > 0 {
        number_with_unit(hours, " hour", " hours")
    } else if minutes > 0 {
        number_with_unit(minutes, " minute", " minutes")
    } else {
        number_with_unit(duration, " second", " seconds")
    }
}

} // verus!
