use vstd::prelude::*;
use vstd::string::StringExecFns;

verus! {

/// Relies on String::push from std: appends exactly the given character to
/// the end of the string.
pub assume_specification[ String::push ](s: &mut String, ch: char)
    ensures
        final(s)@ == old(s)@.push(ch),
;

/// The decimal digit character for one value below ten.
pub open spec fn dec_digit(d: nat) -> char {
    if d == 0 {
        '0'
    } else if d == 1 {
        '1'
    } else if d == 2 {
        '2'
    } else if d == 3 {
        '3'
    } else if d == 4 {
        '4'
    } else if d == 5 {
        '5'
    } else if d == 6 {
        '6'
    } else if d == 7 {
        '7'
    } else if d == 8 {
        '8'
    } else {
        '9'
    }
}

/// The decimal representation of a number, most significant digit first.
pub open spec fn dec_rep(n: nat) -> Seq<char>
    decreases n,
{
    if n < 10 {
        seq![dec_digit(n)]
    } else {
        dec_rep(n / 10).push(dec_digit(n % 10))
    }
}

/// Appends the decimal digits of `n` to the string.
fn push_decimal(s: &mut String, n: u32)
    ensures
        final(s)@ == old(s)@ + dec_rep(n as nat),
    decreases n,
{
    if n >= 10 {
        proof {
            assert(n / 10 < n) by (nonlinear_arith)
                requires
                    n >= 10,
            ;
        }
        push_decimal(s, n / 10);
    }
    let d = n % 10;
    let c: char = if d == 0 {
        '0'
    } else if d == 1 {
        '1'
    } else if d == 2 {
        '2'
    } else if d == 3 {
        '3'
    } else if d == 4 {
        '4'
    } else if d == 5 {
        '5'
    } else if d == 6 {
        '6'
    } else if d == 7 {
        '7'
    } else if d == 8 {
        '8'
    } else {
        '9'
    };
    s.push(c);
    proof {
        assert(c == dec_digit((n % 10) as nat));
        if n < 10 {
            assert(s@ =~= old(s)@ + dec_rep(n as nat));
        } else {
            assert(s@ =~= old(s)@ + dec_rep(n as nat));
        }
    }
}

/// One health-check visit: formats the banner followed by the current visit
/// count and the word "times", then advances the counter. The caller holds
/// its lock only for the duration of this read-increment-format step, never
/// across a store call.
pub fn health_check_message(banner: &str, visit_count: &mut u32) -> (r: String)
    requires
        *old(visit_count) < u32::MAX,
    ensures
        *final(visit_count) == *old(visit_count) + 1,
        r@ == banner@ + " "@ + dec_rep(*old(visit_count) as nat) + " times"@,
{
    let mut r = banner.to_owned();
    r.append(" ");
    push_decimal(&mut r, *visit_count);
    r.append(" times");
    *visit_count = *visit_count + 1;
    proof {
        assert(r@ =~= banner@ + " "@ + dec_rep(*old(visit_count) as nat) + " times"@);
    }
    r
}

} // verus!
