//! Plain-text rendering of a query's outcome, character for character
//! what the endpoint serves: the two values on success, the apologetic
//! line on a communication failure.

use vstd::prelude::*;
use vstd::string::StringExecFns;

use crate::bridge::QueryError;
use crate::snapshot::Snapshot;

verus! {

/// The decimal digit character for `d` (meaningful for `d` below 10).
pub open spec fn spec_digit_char(d: int) -> char {
    if d == 0 {
        '0'
    } else if d == 1 {
        '1'
    } else if d == 2 {
        '2'
    } else if d == 3 {
        '3'
    } else if d == 4 {
        '4'
    } else if d == 5 {
        '5'
    } else if d == 6 {
        '6'
    } else if d == 7 {
        '7'
    } else if d == 8 {
        '8'
    } else {
        '9'
    }
}

/// The usual decimal numeral of `n`: most significant digit first, no
/// leading zeros, a single '0' for 0 itself.
pub open spec fn spec_decimal(n: int) -> Seq<char>
    recommends
        n >= 0,
    decreases n,
{
    if n < 10 {
        seq![spec_digit_char(n)]
    } else {
        spec_decimal(n / 10).push(spec_digit_char(n % 10))
    }
}

/// The one-character string for the decimal digit `d`.
fn digit_str(d: u64) -> (r: &'static str)
    requires
        d < 10,
    ensures
        r@ == seq![spec_digit_char(d as int)],
{
    proof {
        reveal_strlit("0");
        reveal_strlit("1");
        reveal_strlit("2");
        reveal_strlit("3");
        reveal_strlit("4");
        reveal_strlit("5");
        reveal_strlit("6");
        reveal_strlit("7");
        reveal_strlit("8");
        reveal_strlit("9");
    }
    let r: &'static str = if d == 0 {
        "0"
    } else if d == 1 {
        "1"
    } else if d == 2 {
        "2"
    } else if d == 3 {
        "3"
    } else if d == 4 {
        "4"
    } else if d == 5 {
        "5"
    } else if d == 6 {
        "6"
    } else if d == 7 {
        "7"
    } else if d == 8 {
        "8"
    } else {
        "9"
    };
    proof {
        assert(r@ =~= seq![spec_digit_char(d as int)]);
    }
    r
}

/// The characters of a digit stack read top to bottom: the digits were
/// pushed least significant first, so popping them yields the numeral
/// most significant digit first.
pub open spec fn spec_digits_reversed(ds: Seq<u64>) -> Seq<char>
    decreases ds.len(),
{
    if ds.len() == 0 {
        Seq::empty()
    } else {
        seq![spec_digit_char(ds.last() as int)] + spec_digits_reversed(ds.drop_last())
    }
}

/// Renders `n` in decimal, exactly `spec_decimal(n)`.
pub fn u64_to_decimal(n: u64) -> (r: String)
    ensures
        r@ == spec_decimal(n as int),
{
    let mut digits: Vec<u64> = Vec::new();
    let mut m: u64 = n;
    loop
        invariant_except_break
            m <= n,
            forall|i: int| 0 <= i < digits@.len() ==> #[trigger] digits@[i] < 10,
            spec_decimal(n as int) =~= spec_decimal(m as int) + spec_digits_reversed(digits@),
        ensures
            forall|i: int| 0 <= i < digits@.len() ==> #[trigger] digits@[i] < 10,
            spec_decimal(n as int) =~= spec_digits_reversed(digits@),
        decreases m,
    {
        let d: u64 = m % 10;
        let ghost old_digits = digits@;
        digits.push(d);
        proof {
            assert(digits@.drop_last() =~= old_digits);
            assert(spec_digits_reversed(digits@) =~= seq![spec_digit_char(d as int)]
                + spec_digits_reversed(old_digits));
        }
        if m < 10 {
            proof {
                assert(spec_decimal(m as int) =~= seq![spec_digit_char(d as int)]);
            }
            break ;
        }
        proof {
            assert(spec_decimal(m as int) =~= spec_decimal(m as int / 10).push(
                spec_digit_char(d as int),
            ));
            assert(spec_decimal(m as int / 10).push(spec_digit_char(d as int))
                =~= spec_decimal(m as int / 10) + seq![spec_digit_char(d as int)]);
        }
        m = m / 10;
    }
    let mut out = String::new();
    loop
        invariant
            forall|i: int| 0 <= i < digits@.len() ==> #[trigger] digits@[i] < 10,
            out@ + spec_digits_reversed(digits@) =~= spec_decimal(n as int),
        ensures
            out@ =~= spec_decimal(n as int),
        decreases digits@.len(),
    {
        let ghost old_digits = digits@;
        match digits.pop() {
            None => {
                proof {
                    assert(out@ =~= out@ + spec_digits_reversed(old_digits));
                }
                break ;
            },
            Some(d) => {
                proof {
                    assert(spec_digits_reversed(old_digits) =~= seq![
                        spec_digit_char(d as int),
                    ] + spec_digits_reversed(digits@));
                }
                out.append(digit_str(d));
            },
        }
    }
    out
}

/// The exact success body: "Value A: " then the first value in decimal,
/// a line break, "Value B: " then the second value in decimal.
pub open spec fn spec_success_text(a: int, b: int) -> Seq<char> {
    "Value A: "@ + spec_decimal(a) + "\nValue B: "@ + spec_decimal(b)
}

/// The exact body served when the bridge reports a communication error.
pub open spec fn spec_failure_text() -> Seq<char> {
    "Something went wrong pulling the value from the channel"@
}

/// The text served for one query outcome.
pub open spec fn spec_response_text(r: Result<Snapshot, QueryError>) -> Seq<char> {
    match r {
        Ok(s) => spec_success_text(s.value_a as int, s.value_b as int),
        Err(_) => spec_failure_text(),
    }
}

/// Renders a snapshot as the success body, character for character.
pub fn render_snapshot(s: &Snapshot) -> (r: String)
    ensures
        r@ == spec_success_text(s.value_a as int, s.value_b as int),
{
    let mut out = String::from_str("Value A: ");
    let a = u64_to_decimal(s.value_a);
    out.append(a.as_str());
    out.append("\nValue B: ");
    let b = u64_to_decimal(s.value_b);
    out.append(b.as_str());
    proof {
        assert(out@ =~= spec_success_text(s.value_a as int, s.value_b as int));
    }
    out
}

/// The failure body, character for character.
pub fn render_failure() -> (r: String)
    ensures
        r@ == spec_failure_text(),
{
    String::from_str("Something went wrong pulling the value from the channel")
}

/// Renders a whole query outcome: the success body for a snapshot, the
/// failure body for the single communication error.
pub fn render_response(r: &Result<Snapshot, QueryError>) -> (out: String)
    ensures
        out@ == spec_response_text(*r),
{
    match r {
        Ok(s) => render_snapshot(s),
        Err(_) => render_failure(),
    }
}

} // verus!
