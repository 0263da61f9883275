//! Decimal rendering of keys and the demonstration payload text.
//!
//! `data_for_id` builds the string `"Data for ID: <id>"` with the id written
//! in decimal, and its contract pins every character of the result.

use vstd::prelude::*;

verus! {

/// The character for a single decimal digit.
pub open spec fn digit_char(d: nat) -> char {
    if d == 0 {
        '0'
    } else if d == 1 {
        '1'
    } else if d == 2 {
        '2'
    } else if d == 3 {
        '3'
    } else if d == 4 {
        '4'
    } else if d == 5 {
        '5'
    } else if d == 6 {
        '6'
    } else if d == 7 {
        '7'
    } else if d == 8 {
        '8'
    } else {
        '9'
    }
}

/// The usual base-ten rendering of `n`: no leading zeros, and `0` itself is
/// the single character `'0'`.
pub open spec fn spec_decimal(n: nat) -> Seq<char>
    decreases n,
{
    if n < 10 {
        seq![digit_char(n)]
    } else {
        spec_decimal(n / 10) + seq![digit_char(n % 10)]
    }
}

/// The one-character string slice for the digit `d`.
fn digit_str(d: u32) -> (r: &'static str)
    requires
        d < 10,
    ensures
        r@ == seq![digit_char(d as nat)],
{
    if d == 0 {
        proof {
            reveal_strlit("0");
        }
        "0"
    } else if d == 1 {
        proof {
            reveal_strlit("1");
        }
        "1"
    } else if d == 2 {
        proof {
            reveal_strlit("2");
        }
        "2"
    } else if d == 3 {
        proof {
            reveal_strlit("3");
        }
        "3"
    } else if d == 4 {
        proof {
            reveal_strlit("4");
        }
        "4"
    } else if d == 5 {
        proof {
            reveal_strlit("5");
        }
        "5"
    } else if d == 6 {
        proof {
            reveal_strlit("6");
        }
        "6"
    } else if d == 7 {
        proof {
            reveal_strlit("7");
        }
        "7"
    } else if d == 8 {
        proof {
            reveal_strlit("8");
        }
        "8"
    } else {
        proof {
            reveal_strlit("9");
        }
        "9"
    }
}

/// Appends the decimal rendering of `m` to `s`.
fn push_decimal(s: &mut String, m: u32)
    ensures
        final(s)@ == old(s)@ + spec_decimal(m as nat),
    decreases m,
{
    if m >= 10 {
        push_decimal(s, m / 10);
        s.append(digit_str(m % 10));
        proof {
            assert(s@ =~= old(s)@ + spec_decimal(m as nat));
        }
    } else {
        s.append(digit_str(m));
    }
}

/// The decimal rendering of `n` as an owned string.
pub fn decimal_string(n: u32) -> (r: String)
    ensures
        r@ == spec_decimal(n as nat),
{
    let mut s = String::new();
    push_decimal(&mut s, n);
    proof {
        assert(s@ =~= spec_decimal(n as nat));
    }
    s
}

/// The text the demonstration producer yields for a key.
pub open spec fn spec_data_for_id(id: u32) -> Seq<char> {
    "Data for ID: "@ + spec_decimal(id as nat)
}

/// Builds `"Data for ID: <id>"`, the payload the demonstration producer
/// computes for a key once the simulated latency has passed.
pub fn data_for_id(id: u32) -> (r: String)
    ensures
        r@ == spec_data_for_id(id),
{
    let mut s = String::from_str("Data for ID: ");
    push_decimal(&mut s, id);
    s
}

} // verus!
