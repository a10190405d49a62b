//! Small helpers around the game core: the error for a missing
//! platform role, and the text a participant's remaining lives are
//! shown as.

use vstd::prelude::*;

verus! {

/// The invoking user lacks the platform role with this id.  Raised by
/// the transport layer's authorization, carried here so every failure
/// the user can see has a typed shape.
#[derive(Debug, Clone, Copy, PartialEq, Eq, Structural)]
pub struct MissingRole(pub u64);

/// The decimal digit character for `d`.
pub open spec fn digit_char(d: int) -> char
    recommends
        0 <= d < 10,
{
    if d == 0 {
        '0'
    } else if d == 1 {
        '1'
    } else if d == 2 {
        '2'
    } else if d == 3 {
        '3'
    } else if d == 4 {
        '4'
    } else if d == 5 {
        '5'
    } else if d == 6 {
        '6'
    } else if d == 7 {
        '7'
    } else if d == 8 {
        '8'
    } else {
        '9'
    }
}

/// The decimal digits of `n`, most significant first.
pub open spec fn spec_digits(n: nat) -> Seq<char>
    decreases n,
{
    if n < 10 {
        seq![digit_char(n as int)]
    } else {
        spec_digits(n / 10).push(digit_char((n % 10) as int))
    }
}

/// The lives display: the signed decimal number followed by a space and
/// a heart.
pub open spec fn spec_lives_string(n: int) -> Seq<char> {
    (if n < 0 {
        seq!['-'] + spec_digits((-n) as nat)
    } else {
        spec_digits(n as nat)
    }) + seq![' ', '❤']
}

fn digit_str(d: u64) -> (r: &'static str)
    requires
        d < 10,
    ensures
        r@ == seq![digit_char(d as int)],
{
    if d == 0 {
        proof {
            reveal_strlit("0");
            assert("0"@ =~= seq![digit_char(0)]);
        }
        "0"
    } else if d == 1 {
        proof {
            reveal_strlit("1");
            assert("1"@ =~= seq![digit_char(1)]);
        }
        "1"
    } else if d == 2 {
        proof {
            reveal_strlit("2");
            assert("2"@ =~= seq![digit_char(2)]);
        }
        "2"
    } else if d == 3 {
        proof {
            reveal_strlit("3");
            assert("3"@ =~= seq![digit_char(3)]);
        }
        "3"
    } else if d == 4 {
        proof {
            reveal_strlit("4");
            assert("4"@ =~= seq![digit_char(4)]);
        }
        "4"
    } else if d == 5 {
        proof {
            reveal_strlit("5");
            assert("5"@ =~= seq![digit_char(5)]);
        }
        "5"
    } else if d == 6 {
        proof {
            reveal_strlit("6");
            assert("6"@ =~= seq![digit_char(6)]);
        }
        "6"
    } else if d == 7 {
        proof {
            reveal_strlit("7");
            assert("7"@ =~= seq![digit_char(7)]);
        }
        "7"
    } else if d == 8 {
        proof {
            reveal_strlit("8");
            assert("8"@ =~= seq![digit_char(8)]);
        }
        "8"
    } else {
        proof {
            reveal_strlit("9");
            assert("9"@ =~= seq![digit_char(9)]);
        }
        "9"
    }
}

fn dec_digits(n: u64) -> (r: String)
    ensures
        r@ == spec_digits(n as nat),
    decreases n,
{
    if n < 10 {
        String::from_str(digit_str(n))
    } else {
        proof {
            assert(n / 10 < n) by (nonlinear_arith)
                requires
                    n >= 10,
            ;
        }
        let mut prefix = dec_digits(n / 10);
        prefix.append(digit_str(n % 10));
        proof {
            assert(prefix@ =~= spec_digits((n as nat) / 10).push(
                digit_char(((n as nat) % 10) as int),
            ));
        }
        prefix
    }
}

/// The text a participant's remaining lives are shown as: the count and
/// a heart.
pub fn get_remaining_lives_string(number_of_lives: i32) -> (r: String)
    ensures
        r@ == spec_lives_string(number_of_lives as int),
{
    let mut s: String;
    if number_of_lives < 0 {
        let magnitude: u64 = (-(number_of_lives as i64)) as u64;
        proof {
            reveal_strlit("-");
        }
        s = String::from_str("-");
        let digits = dec_digits(magnitude);
        s.append(digits.as_str());
    } else {
        s = dec_digits(number_of_lives as u64);
    }
    proof {
        reveal_strlit(" ❤");
    }
    s.append(" ❤");
    proof {
        assert(s@ =~= spec_lives_string(number_of_lives as int));
    }
    s
}

} // verus!
