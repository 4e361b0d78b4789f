//! Fixed-width decimal numerals: the specification of zero-padded decimal
//! text and an executable builder proved against it.  Account numbers and
//! timestamp rendering are both built from these pieces.

use vstd::prelude::*;
use vstd::string::StringExecFns;

verus! {

/// The character standing for a single decimal digit.
pub open spec fn digit_char(d: int) -> char {
    if d == 0 {
        '0'
    } else if d == 1 {
        '1'
    } else if d == 2 {
        '2'
    } else if d == 3 {
        '3'
    } else if d == 4 {
        '4'
    } else if d == 5 {
        '5'
    } else if d == 6 {
        '6'
    } else if d == 7 {
        '7'
    } else if d == 8 {
        '8'
    } else {
        '9'
    }
}

/// `v` written in decimal, zero-padded to exactly `width` digits; only the
/// `width` least significant digits appear.
pub open spec fn padded_decimal(v: int, width: nat) -> Seq<char>
    decreases width,
{
    if width == 0 {
        Seq::empty()
    } else {
        padded_decimal(v / 10, (width - 1) as nat).push(digit_char(v % 10))
    }
}

pub proof fn lemma_padded_decimal_len(v: int, width: nat)
    ensures
        padded_decimal(v, width).len() == width,
    decreases width,
{
    if width > 0 {
        lemma_padded_decimal_len(v / 10, (width - 1) as nat);
    }
}

/// One decimal digit as text.
fn digit_str(d: u64) -> (r: &'static str)
    requires
        d < 10,
    ensures
        r@ == seq![digit_char(d as int)],
{
    if d == 0 {
        proof {
            reveal_strlit("0");
            assert("0"@ =~= seq![digit_char(0)]);
        }
        "0"
    } else if d == 1 {
        proof {
            reveal_strlit("1");
            assert("1"@ =~= seq![digit_char(1)]);
        }
        "1"
    } else if d == 2 {
        proof {
            reveal_strlit("2");
            assert("2"@ =~= seq![digit_char(2)]);
        }
        "2"
    } else if d == 3 {
        proof {
            reveal_strlit("3");
            assert("3"@ =~= seq![digit_char(3)]);
        }
        "3"
    } else if d == 4 {
        proof {
            reveal_strlit("4");
            assert("4"@ =~= seq![digit_char(4)]);
        }
        "4"
    } else if d == 5 {
        proof {
            reveal_strlit("5");
            assert("5"@ =~= seq![digit_char(5)]);
        }
        "5"
    } else if d == 6 {
        proof {
            reveal_strlit("6");
            assert("6"@ =~= seq![digit_char(6)]);
        }
        "6"
    } else if d == 7 {
        proof {
            reveal_strlit("7");
            assert("7"@ =~= seq![digit_char(7)]);
        }
        "7"
    } else if d == 8 {
        proof {
            reveal_strlit("8");
            assert("8"@ =~= seq![digit_char(8)]);
        }
        "8"
    } else {
        proof {
            reveal_strlit("9");
            assert("9"@ =~= seq![digit_char(9)]);
        }
        "9"
    }
}

/// Append `v` to `s` as a zero-padded decimal numeral of exactly `width`
/// digits.
pub fn push_padded_decimal(s: &mut String, v: u64, width: usize)
    ensures
        final(s)@ == old(s)@ + padded_decimal(v as int, width as nat),
    decreases width,
{
    if width == 0 {
        proof {
            assert(s@ =~= old(s)@ + padded_decimal(v as int, 0));
        }
        return ;
    }
    push_padded_decimal(s, v / 10, width - 1);
    let d = digit_str(v % 10);
    s.append(d);
    proof {
        assert(s@ =~= old(s)@ + padded_decimal(v as int, width as nat));
    }
}

} // verus!
