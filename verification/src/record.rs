//! The timing record: the one structured log line that a timed call emits on
//! normal completion, `--- Function '<NAME>' executed in <MILLIS>ms`, with
//! the elapsed whole milliseconds rendered as a decimal numeral.

use vstd::prelude::*;

verus! {

/// The decimal digit character for a value below ten.
pub open spec fn digit_char(d: nat) -> char {
    if d == 0 {
        '0'
    } else if d == 1 {
        '1'
    } else if d == 2 {
        '2'
    } else if d == 3 {
        '3'
    } else if d == 4 {
        '4'
    } else if d == 5 {
        '5'
    } else if d == 6 {
        '6'
    } else if d == 7 {
        '7'
    } else if d == 8 {
        '8'
    } else {
        '9'
    }
}

/// `c` is a decimal digit character.
pub open spec fn is_digit_char(c: char) -> bool {
    ||| c == '0'
    ||| c == '1'
    ||| c == '2'
    ||| c == '3'
    ||| c == '4'
    ||| c == '5'
    ||| c == '6'
    ||| c == '7'
    ||| c == '8'
    ||| c == '9'
}

/// The usual decimal numeral of `n`: most significant digit first, with no
/// leading zero except in the numeral of zero itself.
pub open spec fn dec_numeral(n: nat) -> Seq<char>
    decreases n,
{
    if n < 10 {
        seq![digit_char(n)]
    } else {
        dec_numeral(n / 10).push(digit_char(n % 10))
    }
}

/// The exact text of one timing record for a function name and a count of
/// whole milliseconds.
pub open spec fn record_text(name: Seq<char>, millis: nat) -> Seq<char> {
    "--- Function '"@ + name + "' executed in "@ + dec_numeral(millis) + "ms"@
}

/// A numeral is a non-empty run of decimal digit characters, so the
/// millisecond field of every timing record is a non-negative integer.
pub proof fn lemma_dec_numeral_digits(n: nat)
    ensures
        dec_numeral(n).len() >= 1,
        forall|i: int|
            0 <= i < dec_numeral(n).len() ==> is_digit_char(#[trigger] dec_numeral(n)[i]),
    decreases n,
{
    if n >= 10 {
        lemma_dec_numeral_digits(n / 10);
    }
}

/// Every emitted record matches the fixed template: the literal prefix,
/// then the function's name, then the literal infix, then a non-empty run
/// of decimal digits, then the literal `ms` suffix.
pub proof fn lemma_record_shape(name: Seq<char>, millis: nat)
    ensures
        record_text(name, millis) == "--- Function '"@ + name + "' executed in "@ + dec_numeral(
            millis,
        ) + "ms"@,
        dec_numeral(millis).len() >= 1,
        forall|i: int|
            0 <= i < dec_numeral(millis).len() ==> is_digit_char(
                #[trigger] dec_numeral(millis)[i],
            ),
{
    lemma_dec_numeral_digits(millis);
}

/// The digit character for `d`, as a one-character string slice.
fn digit_str(d: u128) -> (r: &'static str)
    requires
        d < 10,
    ensures
        r@ == seq![digit_char(d as nat)],
{
    if d == 0 {
        proof {
            reveal_strlit("0");
            assert("0"@ =~= seq![digit_char(0)]);
        }
        "0"
    } else if d == 1 {
        proof {
            reveal_strlit("1");
            assert("1"@ =~= seq![digit_char(1)]);
        }
        "1"
    } else if d == 2 {
        proof {
            reveal_strlit("2");
            assert("2"@ =~= seq![digit_char(2)]);
        }
        "2"
    } else if d == 3 {
        proof {
            reveal_strlit("3");
            assert("3"@ =~= seq![digit_char(3)]);
        }
        "3"
    } else if d == 4 {
        proof {
            reveal_strlit("4");
            assert("4"@ =~= seq![digit_char(4)]);
        }
        "4"
    } else if d == 5 {
        proof {
            reveal_strlit("5");
            assert("5"@ =~= seq![digit_char(5)]);
        }
        "5"
    } else if d == 6 {
        proof {
            reveal_strlit("6");
            assert("6"@ =~= seq![digit_char(6)]);
        }
        "6"
    } else if d == 7 {
        proof {
            reveal_strlit("7");
            assert("7"@ =~= seq![digit_char(7)]);
        }
        "7"
    } else if d == 8 {
        proof {
            reveal_strlit("8");
            assert("8"@ =~= seq![digit_char(8)]);
        }
        "8"
    } else {
        proof {
            reveal_strlit("9");
            assert("9"@ =~= seq![digit_char(9)]);
        }
        "9"
    }
}

/// Renders `n` as its decimal numeral.
pub fn dec_string(n: u128) -> (s: String)
    ensures
        s@ == dec_numeral(n as nat),
    decreases n,
{
    if n < 10 {
        String::from_str(digit_str(n))
    } else {
        let mut s = dec_string(n / 10);
        s.append(digit_str(n % 10));
        proof {
            assert(s@ =~= dec_numeral(n as nat));
        }
        s
    }
}

/// Builds the timing record for `name` and `millis` whole milliseconds,
/// exactly `--- Function '<NAME>' executed in <MILLIS>ms`.
pub fn format_record(name: &str, millis: u128) -> (r: String)
    ensures
        r@ == record_text(name@, millis as nat),
{
    let mut s = String::from_str("--- Function '");
    s.append(name);
    s.append("' executed in ");
    let digits = dec_string(millis);
    s.append(digits.as_str());
    s.append("ms");
    proof {
        assert(s@ =~= record_text(name@, millis as nat));
    }
    s
}

} // verus!
