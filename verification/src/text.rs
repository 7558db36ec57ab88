//! Numbers as text.

use vstd::prelude::*;
use vstd::string::StringExecFns;

verus! {

/// The character for a digit below sixteen, in lower case.
pub open spec fn digit(d: nat) -> char {
    if d == 0 {
        '0'
    } else if d == 1 {
        '1'
    } else if d == 2 {
        '2'
    } else if d == 3 {
        '3'
    } else if d == 4 {
        '4'
    } else if d == 5 {
        '5'
    } else if d == 6 {
        '6'
    } else if d == 7 {
        '7'
    } else if d == 8 {
        '8'
    } else if d == 9 {
        '9'
    } else if d == 10 {
        'a'
    } else if d == 11 {
        'b'
    } else if d == 12 {
        'c'
    } else if d == 13 {
        'd'
    } else if d == 14 {
        'e'
    } else {
        'f'
    }
}

/// A natural number written to the given base, most significant digit
/// first, without leading zeros.
pub open spec fn numeral(n: nat, base: nat) -> Seq<char>
    recommends
        2 <= base <= 16,
    decreases n,
    via numeral_decreases
{
    if n < base || base < 2 {
        seq![digit(n)]
    } else {
        numeral(n / base, base).push(digit(n % base))
    }
}

#[via_fn]
proof fn numeral_decreases(n: nat, base: nat) {
    if !(n < base || base < 2) {
        assert(n / base < n) by (nonlinear_arith)
            requires
                base >= 2,
                n >= base,
        ;
    }
}

/// A natural number written in decimal.
pub open spec fn decimal(n: nat) -> Seq<char> {
    numeral(n, 10)
}

/// A natural number written in hexadecimal, in lower case.
pub open spec fn hexadecimal(n: nat) -> Seq<char> {
    numeral(n, 16)
}

/// The digits of a list, last first.
spec fn backwards(digits: Seq<usize>) -> Seq<char>
    decreases digits.len(),
{
    if digits.len() == 0 {
        Seq::empty()
    } else {
        seq![digit(digits.last() as nat)] + backwards(digits.drop_last())
    }
}

/// The text of one digit.
fn digit_str(d: usize) -> (s: &'static str)
    requires
        d < 16,
    ensures
        s@ == seq![digit(d as nat)],
{
    proof {
        reveal_strlit("0");
        reveal_strlit("1");
        reveal_strlit("2");
        reveal_strlit("3");
        reveal_strlit("4");
        reveal_strlit("5");
        reveal_strlit("6");
        reveal_strlit("7");
        reveal_strlit("8");
        reveal_strlit("9");
        reveal_strlit("a");
        reveal_strlit("b");
        reveal_strlit("c");
        reveal_strlit("d");
        reveal_strlit("e");
        reveal_strlit("f");
    }
    let s = match d {
        0 => "0",
        1 => "1",
        2 => "2",
        3 => "3",
        4 => "4",
        5 => "5",
        6 => "6",
        7 => "7",
        8 => "8",
        9 => "9",
        10 => "a",
        11 => "b",
        12 => "c",
        13 => "d",
        14 => "e",
        _ => "f",
    };
    proof {
        assert(s@ =~= seq![digit(d as nat)]);
    }
    s
}

/// Writes a number to the given base.
fn write_numeral(n: usize, base: usize) -> (s: String)
    requires
        2 <= base <= 16,
    ensures
        s@ == numeral(n as nat, base as nat),
{
    let mut digits: Vec<usize> = Vec::new();
    let mut rest = n;
    while rest >= base
        invariant
            2 <= base <= 16,
            numeral(n as nat, base as nat) == numeral(rest as nat, base as nat) + backwards(
                digits@,
            ),
            forall|k: int| 0 <= k < digits@.len() ==> digits@[k] < 16,
        decreases rest,
    {
        let ghost before = digits@;
        digits.push(rest % base);
        proof {
            assert(digits@.drop_last() =~= before);
            assert(numeral(rest as nat, base as nat) + backwards(before) =~= numeral(
                (rest / base) as nat,
                base as nat,
            ) + backwards(digits@));
        }
        rest = rest / base;
    }
    let ghost before = digits@;
    digits.push(rest);
    proof {
        assert(digits@.drop_last() =~= before);
        assert(numeral(n as nat, base as nat) =~= backwards(digits@));
    }
    let mut s = String::from_str("");
    let mut i = digits.len();
    proof {
        reveal_strlit("");
        assert(digits@.take(i as int) =~= digits@);
        assert(s@ =~= Seq::<char>::empty());
    }
    while i > 0
        invariant
            i <= digits@.len(),
            forall|k: int| 0 <= k < digits@.len() ==> digits@[k] < 16,
            s@ + backwards(digits@.take(i as int)) == backwards(digits@),
        decreases i,
    {
        let ghost written = s@;
        let ghost prefix = digits@.take(i as int);
        i = i - 1;
        s.append(digit_str(digits[i]));
        proof {
            assert(prefix.drop_last() =~= digits@.take(i as int));
            assert(prefix.last() == digits@[i as int]);
            assert(s@ + backwards(digits@.take(i as int)) =~= written + backwards(prefix));
        }
    }
    proof {
        assert(backwards(digits@.take(0)) =~= Seq::<char>::empty());
        assert(s@ =~= backwards(digits@));
    }
    s
}

/// A number in decimal, such as `1000`.
pub fn decimal_string(n: u32) -> (s: String)
    ensures
        s@ == decimal(n as nat),
{
    write_numeral(n as usize, 10)
}

/// A number in lower-case hexadecimal, such as `3e8`.
pub fn hex_string(n: usize) -> (s: String)
    ensures
        s@ == hexadecimal(n as nat),
{
    write_numeral(n, 16)
}

} // verus!
