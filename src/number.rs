use vstd::prelude::*;
use vstd::string::*;

verus! {

/// The character of a decimal digit.
pub open spec fn digit_char(d: nat) -> char {
    seq!['0', '1', '2', '3', '4', '5', '6', '7', '8', '9'][d as int]
}

/// The decimal notation of a natural number, without leading zeros.
pub open spec fn decimal(n: nat) -> Seq<char>
    decreases n,
{
    if n < 10 {
        seq![digit_char(n)]
    } else {
        decimal(n / 10).push(digit_char(n % 10))
    }
}

pub open spec fn abs(n: int) -> nat {
    if n < 0 {
        (-n) as nat
    } else {
        n as nat
    }
}

/// Index of the largest unit among "", "k", "m", "bn" that does not exceed `a`.
pub open spec fn magnitude(a: nat) -> nat {
    if a < 1000 {
        0
    } else if a < 1_000_000 {
        1
    } else if a < 1_000_000_000 {
        2
    } else {
        3
    }
}

/// `1000` raised to the power `m`, for `m <= 3`.
pub open spec fn unit_scale(m: nat) -> nat {
    if m == 0 {
        1
    } else if m == 1 {
        1000
    } else if m == 2 {
        1_000_000
    } else {
        1_000_000_000
    }
}

pub open spec fn unit_suffix(m: nat) -> Seq<char> {
    if m == 0 {
        seq![]
    } else if m == 1 {
        seq!['k']
    } else if m == 2 {
        seq!['m']
    } else {
        seq!['b', 'n']
    }
}

/// A count in short form: the integral part of its amount in the largest
/// unit (up to billions) that it reaches, with that unit's suffix; a minus
/// sign in front of negative counts; "0" for zero.
pub open spec fn readable(n: int) -> Seq<char> {
    if n == 0 {
        seq!['0']
    } else {
        let m = magnitude(abs(n));
        let sign = if n > 0 {
            Seq::<char>::empty()
        } else {
            seq!['-']
        };
        sign + decimal(abs(n) / unit_scale(m)) + unit_suffix(m)
    }
}

fn digit_str(d: u128) -> (r: &'static str)
    requires
        d < 10,
    ensures
        r@ == seq![digit_char(d as nat)],
{
    proof {
        reveal_strlit("0");
        reveal_strlit("1");
        reveal_strlit("2");
        reveal_strlit("3");
        reveal_strlit("4");
        reveal_strlit("5");
        reveal_strlit("6");
        reveal_strlit("7");
        reveal_strlit("8");
        reveal_strlit("9");
    }
    if d == 0 {
        "0"
    } else if d == 1 {
        "1"
    } else if d == 2 {
        "2"
    } else if d == 3 {
        "3"
    } else if d == 4 {
        "4"
    } else if d == 5 {
        "5"
    } else if d == 6 {
        "6"
    } else if d == 7 {
        "7"
    } else if d == 8 {
        "8"
    } else {
        "9"
    }
}

/// The decimal notation of `n`.
pub fn decimal_string(n: u128) -> (r: String)
    ensures
        r@ == decimal(n as nat),
    decreases n,
{
    if n < 10 {
        String::from_str(digit_str(n))
    } else {
        let mut s = decimal_string(n / 10);
        s.append(digit_str(n % 10));
        s
    }
}

/// Formats a count in short form: `1234` as "1k", `-1234567` as "-1m".
pub fn readable_number(number: i64) -> (r: String)
    ensures
        r@ == readable(number as int),
{
    if number == 0 {
        proof {
            reveal_strlit("0");
        }
        return String::from_str("0");
    }
    let a: u64 = if number < 0 {
        ((-(number + 1)) as u64) + 1
    } else {
        number as u64
    };
    assert(a == abs(number as int));
    let (scale, suffix): (u64, &str) = if a < 1000 {
        (1, "")
    } else if a < 1_000_000 {
        (1000, "k")
    } else if a < 1_000_000_000 {
        (1_000_000, "m")
    } else {
        (1_000_000_000, "bn")
    };
    proof {
        reveal_strlit("");
        reveal_strlit("k");
        reveal_strlit("m");
        reveal_strlit("bn");
        reveal_strlit("-");
    }
    let mut s = if number > 0 {
        String::from_str("")
    } else {
        String::from_str("-")
    };
    let digits = decimal_string((a / scale) as u128);
    s.append(digits.as_str());
    s.append(suffix);
    assert(s@ =~= readable(number as int));
    s
}

} // verus!
