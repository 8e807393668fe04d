use vstd::prelude::*;
use vstd::string::*;

verus! {

/// The ten decimal digits, in order.
pub open spec fn digit_char(d: nat) -> char {
    seq!['0', '1', '2', '3', '4', '5', '6', '7', '8', '9'][d as int]
}

/// Decimal digits of a natural number, most significant first, without leading zeros.
pub open spec fn digits_of(n: nat) -> Seq<char>
    decreases n,
{
    if n < 10 {
        seq![digit_char(n)]
    } else {
        digits_of(n / 10).push(digit_char(n % 10))
    }
}

/// An integer written in decimal, with a leading `-` when it is negative.
pub open spec fn decimal_text(n: int) -> Seq<char> {
    if n < 0 {
        seq!['-'] + digits_of((-n) as nat)
    } else {
        digits_of(n as nat)
    }
}

/// The one-character text of a decimal digit.
fn digit_str(d: u128) -> (r: &'static str)
    requires
        d < 10,
    ensures
        r@ == seq![digit_char(d as nat)],
{
    proof {
        reveal_strlit("0");
        reveal_strlit("1");
        reveal_strlit("2");
        reveal_strlit("3");
        reveal_strlit("4");
        reveal_strlit("5");
        reveal_strlit("6");
        reveal_strlit("7");
        reveal_strlit("8");
        reveal_strlit("9");
    }
    if d == 0 {
        "0"
    } else if d == 1 {
        "1"
    } else if d == 2 {
        "2"
    } else if d == 3 {
        "3"
    } else if d == 4 {
        "4"
    } else if d == 5 {
        "5"
    } else if d == 6 {
        "6"
    } else if d == 7 {
        "7"
    } else if d == 8 {
        "8"
    } else {
        "9"
    }
}

/// A natural number in decimal.
fn digits_text(n: u128) -> (r: String)
    ensures
        r@ == digits_of(n as nat),
    decreases n,
{
    if n < 10 {
        String::from_str(digit_str(n))
    } else {
        let mut s = digits_text(n / 10);
        s.append(digit_str(n % 10));
        s
    }
}

/// An integer in decimal, with a leading `-` when it is negative.
pub fn int_text(n: i128) -> (r: String)
    ensures
        r@ == decimal_text(n as int),
{
    if n < 0 {
        let abs: u128 = (-(n + 1)) as u128 + 1;
        let mut s = String::from_str("-");
        s.append(digits_text(abs).as_str());
        proof {
            reveal_strlit("-");
        }
        s
    } else {
        digits_text(n as u128)
    }
}

} // verus!
