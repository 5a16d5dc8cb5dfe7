//! Decimal rendering of unsigned integers.

use vstd::prelude::*;

verus! {

/// The character that stands for the digit `d`.
pub open spec fn digit_char(d: nat) -> char
    recommends
        d < 10,
{
    if d == 0 {
        '0'
    } else if d == 1 {
        '1'
    } else if d == 2 {
        '2'
    } else if d == 3 {
        '3'
    } else if d == 4 {
        '4'
    } else if d == 5 {
        '5'
    } else if d == 6 {
        '6'
    } else if d == 7 {
        '7'
    } else if d == 8 {
        '8'
    } else {
        '9'
    }
}

/// The decimal numeral of `n`: no sign, no leading zero, `"0"` for zero.
pub open spec fn digits(n: nat) -> Seq<char>
    decreases n,
{
    if n < 10 {
        seq![digit_char(n)]
    } else {
        digits(n / 10).push(digit_char(n % 10))
    }
}

/// The numeral of the digits in `low`, least significant first, read from the
/// most significant one down.
spec fn numeral_of(low: Seq<u8>) -> Seq<char> {
    Seq::new(low.len(), |i: int| digit_char(low[low.len() - 1 - i] as nat))
}

fn digit_str(d: u8) -> (s: &'static str)
    requires
        d < 10,
    ensures
        s@ == seq![digit_char(d as nat)],
{
    proof {
        reveal_strlit("0");
        reveal_strlit("1");
        reveal_strlit("2");
        reveal_strlit("3");
        reveal_strlit("4");
        reveal_strlit("5");
        reveal_strlit("6");
        reveal_strlit("7");
        reveal_strlit("8");
        reveal_strlit("9");
    }
    let s = if d == 0 {
        "0"
    } else if d == 1 {
        "1"
    } else if d == 2 {
        "2"
    } else if d == 3 {
        "3"
    } else if d == 4 {
        "4"
    } else if d == 5 {
        "5"
    } else if d == 6 {
        "6"
    } else if d == 7 {
        "7"
    } else if d == 8 {
        "8"
    } else {
        "9"
    };
    assert(s@ =~= seq![digit_char(d as nat)]);
    s
}

/// Appends the decimal numeral of `n` to `out`.
pub fn push_decimal(out: &mut String, n: u128)
    ensures
        final(out)@ == old(out)@ + digits(n as nat),
{
    let mut low: Vec<u8> = Vec::new();
    let mut rest: u128 = n / 10;
    low.push((n % 10) as u8);
    assert(numeral_of(low@) =~= seq![digit_char((n % 10) as nat)]);
    while rest > 0
        invariant
            forall|i: int| 0 <= i < low@.len() ==> low@[i] < 10,
            low@.len() >= 1,
            digits(n as nat) == if rest > 0 {
                digits(rest as nat) + numeral_of(low@)
            } else {
                numeral_of(low@)
            },
        decreases rest,
    {
        let ghost before = low@;
        let d: u8 = (rest % 10) as u8;
        low.push(d);
        proof {
            let after = low@;
            assert(numeral_of(after) =~= seq![digit_char(d as nat)] + numeral_of(before));
            if rest >= 10 {
                assert(digits(rest as nat) + numeral_of(before) =~= digits((rest / 10) as nat)
                    + numeral_of(after));
            } else {
                assert(digits(rest as nat) + numeral_of(before) =~= numeral_of(after));
            }
        }
        rest = rest / 10;
    }
    let mut i: usize = low.len();
    while i > 0
        invariant
            i <= low@.len(),
            forall|j: int| 0 <= j < low@.len() ==> low@[j] < 10,
            out@ == old(out)@ + numeral_of(low@).subrange(0, low@.len() - i),
        decreases i,
    {
        i = i - 1;
        let ghost before = out@;
        out.append(digit_str(low[i]));
        assert(out@ =~= old(out)@ + numeral_of(low@).subrange(0, low@.len() - i));
    }
    assert(numeral_of(low@).subrange(0, low@.len() as int) =~= numeral_of(low@));
}

/// The decimal numeral of `n` as a string, as `n.to_string()` gives it.
pub fn decimal(n: u128) -> (s: String)
    ensures
        s@ == digits(n as nat),
{
    let mut s = String::new();
    push_decimal(&mut s, n);
    assert(s@ =~= digits(n as nat));
    s
}

} // verus!
