//! Decimal rendering of integers as text.

use vstd::prelude::*;

verus! {

/// The character of a decimal digit `d` (`0 <= d < 10`).
pub open spec fn digit_char(d: int) -> char {
    if d == 0 {
        '0'
    } else if d == 1 {
        '1'
    } else if d == 2 {
        '2'
    } else if d == 3 {
        '3'
    } else if d == 4 {
        '4'
    } else if d == 5 {
        '5'
    } else if d == 6 {
        '6'
    } else if d == 7 {
        '7'
    } else if d == 8 {
        '8'
    } else {
        '9'
    }
}

/// The decimal digits of `n`, most significant first, without leading zeros
/// (`0` is written as a single `0`).
pub open spec fn digits(n: nat) -> Seq<char>
    decreases n,
{
    if n < 10 {
        seq![digit_char(n as int)]
    } else {
        digits(n / 10).push(digit_char((n % 10) as int))
    }
}

/// The decimal text of a signed integer: a `-` before the digits of a
/// negative value.
pub open spec fn signed_digits(i: int) -> Seq<char> {
    if i < 0 {
        seq!['-'] + digits((-i) as nat)
    } else {
        digits(i as nat)
    }
}

fn digit_str(d: u64) -> (r: &'static str)
    requires
        d < 10,
    ensures
        r@ == seq![digit_char(d as int)],
{
    proof {
        reveal_strlit("0");
        reveal_strlit("1");
        reveal_strlit("2");
        reveal_strlit("3");
        reveal_strlit("4");
        reveal_strlit("5");
        reveal_strlit("6");
        reveal_strlit("7");
        reveal_strlit("8");
        reveal_strlit("9");
    }
    let r = if d == 0 {
        "0"
    } else if d == 1 {
        "1"
    } else if d == 2 {
        "2"
    } else if d == 3 {
        "3"
    } else if d == 4 {
        "4"
    } else if d == 5 {
        "5"
    } else if d == 6 {
        "6"
    } else if d == 7 {
        "7"
    } else if d == 8 {
        "8"
    } else {
        "9"
    };
    assert(r@ =~= seq![digit_char(d as int)]);
    r
}

/// Appends the decimal digits of `n` to `out`.
pub fn push_decimal(out: &mut String, n: u64)
    ensures
        final(out)@ == old(out)@ + digits(n as nat),
{
    let mut acc: String = digit_str(n % 10).to_owned();
    let mut m: u64 = n / 10;
    assert(digits(n as nat) == (if m == 0 { Seq::empty() } else { digits(m as nat) }) + acc@) by {
        if n >= 10 {
            assert(digits(n as nat) == digits(m as nat).push(digit_char((n % 10) as int)));
        }
        assert(Seq::<char>::empty() + acc@ =~= acc@);
    }
    while m > 0
        invariant
            digits(n as nat) == (if m == 0 { Seq::empty() } else { digits(m as nat) }) + acc@,
        decreases m,
    {
        let d: u64 = m % 10;
        let head: String = digit_str(d).to_owned();
        let ghost old_acc = acc@;
        let ghost old_m = m;
        acc = head.concat(acc.as_str());
        m = m / 10;
        assert(digits(old_m as nat) == (if m == 0 { Seq::empty() } else { digits(m as nat) })
            + seq![digit_char(d as int)]) by {
            if old_m >= 10 {
                assert(digits(old_m as nat) == digits(m as nat).push(digit_char(d as int)));
                assert(digits(m as nat).push(digit_char(d as int)) =~= digits(m as nat) + seq![
                    digit_char(d as int),
                ]);
            } else {
                assert(Seq::<char>::empty() + seq![digit_char(d as int)] =~= seq![
                    digit_char(d as int),
                ]);
            }
        }
        assert(acc@ == seq![digit_char(d as int)] + old_acc);
        assert(digits(n as nat) =~= (if m == 0 { Seq::empty() } else { digits(m as nat) })
            + acc@);
    }
    assert(Seq::<char>::empty() + acc@ =~= acc@);
    out.append(acc.as_str());
}

/// Appends the decimal text of `i` to `out`, with a `-` before a negative
/// value.
pub fn push_signed_decimal(out: &mut String, i: i64)
    ensures
        final(out)@ == old(out)@ + signed_digits(i as int),
{
    if i < 0 {
        proof {
            reveal_strlit("-");
        }
        out.append("-");
        let magnitude: u64 = if i == i64::MIN {
            9223372036854775808u64
        } else {
            (-i) as u64
        };
        push_decimal(out, magnitude);
        assert(out@ =~= old(out)@ + (seq!['-'] + digits(magnitude as nat)));
    } else {
        push_decimal(out, i as u64);
    }
}

} // verus!
