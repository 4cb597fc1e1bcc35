//! Decimal notation for integers, as it appears in arguments and reports.

use vstd::prelude::*;
use vstd::string::StringExecFns;

verus! {

/// The character that writes the digit `d`.
pub open spec fn digit_char(d: int) -> char {
    if d == 0 {
        '0'
    } else if d == 1 {
        '1'
    } else if d == 2 {
        '2'
    } else if d == 3 {
        '3'
    } else if d == 4 {
        '4'
    } else if d == 5 {
        '5'
    } else if d == 6 {
        '6'
    } else if d == 7 {
        '7'
    } else if d == 8 {
        '8'
    } else {
        '9'
    }
}

/// The digits of `n` in base ten, most significant first, without leading
/// zeros; `0` is written `0`.
pub open spec fn nat_digits(n: nat) -> Seq<char>
    decreases n,
{
    if n < 10 {
        seq![digit_char(n as int)]
    } else {
        nat_digits(n / 10).push(digit_char((n % 10) as int))
    }
}

/// `i` in base ten, with a `-` before the digits of a negative number.
pub open spec fn decimal(i: int) -> Seq<char> {
    if i < 0 {
        seq!['-'] + nat_digits((-i) as nat)
    } else {
        nat_digits(i as nat)
    }
}

/// `c` is one of the digits `0` to `9`.
pub open spec fn is_digit(c: char) -> bool {
    '0' <= c <= '9'
}

/// `s` is one or more digits and nothing else.
pub open spec fn is_numeric(s: Seq<char>) -> bool {
    s.len() > 0 && forall|i: int| 0 <= i < s.len() ==> is_digit(#[trigger] s[i])
}

/// The one-character string that writes the digit `d`.
fn digit_text(d: u64) -> (text: &'static str)
    requires
        d < 10,
    ensures
        text@ == seq![digit_char(d as int)],
{
    proof {
        reveal_strlit("0");
        reveal_strlit("1");
        reveal_strlit("2");
        reveal_strlit("3");
        reveal_strlit("4");
        reveal_strlit("5");
        reveal_strlit("6");
        reveal_strlit("7");
        reveal_strlit("8");
        reveal_strlit("9");
    }
    let text = if d == 0 {
        "0"
    } else if d == 1 {
        "1"
    } else if d == 2 {
        "2"
    } else if d == 3 {
        "3"
    } else if d == 4 {
        "4"
    } else if d == 5 {
        "5"
    } else if d == 6 {
        "6"
    } else if d == 7 {
        "7"
    } else if d == 8 {
        "8"
    } else {
        "9"
    };
    assert(text@ =~= seq![digit_char(d as int)]);
    text
}

/// Appends the digits of `n` to `out`.
pub fn append_nat(out: &mut String, n: u64)
    ensures
        final(out)@ == old(out)@ + nat_digits(n as nat),
    decreases n,
{
    if n >= 10 {
        append_nat(out, n / 10);
    }
    out.append(digit_text(n % 10));
    proof {
        let last = seq![digit_char((n % 10) as int)];
        if n >= 10 {
            assert(old(out)@ + nat_digits((n / 10) as nat) + last =~= old(out)@ + nat_digits(
                (n / 10) as nat,
            ).push(digit_char((n % 10) as int)));
        }
    }
}

/// Appends `v` in decimal notation to `out`.
pub fn append_i32(out: &mut String, v: i32)
    ensures
        final(out)@ == old(out)@ + decimal(v as int),
{
    if v < 0 {
        out.append("-");
        proof {
            reveal_strlit("-");
        }
        let magnitude: u64 = (-(v as i64)) as u64;
        append_nat(out, magnitude);
        assert(old(out)@ + "-"@ + nat_digits(magnitude as nat) =~= old(out)@ + (seq!['-']
            + nat_digits((-v) as nat)));
    } else {
        append_nat(out, v as u64);
    }
}

/// `v` in decimal notation.
pub fn i32_text(v: i32) -> (text: String)
    ensures
        text@ == decimal(v as int),
{
    let mut text = String::new();
    append_i32(&mut text, v);
    assert(Seq::<char>::empty() + decimal(v as int) =~= decimal(v as int));
    text
}

/// Whether the characters `s` are one or more digits and nothing else.
pub fn check_numeric(s: &Vec<char>) -> (numeric: bool)
    ensures
        numeric == is_numeric(s@),
{
    if s.len() == 0 {
        return false;
    }
    let mut i: usize = 0;
    while i < s.len()
        invariant
            i <= s.len(),
            forall|j: int| 0 <= j < i ==> is_digit(#[trigger] s@[j]),
        decreases s.len() - i,
    {
        let c = s[i];
        if !('0' <= c && c <= '9') {
            assert(!is_digit(s@[i as int]));
            return false;
        }
        i += 1;
    }
    true
}

/// The digits of a number are digits, and begin with `0` only where the
/// number is zero.
pub proof fn law_digits_are_numeric(n: nat)
    ensures
        is_numeric(nat_digits(n)),
        nat_digits(n)[0] == '0' <==> n == 0,
    decreases n,
{
    if n >= 10 {
        law_digits_are_numeric(n / 10);
        let head = nat_digits(n / 10);
        let all = head.push(digit_char((n % 10) as int));
        assert forall|i: int| 0 <= i < all.len() implies is_digit(#[trigger] all[i]) by {
            if i < head.len() {
                assert(all[i] == head[i]);
            }
        }
        assert(all[0] == head[0]);
    }
}

/// A number written in decimal notation is numeric exactly where it is not
/// negative.
pub proof fn law_decimal_is_numeric(i: int)
    ensures
        is_numeric(decimal(i)) <==> i >= 0,
{
    if i < 0 {
        assert(decimal(i)[0] == '-');
        assert(!is_digit(decimal(i)[0]));
    } else {
        law_digits_are_numeric(i as nat);
    }
}

} // verus!
