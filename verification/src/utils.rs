//! Small text helpers shared by the payment modules: string comparison,
//! ASCII upper-casing and the rendering of amounts held in minor units.
use vstd::prelude::*;

use crate::stripe::signature::{all_digits, digits_value};

verus! {

/// Two strings are equal exactly when they hold the same characters.
pub fn str_eq(a: &str, b: &str) -> (r: bool)
    ensures
        r == (a@ == b@),
{
    let x = String::from_str(a);
    let y = String::from_str(b);
    x == y
}

/// The ASCII upper-case form of a character: `a`..`z` become `A`..`Z`,
/// every other character is left as it is.
pub open spec fn ascii_upper_char(c: char) -> char {
    if 'a' <= c && c <= 'z' {
        ((c as int) - 32) as char
    } else {
        c
    }
}

/// The ASCII upper-case form of a string, character by character.
pub open spec fn ascii_upper(s: Seq<char>) -> Seq<char> {
    s.map_values(|c: char| ascii_upper_char(c))
}

/// Calls `str::to_ascii_uppercase` of std. Its documentation says that each
/// character is mapped to its ASCII upper case equivalent: `a` to `z` become
/// `A` to `Z`, and every other character is unchanged. That is the contract.
#[verifier::external_body]
pub fn to_ascii_uppercase(s: &str) -> (r: String)
    ensures
        r@ == ascii_upper(s@),
{
    s.to_ascii_uppercase()
}

/// The character of a decimal digit.
pub open spec fn digit_char(d: nat) -> char {
    ((('0' as int) + d) as char)
}

/// The decimal representation of a natural number, without leading zeros.
pub open spec fn decimal(n: nat) -> Seq<char>
    decreases n,
{
    if n < 10 {
        seq![digit_char(n)]
    } else {
        decimal(n / 10).push(digit_char(n % 10))
    }
}

/// A non-negative amount in minor units written with two decimals:
/// `1234` is `12.34`, `5` is `0.05`.
pub open spec fn unsigned_amount_text(m: nat) -> Seq<char> {
    decimal(m / 100) + seq!['.', digit_char((m % 100) / 10), digit_char(m % 10)]
}

/// An amount in minor units written with two decimals, with a leading `-`
/// when it is negative.
pub open spec fn amount_text(cents: int) -> Seq<char> {
    if cents < 0 {
        seq!['-'] + unsigned_amount_text((-cents) as nat)
    } else {
        unsigned_amount_text(cents as nat)
    }
}

proof fn lemma_digit_char_value(d: nat)
    requires
        d < 10,
    ensures
        (digit_char(d) as int) - ('0' as int) == d,
        '0' <= digit_char(d) && digit_char(d) <= '9',
{
}

/// Reading the decimal representation of a number back gives the number.
pub proof fn lemma_decimal_reads_back(n: nat)
    ensures
        digits_value(decimal(n)) == n,
        all_digits(decimal(n)),
    decreases n,
{
    let d = decimal(n);
    lemma_digit_char_value(n % 10);
    if n >= 10 {
        lemma_decimal_reads_back(n / 10);
        assert(d.drop_last() =~= decimal(n / 10));
        assert(d.last() == digit_char(n % 10));
        assert(digits_value(d) == digits_value(d.drop_last()) * 10 + ((d.last() as int) - ('0' as int)) as nat);
        assert((n / 10) * 10 + n % 10 == n) by (nonlinear_arith);
        assert forall|i: int| 0 <= i < d.len() implies '0' <= #[trigger] d[i] && d[i] <= '9' by {
            if i < d.len() - 1 {
                assert(d[i] == decimal(n / 10)[i]);
            }
        }
    } else {
        assert(d.drop_last() =~= Seq::<char>::empty());
        assert(d.last() == digit_char(n % 10));
        assert(digits_value(d) == digits_value(d.drop_last()) * 10 + ((d.last() as int) - ('0' as int)) as nat);
        assert(n % 10 == n);
    }
}

/// An amount's text reads back as the amount: a `-` exactly when it is
/// negative, then digits, a point, and two more digits, which read together
/// without the point give the amount's size in minor units.
pub proof fn lemma_amount_text_reads_back(cents: int)
    ensures
        ({
            let t = amount_text(cents);
            let u = if cents < 0 { t.skip(1) } else { t };
            &&& (t.len() > 0 && t[0] == '-') <==> cents < 0
            &&& u.len() >= 4
            &&& u[u.len() - 3] == '.'
            &&& all_digits(u.subrange(0, u.len() - 3))
            &&& digits_value(u.subrange(0, u.len() - 3) + u.subrange(u.len() - 2, u.len() as int))
                == if cents < 0 { -cents } else { cents }
        }),
{
    reveal_strlit("-");
    let m: nat = if cents < 0 { (-cents) as nat } else { cents as nat };
    let t = amount_text(cents);
    let u = unsigned_amount_text(m);
    if cents < 0 {
        assert(t.skip(1) =~= u);
    }
    lemma_decimal_reads_back(m / 100);
    let dec = decimal(m / 100);
    let d1 = digit_char((m % 100) / 10);
    let d2 = digit_char(m % 10);
    assert(u.subrange(0, u.len() - 3) =~= dec);
    assert(u.subrange(u.len() - 2, u.len() as int) =~= seq![d1, d2]);
    lemma_digit_char_value((m % 100) / 10);
    lemma_digit_char_value(m % 10);
    let w = dec + seq![d1, d2];
    assert(w.drop_last() =~= dec.push(d1));
    assert(dec.push(d1).drop_last() =~= dec);
    assert(digits_value(dec.push(d1)) == digits_value(dec) * 10 + (m % 100) / 10);
    assert(digits_value(w) == digits_value(dec.push(d1)) * 10 + m % 10);
    assert((m / 100 * 10 + (m % 100) / 10) * 10 + m % 10 == m) by (nonlinear_arith);
    if cents >= 0 {
        assert(dec[0] == decimal(m / 100)[0]);
        assert(t[0] == dec[0]);
    }
}

fn digit_str(d: u64) -> (r: &'static str)
    requires
        d < 10,
    ensures
        r@ == seq![digit_char(d as nat)],
{
    proof {
        reveal_strlit("0");
        reveal_strlit("1");
        reveal_strlit("2");
        reveal_strlit("3");
        reveal_strlit("4");
        reveal_strlit("5");
        reveal_strlit("6");
        reveal_strlit("7");
        reveal_strlit("8");
        reveal_strlit("9");
    }
    if d == 0 {
        "0"
    } else if d == 1 {
        "1"
    } else if d == 2 {
        "2"
    } else if d == 3 {
        "3"
    } else if d == 4 {
        "4"
    } else if d == 5 {
        "5"
    } else if d == 6 {
        "6"
    } else if d == 7 {
        "7"
    } else if d == 8 {
        "8"
    } else {
        "9"
    }
}

/// Appends the decimal representation of `n` to `s`.
pub fn push_decimal(s: &mut String, n: u64)
    ensures
        final(s)@ == old(s)@ + decimal(n as nat),
    decreases n,
{
    if n >= 10 {
        push_decimal(s, n / 10);
        s.append(digit_str(n % 10));
        proof {
            assert(decimal(n as nat) == decimal((n / 10) as nat).push(digit_char((n % 10) as nat)));
            assert(s@ =~= old(s)@ + decimal(n as nat));
        }
    } else {
        s.append(digit_str(n));
        proof {
            assert(decimal(n as nat) == seq![digit_char(n as nat)]);
            assert(s@ =~= old(s)@ + decimal(n as nat));
        }
    }
}

/// Appends `m` minor units written with two decimals to `s`.
fn push_unsigned_amount(s: &mut String, m: u64)
    ensures
        final(s)@ == old(s)@ + unsigned_amount_text(m as nat),
{
    push_decimal(s, m / 100);
    s.append(".");
    s.append(digit_str((m % 100) / 10));
    s.append(digit_str(m % 10));
    proof {
        reveal_strlit(".");
        assert(s@ =~= old(s)@ + unsigned_amount_text(m as nat));
    }
}

/// Writes an amount held in minor units (cents) with two decimals, such as
/// `12.34` for `1234` or `-0.05` for `-5`.
pub fn amount_to_string(cents: i64) -> (r: String)
    ensures
        r@ == amount_text(cents as int),
{
    let mut s = String::new();
    if cents < 0 {
        s.append("-");
        let m: u64 = ((-(cents + 1)) as u64) + 1;
        push_unsigned_amount(&mut s, m);
        proof {
            reveal_strlit("-");
            assert(s@ =~= amount_text(cents as int));
        }
    } else {
        push_unsigned_amount(&mut s, cents as u64);
        proof {
            assert(s@ =~= amount_text(cents as int));
        }
    }
    s
}

} // verus!
