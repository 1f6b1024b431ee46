//! Decimal text for the integers that the node prints and sends.

use vstd::prelude::*;

verus! {

/// The character that stands for the decimal digit `d`.
pub open spec fn digit_char(d: int) -> char
    recommends
        0 <= d <= 9,
{
    if d == 0 {
        '0'
    } else if d == 1 {
        '1'
    } else if d == 2 {
        '2'
    } else if d == 3 {
        '3'
    } else if d == 4 {
        '4'
    } else if d == 5 {
        '5'
    } else if d == 6 {
        '6'
    } else if d == 7 {
        '7'
    } else if d == 8 {
        '8'
    } else {
        '9'
    }
}

/// Whether `c` is one of the ten decimal digits.
pub open spec fn is_digit(c: char) -> bool {
    exists|d: int| 0 <= d <= 9 && c == #[trigger] digit_char(d)
}

/// The decimal numeral of `n`, most significant digit first, without leading
/// zeros (the numeral of zero is the single digit `0`).
pub open spec fn decimal(n: nat) -> Seq<char>
    decreases n,
{
    if n < 10 {
        seq![digit_char(n as int)]
    } else {
        decimal(n / 10).push(digit_char((n % 10) as int))
    }
}

/// The decimal numeral of `n`, with a leading minus sign for negative numbers.
pub open spec fn signed_decimal(n: int) -> Seq<char> {
    if n < 0 {
        seq!['-'] + decimal((-n) as nat)
    } else {
        decimal(n as nat)
    }
}

/// The value that a sequence of decimal digits denotes; the inverse of
/// [`decimal`] on numerals.
pub open spec fn numeral_value(digits: Seq<char>) -> nat
    decreases digits.len(),
{
    if digits.len() == 0 {
        0
    } else {
        numeral_value(digits.drop_last()) * 10 + digit_value(digits.last())
    }
}

/// The value of one decimal digit (zero for any other character).
pub open spec fn digit_value(c: char) -> nat {
    if c == '1' {
        1
    } else if c == '2' {
        2
    } else if c == '3' {
        3
    } else if c == '4' {
        4
    } else if c == '5' {
        5
    } else if c == '6' {
        6
    } else if c == '7' {
        7
    } else if c == '8' {
        8
    } else if c == '9' {
        9
    } else {
        0
    }
}

/// A numeral is never empty and holds nothing but digits.
pub proof fn lemma_decimal_is_digits(n: nat)
    ensures
        decimal(n).len() >= 1,
        forall|i: int| 0 <= i < decimal(n).len() ==> is_digit(#[trigger] decimal(n)[i]),
    decreases n,
{
    if n < 10 {
        assert(is_digit(digit_char(n as int)));
    } else {
        lemma_decimal_is_digits(n / 10);
        assert(is_digit(digit_char((n % 10) as int)));
    }
}

/// Ten to the power of `k`.
pub open spec fn pow10(k: nat) -> nat
    decreases k,
{
    if k == 0 {
        1
    } else {
        10 * pow10((k - 1) as nat)
    }
}

/// A number below ten to the power of `k` has at most `k` digits.
pub proof fn lemma_decimal_length(n: nat, k: nat)
    requires
        k >= 1,
        n < pow10(k),
    ensures
        1 <= decimal(n).len() <= k,
    decreases n,
{
    if n >= 10 {
        assert(pow10(1) == 10) by {
            reveal_with_fuel(pow10, 2);
        }
        assert(k >= 2);
        lemma_decimal_length(n / 10, (k - 1) as nat);
    }
}

/// A signed 32-bit number has at most eleven characters, sign included.
pub proof fn lemma_signed_decimal_length(n: int)
    requires
        -0x8000_0000 <= n <= 0x7fff_ffff,
    ensures
        1 <= signed_decimal(n).len() <= 11,
{
    assert(pow10(10) == 10_000_000_000) by {
        reveal_with_fuel(pow10, 11);
    }
    if n < 0 {
        lemma_decimal_length((-n) as nat, 10);
    } else {
        lemma_decimal_length(n as nat, 10);
    }
}

/// A numeral is plain ASCII, one byte to the character.
pub proof fn lemma_decimal_is_ascii(n: nat)
    ensures
        vstd::utf8::is_ascii_chars(decimal(n)),
    decreases n,
{
    if n >= 10 {
        lemma_decimal_is_ascii(n / 10);
    }
}

/// Reading a numeral back gives the number it was written from, so two
/// different numbers never share a numeral.
pub proof fn lemma_decimal_round_trip(n: nat)
    ensures
        numeral_value(decimal(n)) == n,
    decreases n,
{
    if n < 10 {
        let s = seq![digit_char(n as int)];
        assert(s.drop_last() =~= Seq::<char>::empty());
        assert(numeral_value(s.drop_last()) == 0);
        assert(s.last() == digit_char(n as int));
    } else {
        lemma_decimal_round_trip(n / 10);
        let s = decimal(n / 10).push(digit_char((n % 10) as int));
        assert(s.drop_last() =~= decimal(n / 10));
        assert(s.last() == digit_char((n % 10) as int));
    }
}

/// Two numbers with the same signed numeral are the same number.
pub proof fn lemma_signed_decimal_determines(a: int, b: int)
    requires
        signed_decimal(a) == signed_decimal(b),
    ensures
        a == b,
{
    let ma = if a < 0 {
        (-a) as nat
    } else {
        a as nat
    };
    let mb = if b < 0 {
        (-b) as nat
    } else {
        b as nat
    };
    lemma_decimal_is_digits(ma);
    lemma_decimal_is_digits(mb);
    lemma_decimal_round_trip(ma);
    lemma_decimal_round_trip(mb);
    assert(forall|d: int| 0 <= d <= 9 ==> #[trigger] digit_char(d) != '-');
    if a < 0 && b < 0 {
        assert(decimal(ma) =~= signed_decimal(a).drop_first());
        assert(decimal(mb) =~= signed_decimal(b).drop_first());
    } else if a < 0 {
        assert(signed_decimal(a)[0] == '-');
        assert(is_digit(decimal(mb)[0]));
    } else if b < 0 {
        assert(signed_decimal(b)[0] == '-');
        assert(is_digit(decimal(ma)[0]));
    }
}

/// The one-character text of a decimal digit.
fn digit_text(d: u32) -> (s: &'static str)
    requires
        d <= 9,
    ensures
        s@ == seq![digit_char(d as int)],
{
    proof {
        reveal_strlit("0");
        reveal_strlit("1");
        reveal_strlit("2");
        reveal_strlit("3");
        reveal_strlit("4");
        reveal_strlit("5");
        reveal_strlit("6");
        reveal_strlit("7");
        reveal_strlit("8");
        reveal_strlit("9");
    }
    let s = if d == 0 {
        "0"
    } else if d == 1 {
        "1"
    } else if d == 2 {
        "2"
    } else if d == 3 {
        "3"
    } else if d == 4 {
        "4"
    } else if d == 5 {
        "5"
    } else if d == 6 {
        "6"
    } else if d == 7 {
        "7"
    } else if d == 8 {
        "8"
    } else {
        "9"
    };
    assert(s@ =~= seq![digit_char(d as int)]);
    s
}

/// Appends the decimal numeral of `n` to `out`.
pub fn push_decimal(out: &mut String, n: u32)
    ensures
        final(out)@ == old(out)@ + decimal(n as nat),
    decreases n,
{
    if n >= 10 {
        push_decimal(out, n / 10);
    }
    out.append(digit_text(n % 10));
    proof {
        if n >= 10 {
            assert(old(out)@ + decimal((n / 10) as nat) + seq![digit_char((n % 10) as int)]
                =~= old(out)@ + decimal((n / 10) as nat).push(digit_char((n % 10) as int)));
        }
    }
}

/// Appends the decimal numeral of `n`, with its sign, to `out`.
pub fn push_signed_decimal(out: &mut String, n: i32)
    ensures
        final(out)@ == old(out)@ + signed_decimal(n as int),
{
    if n < 0 {
        proof {
            reveal_strlit("-");
        }
        out.append("-");
        let magnitude: u32 = (-(n as i64)) as u32;
        push_decimal(out, magnitude);
        proof {
            assert("-"@ =~= seq!['-']);
            assert(old(out)@ + seq!['-'] + decimal((-n) as nat) =~= old(out)@ + (seq!['-']
                + decimal((-n) as nat)));
        }
    } else {
        push_decimal(out, n as u32);
    }
}

} // verus!
