//! Decimal notation of natural numbers, as used for SVG coordinates.

use vstd::prelude::*;
use vstd::string::*;

verus! {

/// The character of a single decimal digit.
pub open spec fn digit_char(d: nat) -> char
    recommends
        d < 10,
{
    if d == 0 { '0' }
    else if d == 1 { '1' }
    else if d == 2 { '2' }
    else if d == 3 { '3' }
    else if d == 4 { '4' }
    else if d == 5 { '5' }
    else if d == 6 { '6' }
    else if d == 7 { '7' }
    else if d == 8 { '8' }
    else { '9' }
}

/// The usual base-ten notation of `n`, without leading zeros.
pub open spec fn decimal(n: nat) -> Seq<char>
    decreases n,
{
    if n < 10 {
        seq![digit_char(n)]
    } else {
        decimal(n / 10) + seq![digit_char(n % 10)]
    }
}

/// Decimal notation uses digits only.
pub proof fn lemma_decimal_digits(n: nat)
    ensures
        forall|i: int| 0 <= i < decimal(n).len() ==> '0' <= #[trigger] decimal(n)[i] <= '9',
    decreases n,
{
    if n >= 10 {
        lemma_decimal_digits(n / 10);
        let p = decimal(n / 10);
        let d = seq![digit_char(n % 10)];
        assert(decimal(n) == p + d);
        assert forall|i: int| 0 <= i < decimal(n).len() implies '0' <= #[trigger] decimal(n)[i]
            <= '9' by {
            if i < p.len() {
                assert(decimal(n)[i] == p[i]);
            } else {
                assert(decimal(n)[i] == d[i - p.len()]);
            }
        }
    }
}

/// The one-character string of a digit.
fn digit_str(d: u32) -> (s: &'static str)
    requires
        d < 10,
    ensures
        s@ == seq![digit_char(d as nat)],
{
    proof {
        reveal_strlit("0");
        reveal_strlit("1");
        reveal_strlit("2");
        reveal_strlit("3");
        reveal_strlit("4");
        reveal_strlit("5");
        reveal_strlit("6");
        reveal_strlit("7");
        reveal_strlit("8");
        reveal_strlit("9");
    }
    match d {
        0 => "0",
        1 => "1",
        2 => "2",
        3 => "3",
        4 => "4",
        5 => "5",
        6 => "6",
        7 => "7",
        8 => "8",
        _ => "9",
    }
}

/// The number that a text of decimal digits stands for, read left to right,
/// each character counting as its distance from `'0'`.
pub open spec fn decimal_value(s: Seq<char>) -> int
    decreases s.len(),
{
    if s.len() == 0 {
        0
    } else {
        decimal_value(s.drop_last()) * 10 + (s.last() as int - '0' as int)
    }
}

proof fn lemma_digit_char_value(d: nat)
    requires
        d < 10,
    ensures
        digit_char(d) as int - '0' as int == d,
{
}

/// Decimal notation reads back as its number: the text consists of the digits
/// `'0'` to `'9'`, it starts with `'0'` only for zero, and read as base ten it
/// gives `n` again. So two numbers never share a notation.
pub proof fn law_decimal_reads_back(n: nat)
    ensures
        decimal_value(decimal(n)) == n,
        decimal(n).len() >= 1,
        forall|i: int| 0 <= i < decimal(n).len() ==> '0' <= #[trigger] decimal(n)[i] <= '9',
        n > 0 ==> decimal(n)[0] != '0',
        forall|m: nat| #[trigger] decimal(m) == decimal(n) ==> m == n,
    decreases n,
{
    lemma_decimal_digits(n);
    if n < 10 {
        lemma_digit_char_value(n);
        assert(decimal(n).drop_last() =~= Seq::<char>::empty());
        assert(decimal_value(Seq::<char>::empty()) == 0);
    } else {
        law_decimal_reads_back(n / 10);
        lemma_digit_char_value(n % 10);
        let p = decimal(n / 10);
        assert(decimal(n).drop_last() =~= p);
        assert(decimal(n).last() == digit_char(n % 10));
        assert(decimal(n)[0] == p[0]);
    }
    assert forall|m: nat| #[trigger] decimal(m) == decimal(n) implies m == n by {
        lemma_value_of_decimal(m);
    }
}

proof fn lemma_value_of_decimal(m: nat)
    ensures
        decimal_value(decimal(m)) == m,
    decreases m,
{
    if m < 10 {
        lemma_digit_char_value(m);
        assert(decimal(m).drop_last() =~= Seq::<char>::empty());
        assert(decimal_value(Seq::<char>::empty()) == 0);
    } else {
        lemma_value_of_decimal(m / 10);
        lemma_digit_char_value(m % 10);
        assert(decimal(m).drop_last() =~= decimal(m / 10));
    }
}

/// Appends the decimal notation of `n` to `s`; the appended text reads back as `n`.
pub fn push_decimal(s: &mut String, n: u32)
    ensures
        final(s)@ == old(s)@ + decimal(n as nat),
        decimal_value(final(s)@.skip(old(s)@.len() as int)) == n,
    decreases n,
{
    if n >= 10 {
        push_decimal(s, n / 10);
    }
    s.append(digit_str(n % 10));
    proof {
        assert(old(s)@ + decimal(n as nat) =~= if n < 10 {
            old(s)@ + seq![digit_char(n as nat)]
        } else {
            old(s)@ + decimal((n / 10) as nat) + seq![digit_char((n % 10) as nat)]
        });
        assert(s@.skip(old(s)@.len() as int) =~= decimal(n as nat));
        lemma_value_of_decimal(n as nat);
    }
}

} // verus!
