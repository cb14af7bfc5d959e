//! Text building blocks: decimal numerals and the two `String` edits the
//! player needs.

use vstd::prelude::*;

verus! {

/// The numeral character for a single decimal digit.
pub open spec fn digit_char(d: nat) -> char {
    ((d + 48) as u32) as char
}

/// The decimal numeral of `n`, most significant digit first, without padding.
pub open spec fn decimal(n: nat) -> Seq<char>
    decreases n,
{
    if n < 10 {
        seq![digit_char(n)]
    } else {
        decimal(n / 10).push(digit_char(n % 10))
    }
}

/// `count` copies of the character `c`.
pub open spec fn repeat_char(c: char, count: nat) -> Seq<char> {
    Seq::new(count, |i: int| c)
}

/// The numeral of `n` padded on the left with `fill` up to `width` characters,
/// as the formatting width `{:0w}` (fill `'0'`) or `{:>w}` (fill `' '`) gives it.
pub open spec fn padded_decimal(n: nat, width: nat, fill: char) -> Seq<char> {
    let d = decimal(n);
    if d.len() < width {
        repeat_char(fill, (width - d.len()) as nat) + d
    } else {
        d
    }
}

/// A numeral is never empty.
pub proof fn lemma_decimal_len(n: nat)
    ensures
        decimal(n).len() >= 1,
        n < 10 <==> decimal(n).len() == 1,
    decreases n,
{
    if n >= 10 {
        lemma_decimal_len(n / 10);
    }
}

/// The numeral of a number is made of digits only and reads back as that
/// number, so different numbers get different numerals.
pub proof fn lemma_decimal_reads_back(n: nat)
    ensures
        forall|i: int| 0 <= i < decimal(n).len() ==> 48 <= (#[trigger] decimal(n)[i] as u32) <= 57,
        digits_value(decimal(n)) == n,
    decreases n,
{
    lemma_digit_char_value(n % 10);
    assert(digits_value(Seq::<char>::empty()) == 0);
    if n >= 10 {
        lemma_decimal_reads_back(n / 10);
        assert(decimal(n).drop_last() =~= decimal(n / 10));
        assert(decimal(n).last() == digit_char(n % 10));
        assert(digits_value(decimal(n)) == digits_value(decimal(n / 10)) * 10 + n % 10);
        assert((n / 10) * 10 + n % 10 == n);
        assert forall|i: int| 0 <= i < decimal(n).len() implies 48 <= (#[trigger] decimal(n)[i] as u32)
            <= 57 by {
            if i < decimal(n).len() - 1 {
                assert(decimal(n)[i] == decimal(n / 10)[i]);
            }
        }
    } else {
        assert(decimal(n).drop_last() =~= Seq::<char>::empty());
        assert(decimal(n).last() == digit_char(n));
    }
}

/// A digit's character has the code 48 more than the digit.
proof fn lemma_digit_char_value(d: nat)
    requires
        d < 10,
    ensures
        (digit_char(d) as u32) == d + 48,
{
    let u = (d + 48) as u32;
    assert(u == d + 48);
    assert(((u as char) as u32) == u);
}

/// The number that a sequence of decimal digits spells.
pub open spec fn digits_value(s: Seq<char>) -> nat
    decreases s.len(),
{
    if s.len() == 0 {
        0
    } else {
        digits_value(s.drop_last()) * 10 + (((s.last() as u32) as int) - 48) as nat
    }
}

/// A padded numeral is at least as wide as asked and ends with the numeral.
pub proof fn lemma_padded_decimal_shape(n: nat, width: nat, fill: char)
    ensures
        padded_decimal(n, width, fill).len() >= width,
        padded_decimal(n, width, fill).len() >= decimal(n).len(),
        padded_decimal(n, width, fill).subrange(
            padded_decimal(n, width, fill).len() - decimal(n).len(),
            padded_decimal(n, width, fill).len() as int,
        ) == decimal(n),
{
    let p = padded_decimal(n, width, fill);
    assert(p.subrange(p.len() - decimal(n).len(), p.len() as int) =~= decimal(n));
}

/// Appends one character (`String::push`).
#[verifier::external_body]
pub(crate) fn push_char(s: &mut String, c: char)
    ensures
        final(s)@ == old(s)@.push(c),
{
    s.push(c)
}

/// Removes and returns the last character (`String::pop`).
#[verifier::external_body]
pub(crate) fn pop_char(s: &mut String) -> (r: Option<char>)
    ensures
        old(s)@.len() == 0 ==> r is None && final(s)@ == old(s)@,
        old(s)@.len() > 0 ==> r == Some(old(s)@.last()) && final(s)@ == old(s)@.drop_last(),
{
    s.pop()
}

/// The character for the digit `d`.
fn digit(d: u64) -> (c: char)
    requires
        d < 10,
    ensures
        c == digit_char(d as nat),
{
    let b: u8 = d as u8 + 48;
    b as char
}

/// Appends the decimal numeral of `n`.
pub fn push_decimal(s: &mut String, n: u64)
    ensures
        final(s)@ == old(s)@ + decimal(n as nat),
    decreases n,
{
    if n >= 10 {
        push_decimal(s, n / 10);
        push_char(s, digit(n % 10));
        assert(s@ =~= old(s)@ + decimal(n as nat));
    } else {
        push_char(s, digit(n));
        assert(s@ =~= old(s)@ + decimal(n as nat));
    }
}

/// Appends `count` copies of `c`.
fn push_repeat(s: &mut String, c: char, count: usize)
    ensures
        final(s)@ == old(s)@ + repeat_char(c, count as nat),
{
    let mut i: usize = 0;
    while i < count
        invariant
            i <= count,
            s@ == old(s)@ + repeat_char(c, i as nat),
        decreases count - i,
    {
        push_char(s, c);
        i = i + 1;
        assert(s@ =~= old(s)@ + repeat_char(c, i as nat));
    }
}

/// The number of digits in the numeral of `n`.
fn decimal_len(n: u64) -> (len: usize)
    ensures
        len == decimal(n as nat).len(),
    decreases n,
{
    proof {
        lemma_decimal_len(n as nat);
    }
    if n >= 10 {
        let l = decimal_len(n / 10);
        proof {
            lemma_decimal_bounded((n / 10) as nat);
        }
        l + 1
    } else {
        1
    }
}

/// A numeral of a number below 2^64 has at most 20 digits.
proof fn lemma_decimal_bounded(n: nat)
    requires
        n < 0x1_0000_0000_0000_0000,
    ensures
        decimal(n).len() <= 20,
{
    assert(pow10(20) == 100_000_000_000_000_000_000) by {
        reveal_with_fuel(pow10, 21);
    }
    lemma_digits_below(n, 20);
}

/// Below 10^k a numeral has at most k digits.
proof fn lemma_digits_below(n: nat, k: nat)
    requires
        k >= 1,
        n < pow10(k),
    ensures
        decimal(n).len() <= k,
    decreases n,
{
    if n >= 10 {
        if k == 1 {
            assert(pow10(1) == 10) by {
                reveal_with_fuel(pow10, 2);
            }
        } else {
            assert(pow10(k) == 10 * pow10((k - 1) as nat));
            assert(n / 10 < pow10((k - 1) as nat));
            lemma_digits_below(n / 10, (k - 1) as nat);
        }
    }
}

/// Ten to the power `k`.
pub open spec fn pow10(k: nat) -> nat
    decreases k,
{
    if k == 0 {
        1
    } else {
        10 * pow10((k - 1) as nat)
    }
}

/// Appends the numeral of `n` padded on the left with `fill` to `width`.
pub fn push_padded_decimal(s: &mut String, n: u64, width: usize, fill: char)
    ensures
        final(s)@ == old(s)@ + padded_decimal(n as nat, width as nat, fill),
{
    let len = decimal_len(n);
    if len < width {
        push_repeat(s, fill, width - len);
    }
    push_decimal(s, n);
    assert(s@ =~= old(s)@ + padded_decimal(n as nat, width as nat, fill));
}

} // verus!
