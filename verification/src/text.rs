//! Byte-level text emission: UTF-8 text pieces and decimal numerals.

use vstd::prelude::*;
use vstd::utf8::encode_utf8;

verus! {

/// The bytes that a piece of text contributes to the output: its UTF-8 encoding.
#[verifier::opaque]
pub open spec fn text(s: Seq<char>) -> Seq<u8> {
    encode_utf8(s)
}

/// The ASCII byte of the decimal digit `d` (`d < 10`).
pub open spec fn digit_byte(d: nat) -> u8 {
    (48 + d) as u8
}

/// The decimal numeral of `n`: the shortest digit sequence, no sign, no leading zero.
pub open spec fn decimal(n: nat) -> Seq<u8>
    decreases n,
{
    if n < 10 {
        seq![digit_byte(n)]
    } else {
        decimal(n / 10).push(digit_byte(n % 10))
    }
}

/// The decimal numeral of a signed integer: a `-` before the numeral of `|v|` when `v < 0`.
pub open spec fn signed_decimal(v: int) -> Seq<u8> {
    if v < 0 {
        seq![45u8] + decimal((-v) as nat)
    } else {
        decimal(v as nat)
    }
}

/// The number that a sequence of ASCII decimal digits denotes.
pub open spec fn digits_value(s: Seq<u8>) -> int
    decreases s.len(),
{
    if s.len() == 0 {
        0
    } else {
        digits_value(s.drop_last()) * 10 + (s.last() - 48)
    }
}

/// Whether every byte of `s` is an ASCII decimal digit.
pub open spec fn all_digits(s: Seq<u8>) -> bool {
    forall|i: int| 0 <= i < s.len() ==> 48 <= #[trigger] s[i] <= 57
}

/// Appends the bytes of `b` to `w`.
pub fn push_bytes(w: &mut Vec<u8>, b: &[u8])
    ensures
        final(w)@ == old(w)@ + b@,
{
    let n = b.len();
    let mut i: usize = 0;
    while i < n
        invariant
            n == b@.len(),
            i <= n,
            w@ == old(w)@ + b@.subrange(0, i as int),
        decreases n - i,
    {
        w.push(b[i]);
        i = i + 1;
        assert(b@.subrange(0, i as int) == b@.subrange(0, i - 1).push(b@[i - 1]));
    }
    assert(b@.subrange(0, n as int) == b@);
}

/// Appends the UTF-8 encoding of `s` to `w`.
pub fn push_str(w: &mut Vec<u8>, s: &str)
    ensures
        final(w)@ == old(w)@ + text(s@),
{
    reveal(text);
    push_bytes(w, s.as_bytes());
}

/// Appends the decimal numeral of `n` to `w`.
pub fn push_decimal(w: &mut Vec<u8>, n: u64)
    ensures
        final(w)@ == old(w)@ + decimal(n as nat),
    decreases n,
{
    if n >= 10 {
        push_decimal(w, n / 10);
    }
    let d: u8 = (n % 10) as u8;
    w.push(48 + d);
    proof {
        if n >= 10 {
            assert(decimal(n as nat) == decimal((n / 10) as nat).push(digit_byte((n % 10) as nat)));
        }
    }
}

/// Appends the decimal numeral of the signed integer `v` to `w`.
pub fn push_signed_decimal(w: &mut Vec<u8>, v: i32)
    ensures
        final(w)@ == old(w)@ + signed_decimal(v as int),
{
    if v < 0 {
        w.push(45u8);
        let m: i64 = v as i64;
        let a: u64 = (-m) as u64;
        push_decimal(w, a);
        assert(w@ == old(w)@ + (seq![45u8] + decimal((-v) as nat)));
    } else {
        push_decimal(w, v as u64);
    }
}

/// Law: a decimal numeral is made of digits only, starts with a zero only when it is
/// the numeral of zero, and reads back as the number it was made from.
pub proof fn lemma_decimal_reads_back(n: nat)
    ensures
        all_digits(decimal(n)),
        decimal(n).len() >= 1,
        n > 0 ==> decimal(n)[0] != 48u8,
        n == 0 ==> decimal(n) == seq![48u8],
        digits_value(decimal(n)) == n,
    decreases n,
{
    if n >= 10 {
        lemma_decimal_reads_back(n / 10);
        let d = decimal(n);
        assert(d.drop_last() == decimal(n / 10));
        assert(d[0] == decimal(n / 10)[0]);
        assert(d.last() == digit_byte(n % 10));
        assert(digit_byte(n % 10) == 48 + n % 10);
        assert(digits_value(d) == digits_value(decimal(n / 10)) * 10 + (d.last() - 48));
        assert((n / 10) * 10 + n % 10 == n);
    } else {
        let d = decimal(n);
        assert(d.drop_last().len() == 0);
        assert(digit_byte(n) == 48 + n);
        assert(digits_value(d) == digits_value(d.drop_last()) * 10 + (d.last() - 48));
    }
}

/// Law: two different numbers never get the same decimal numeral.
pub proof fn lemma_decimal_injective(m: nat, n: nat)
    requires
        decimal(m) == decimal(n),
    ensures
        m == n,
{
    lemma_decimal_reads_back(m);
    lemma_decimal_reads_back(n);
}

} // verus!
