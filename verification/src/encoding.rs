//! The byte-level meaning of every JSON token this crate emits: the fixed
//! literals `null`, `true` and `false`, and decimal integer text.

use vstd::prelude::*;

verus! {

/// The four bytes of the JSON literal `null`.
pub open spec fn null_bytes() -> Seq<u8> {
    seq![110u8, 117u8, 108u8, 108u8]
}

/// The four bytes of the JSON literal `true`.
pub open spec fn true_bytes() -> Seq<u8> {
    seq![116u8, 114u8, 117u8, 101u8]
}

/// The five bytes of the JSON literal `false`.
pub open spec fn false_bytes() -> Seq<u8> {
    seq![102u8, 97u8, 108u8, 115u8, 101u8]
}

/// The decimal digits of a non-negative integer, most significant first,
/// with no leading zero except for the single digit `0` itself.
pub open spec fn dec_digits(n: nat) -> Seq<u8>
    decreases n,
{
    if n < 10 {
        seq![(48 + n) as u8]
    } else {
        dec_digits(n / 10) + seq![(48 + n % 10) as u8]
    }
}

/// The decimal text of an integer: the digits of its magnitude, preceded by
/// `-` exactly when the value is negative. No `+`, no exponent, no fraction.
pub open spec fn int_dec(n: int) -> Seq<u8> {
    if n < 0 {
        seq![45u8] + dec_digits((-n) as nat)
    } else {
        dec_digits(n as nat)
    }
}

/// Reads a run of decimal digit bytes back as the number they denote.
pub open spec fn parse_udec(s: Seq<u8>) -> int
    decreases s.len(),
{
    if s.len() == 0 {
        0
    } else {
        parse_udec(s.drop_last()) * 10 + (s.last() - 48)
    }
}

/// Reads decimal integer text back as a value: an optional leading `-`
/// followed by digits.
pub open spec fn parse_dec(s: Seq<u8>) -> int {
    if s.len() > 0 && s[0] == 45 {
        -parse_udec(s.subrange(1, s.len() as int))
    } else {
        parse_udec(s)
    }
}

pub proof fn lemma_dec_digits_are_digits(n: nat)
    ensures
        dec_digits(n).len() >= 1,
        forall|i: int| 0 <= i < dec_digits(n).len() ==> 48 <= #[trigger] dec_digits(n)[i] <= 57,
    decreases n,
{
    if n >= 10 {
        lemma_dec_digits_are_digits(n / 10);
    }
}

pub proof fn lemma_dec_digits_no_leading_zero(n: nat)
    ensures
        n > 0 ==> dec_digits(n)[0] != 48,
        n == 0 ==> dec_digits(n) == seq![48u8],
    decreases n,
{
    if n >= 10 {
        lemma_dec_digits_no_leading_zero(n / 10);
        assert(dec_digits(n)[0] == dec_digits(n / 10)[0]);
    }
}

proof fn lemma_parse_udec_inverts(n: nat)
    ensures
        parse_udec(dec_digits(n)) == n,
    decreases n,
{
    if n < 10 {
        let s = dec_digits(n);
        assert(s.len() == 1);
        assert(s.last() == (48 + n) as u8);
        assert(s.drop_last() =~= Seq::<u8>::empty());
        assert(parse_udec(s.drop_last()) == 0);
        assert(parse_udec(s) == 0 * 10 + ((48 + n) - 48));
    } else {
        lemma_parse_udec_inverts(n / 10);
        let s = dec_digits(n);
        let head = dec_digits(n / 10);
        assert(s.drop_last() =~= head);
        assert(s.last() == (48 + n % 10) as u8);
        assert(parse_udec(s) == (n / 10) * 10 + (n % 10));
    }
}

/// Decimal integer text decodes back, by the inverse parse, to exactly the
/// value it encodes; the text holds no `+` sign; and its digit run starts
/// with `0` only for the value zero itself.
pub proof fn lemma_int_dec_round_trip(n: int)
    ensures
        parse_dec(int_dec(n)) == n,
        forall|i: int| 0 <= i < int_dec(n).len() ==> #[trigger] int_dec(n)[i] != 43,
        n > 0 ==> int_dec(n)[0] != 48,
        n == 0 ==> int_dec(n) == seq![48u8],
        n < 0 ==> int_dec(n)[0] == 45 && int_dec(n).len() >= 2 && int_dec(n)[1] != 48,
{
    if n < 0 {
        let m = (-n) as nat;
        lemma_dec_digits_are_digits(m);
        lemma_dec_digits_no_leading_zero(m);
        lemma_parse_udec_inverts(m);
        let s = int_dec(n);
        assert(s.subrange(1, s.len() as int) =~= dec_digits(m));
        assert(s[1] == dec_digits(m)[0]);
    } else {
        let m = n as nat;
        lemma_dec_digits_are_digits(m);
        lemma_dec_digits_no_leading_zero(m);
        lemma_parse_udec_inverts(m);
        assert(int_dec(n)[0] != 45);
    }
}

} // verus!
