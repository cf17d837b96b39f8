//! JSON encoding of integers and of floating-point values.
//!
//! Integers are emitted as plain decimal text. A floating-point value is held
//! here by its bit pattern, so that the finiteness rule is stated and checked
//! over plain integers: a finite value is emitted as its shortest
//! round-tripping decimal text, and NaN or an infinity is emitted as `null`.

use vstd::prelude::*;

use crate::JSONValue;
use crate::append_bytes;
use crate::encoding::dec_digits;
use crate::encoding::int_dec;
use crate::encoding::null_bytes;
use crate::values::append_null;

verus! {

/// Relies on itoa::write: it prints the decimal digits of the integer into
/// the writer, exactly as std's formatter does.
#[verifier::external_body]
fn append_dec_u64(out: &mut Vec<u8>, n: u64)
    ensures
        final(out)@ == old(out)@ + dec_digits(n as nat),
{
    let _ = itoa::write(out, n);
}

/// Relies on itoa::write: it prints the decimal digits of the integer into the
/// writer, with a leading `-` for a negative value, as std's formatter does.
#[verifier::external_body]
fn append_dec_i64(out: &mut Vec<u8>, n: i64)
    ensures
        final(out)@ == old(out)@ + int_dec(n as int),
{
    let _ = itoa::write(out, n);
}

/// Relies on itoa::write: it prints the decimal digits of the integer into
/// the writer, exactly as std's formatter does.
#[verifier::external_body]
fn append_dec_u128(out: &mut Vec<u8>, n: u128)
    ensures
        final(out)@ == old(out)@ + dec_digits(n as nat),
{
    let _ = itoa::write(out, n);
}

/// Relies on itoa::write: it prints the decimal digits of the integer into the
/// writer, with a leading `-` for a negative value, as std's formatter does.
#[verifier::external_body]
fn append_dec_i128(out: &mut Vec<u8>, n: i128)
    ensures
        final(out)@ == old(out)@ + int_dec(n as int),
{
    let _ = itoa::write(out, n);
}

impl JSONValue for u8 {
    open spec fn json_bytes(&self) -> Seq<u8> {
        dec_digits(*self as nat)
    }

    fn write_json(&self, out: &mut Vec<u8>) {
        append_dec_u64(out, *self as u64);
    }
}

impl JSONValue for u16 {
    open spec fn json_bytes(&self) -> Seq<u8> {
        dec_digits(*self as nat)
    }

    fn write_json(&self, out: &mut Vec<u8>) {
        append_dec_u64(out, *self as u64);
    }
}

impl JSONValue for u32 {
    open spec fn json_bytes(&self) -> Seq<u8> {
        dec_digits(*self as nat)
    }

    fn write_json(&self, out: &mut Vec<u8>) {
        append_dec_u64(out, *self as u64);
    }
}

impl JSONValue for u64 {
    open spec fn json_bytes(&self) -> Seq<u8> {
        dec_digits(*self as nat)
    }

    fn write_json(&self, out: &mut Vec<u8>) {
        append_dec_u64(out, *self);
    }
}

impl JSONValue for usize {
    open spec fn json_bytes(&self) -> Seq<u8> {
        dec_digits(*self as nat)
    }

    fn write_json(&self, out: &mut Vec<u8>) {
        append_dec_u64(out, *self as u64);
    }
}

impl JSONValue for u128 {
    open spec fn json_bytes(&self) -> Seq<u8> {
        dec_digits(*self as nat)
    }

    fn write_json(&self, out: &mut Vec<u8>) {
        append_dec_u128(out, *self);
    }
}

impl JSONValue for i8 {
    open spec fn json_bytes(&self) -> Seq<u8> {
        int_dec(*self as int)
    }

    fn write_json(&self, out: &mut Vec<u8>) {
        append_dec_i64(out, *self as i64);
    }
}

impl JSONValue for i16 {
    open spec fn json_bytes(&self) -> Seq<u8> {
        int_dec(*self as int)
    }

    fn write_json(&self, out: &mut Vec<u8>) {
        append_dec_i64(out, *self as i64);
    }
}

impl JSONValue for i32 {
    open spec fn json_bytes(&self) -> Seq<u8> {
        int_dec(*self as int)
    }

    fn write_json(&self, out: &mut Vec<u8>) {
        append_dec_i64(out, *self as i64);
    }
}

impl JSONValue for i64 {
    open spec fn json_bytes(&self) -> Seq<u8> {
        int_dec(*self as int)
    }

    fn write_json(&self, out: &mut Vec<u8>) {
        append_dec_i64(out, *self);
    }
}

impl JSONValue for isize {
    open spec fn json_bytes(&self) -> Seq<u8> {
        int_dec(*self as int)
    }

    fn write_json(&self, out: &mut Vec<u8>) {
        append_dec_i64(out, *self as i64);
    }
}

impl JSONValue for i128 {
    open spec fn json_bytes(&self) -> Seq<u8> {
        int_dec(*self as int)
    }

    fn write_json(&self, out: &mut Vec<u8>) {
        append_dec_i128(out, *self);
    }
}

/// Whether a 64-bit float bit pattern denotes a finite value: finite means
/// the eleven exponent bits are not all ones (all ones is NaN or an infinity).
pub open spec fn f64_bits_finite(bits: u64) -> bool {
    (bits >> 52) & 0x7ff != 0x7ff
}

/// Whether a 32-bit float bit pattern denotes a finite value: finite means
/// the eight exponent bits are not all ones (all ones is NaN or an infinity).
pub open spec fn f32_bits_finite(bits: u32) -> bool {
    (bits >> 23) & 0xff != 0xff
}

/// Decides finiteness of a 64-bit float from its bit pattern alone.
pub fn f64_bits_is_finite(bits: u64) -> (r: bool)
    ensures
        r == f64_bits_finite(bits),
{
    (bits >> 52) & 0x7ff != 0x7ff
}

/// Decides finiteness of a 32-bit float from its bit pattern alone.
pub fn f32_bits_is_finite(bits: u32) -> (r: bool)
    ensures
        r == f32_bits_finite(bits),
{
    (bits >> 23) & 0xff != 0xff
}

/// A 64-bit IEEE floating-point value, held as plain values: its bit pattern,
/// and the shortest round-tripping decimal text of the value, which the
/// converter that built this value computed for the finite case. The encoder
/// reads the text only when the bit pattern is finite: a non-finite value
/// encodes to `null` whatever text came with it.
pub struct F64 {
    pub bits: u64,
    pub text: Vec<u8>,
}

/// A 32-bit IEEE floating-point value, held as plain values: its bit pattern,
/// and the shortest round-tripping decimal text of the value, which the
/// converter that built this value computed for the finite case. The encoder
/// reads the text only when the bit pattern is finite: a non-finite value
/// encodes to `null` whatever text came with it.
pub struct F32 {
    pub bits: u32,
    pub text: Vec<u8>,
}

impl F64 {
    pub fn new(bits: u64, text: Vec<u8>) -> (r: F64)
        ensures
            r.bits == bits,
            r.text == text,
    {
        F64 { bits, text }
    }
}

impl F32 {
    pub fn new(bits: u32, text: Vec<u8>) -> (r: F32)
        ensures
            r.bits == bits,
            r.text == text,
    {
        F32 { bits, text }
    }
}

impl JSONValue for F64 {
    open spec fn json_bytes(&self) -> Seq<u8> {
        if f64_bits_finite(self.bits) {
            self.text@
        } else {
            null_bytes()
        }
    }

    fn write_json(&self, out: &mut Vec<u8>) {
        if f64_bits_is_finite(self.bits) {
            append_bytes(out, self.text.as_slice());
        } else {
            append_null(out);
        }
    }
}

impl JSONValue for F32 {
    open spec fn json_bytes(&self) -> Seq<u8> {
        if f32_bits_finite(self.bits) {
            self.text@
        } else {
            null_bytes()
        }
    }

    fn write_json(&self, out: &mut Vec<u8>) {
        if f32_bits_is_finite(self.bits) {
            append_bytes(out, self.text.as_slice());
        } else {
            append_null(out);
        }
    }
}

/// The non-finite sentinel rule: every bit pattern whose exponent field is
/// all ones — every NaN and both infinities — encodes to exactly the four
/// bytes `null`, never to a platform non-finite literal, whatever decimal
/// text the value was built with.
pub proof fn lemma_non_finite_encodes_null(bits64: u64, text64: Vec<u8>, bits32: u32, text32: Vec<u8>)
    ensures
        !f64_bits_finite(bits64) ==> (F64 { bits: bits64, text: text64 }).json_bytes()
            == null_bytes(),
        !f32_bits_finite(bits32) ==> (F32 { bits: bits32, text: text32 }).json_bytes()
            == null_bytes(),
        null_bytes().len() == 4,
{
}

} // verus!
