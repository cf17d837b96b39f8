//! JSON encoding of booleans, the absent value, and optional values.

use vstd::prelude::*;

use crate::JSONValue;
use crate::encoding::false_bytes;
use crate::encoding::null_bytes;
use crate::encoding::true_bytes;

verus! {

/// Appends the four bytes `null` to `out`.
pub fn append_null(out: &mut Vec<u8>)
    ensures
        final(out)@ == old(out)@ + null_bytes(),
{
    out.push(110);
    out.push(117);
    out.push(108);
    out.push(108);
    assert(out@ =~= old(out)@ + null_bytes());
}

/// A JSON value that is always the literal `true`. It carries no data: its
/// encoding is fixed, so a composite can emit it without a runtime branch.
pub struct JSONtrue;

/// A JSON value that is always the literal `false`. It carries no data: its
/// encoding is fixed, so a composite can emit it without a runtime branch.
pub struct JSONfalse;

impl JSONValue for JSONtrue {
    open spec fn json_bytes(&self) -> Seq<u8> {
        true_bytes()
    }

    fn write_json(&self, out: &mut Vec<u8>) {
        out.push(116);
        out.push(114);
        out.push(117);
        out.push(101);
        assert(out@ =~= old(out)@ + true_bytes());
    }
}

impl JSONValue for JSONfalse {
    open spec fn json_bytes(&self) -> Seq<u8> {
        false_bytes()
    }

    fn write_json(&self, out: &mut Vec<u8>) {
        out.push(102);
        out.push(97);
        out.push(108);
        out.push(115);
        out.push(101);
        assert(out@ =~= old(out)@ + false_bytes());
    }
}

impl JSONValue for bool {
    open spec fn json_bytes(&self) -> Seq<u8> {
        if *self {
            true_bytes()
        } else {
            false_bytes()
        }
    }

    fn write_json(&self, out: &mut Vec<u8>) {
        if *self {
            JSONtrue.write_json(out);
        } else {
            JSONfalse.write_json(out);
        }
    }
}

impl JSONValue for () {
    open spec fn json_bytes(&self) -> Seq<u8> {
        null_bytes()
    }

    fn write_json(&self, out: &mut Vec<u8>) {
        append_null(out);
    }
}

impl<T: JSONValue> JSONValue for Option<T> {
    open spec fn json_bytes(&self) -> Seq<u8> {
        match self {
            Some(value) => value.json_bytes(),
            None => null_bytes(),
        }
    }

    fn write_json(&self, out: &mut Vec<u8>) {
        match self {
            Some(value) => value.write_json(out),
            None => append_null(out),
        }
    }
}

/// The fixed literals: `true` and `false` encode to their own names, and the
/// absent (unit) value encodes to `null`.
pub proof fn lemma_literal_encodings(b: bool)
    ensures
        b ==> b.json_bytes() == true_bytes(),
        !b ==> b.json_bytes() == false_bytes(),
        ().json_bytes() == null_bytes(),
        JSONtrue.json_bytes() == true_bytes(),
        JSONfalse.json_bytes() == false_bytes(),
{
}

/// Optional-value flattening: an optional holding `x` encodes exactly as `x`
/// alone does, and an empty optional encodes to `null`.
pub proof fn lemma_option_flattening<T: JSONValue>(x: T)
    ensures
        Some(x).json_bytes() == x.json_bytes(),
        (None::<T>).json_bytes() == null_bytes(),
{
}

} // verus!
