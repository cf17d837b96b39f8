//! A streaming JSON encoder: typed values are written directly into a byte
//! buffer as compact JSON, with no intermediate tree and no whitespace.
//!
//! Every type that can be encoded implements [`JSONValue`]: its one operation
//! appends the value's JSON text to an append-only byte buffer, and its
//! contract pins those bytes down exactly, through the spec function
//! [`JSONValue::json_bytes`]. Records are encoded by [`objects::RecordSchema`],
//! which precomputes one key fragment per field from the declared field order.

use vstd::prelude::*;

pub mod encoding;
pub mod numbers;
pub mod objects;
pub mod values;

pub use values::JSONtrue;
pub use values::JSONfalse;
pub use numbers::F32;
pub use numbers::F64;

verus! {

/// A value with a defined JSON emission rule.
pub trait JSONValue {
    /// The exact bytes that this value encodes to.
    spec fn json_bytes(&self) -> Seq<u8>;

    /// Appends the JSON encoding of `self` to `out` in one forward pass.
    fn write_json(&self, out: &mut Vec<u8>)
        ensures
            final(out)@ == old(out)@ + self.json_bytes(),
    ;
}

/// Encodes one value into a fresh buffer.
pub fn to_json_vec<T: JSONValue>(value: &T) -> (r: Vec<u8>)
    ensures
        r@ == value.json_bytes(),
{
    let mut out: Vec<u8> = Vec::new();
    value.write_json(&mut out);
    proof {
        assert(out@ =~= value.json_bytes());
    }
    out
}

/// Relies on String::from_utf8: bytes that are all ASCII are valid UTF-8 and
/// come back unchanged, as the string of exactly those characters.
#[verifier::external_body]
fn ascii_bytes_to_string(bytes: Vec<u8>) -> (r: String)
    requires
        forall|i: int| 0 <= i < bytes@.len() ==> bytes@[i] < 128,
    ensures
        r@ == bytes@.map_values(|b: u8| b as char),
{
    String::from_utf8(bytes).unwrap()
}

/// Encodes one value and returns its text, so long as the encoding is ASCII,
/// as every encoding this crate itself computes is; a value carrying
/// non-ASCII supplied bytes comes back as `None`.
pub fn to_json_string<T: JSONValue>(value: &T) -> (r: Option<String>)
    ensures
        match r {
            Some(s) => {
                &&& forall|i: int|
                    0 <= i < value.json_bytes().len() ==> #[trigger] value.json_bytes()[i] < 128
                &&& s@ == value.json_bytes().map_values(|b: u8| b as char)
            },
            None => exists|i: int|
                0 <= i < value.json_bytes().len() && #[trigger] value.json_bytes()[i] >= 128,
        },
{
    let bytes = to_json_vec(value);
    let mut i: usize = 0;
    while i < bytes.len()
        invariant
            bytes@ == value.json_bytes(),
            i <= bytes@.len(),
            forall|j: int| 0 <= j < i ==> #[trigger] bytes@[j] < 128,
        decreases bytes@.len() - i,
    {
        if bytes[i] >= 128 {
            return None;
        }
        i = i + 1;
    }
    Some(ascii_bytes_to_string(bytes))
}

/// Appends every byte of `bytes` to `out`, in order.
pub fn append_bytes(out: &mut Vec<u8>, bytes: &[u8])
    ensures
        final(out)@ == old(out)@ + bytes@,
{
    let mut i: usize = 0;
    while i < bytes.len()
        invariant
            i <= bytes@.len(),
            out@ == old(out)@ + bytes@.subrange(0, i as int),
        decreases bytes@.len() - i,
    {
        out.push(bytes[i]);
        assert(out@ =~= old(out)@ + bytes@.subrange(0, i + 1));
        i = i + 1;
    }
    assert(out@ =~= old(out)@ + bytes@);
}

} // verus!
