//! The record (JSON object) encoder: key fragments precomputed from a
//! declared field list, and the streaming emission of `{`, fragments,
//! field values and `}`.

use vstd::prelude::*;

use crate::JSONValue;
use crate::append_bytes;

verus! {

/// The literal key bytes for one record field: `"name":`, with a leading
/// comma for every position after the first.
pub open spec fn key_fragment_spec(name: Seq<u8>, first: bool) -> Seq<u8> {
    (if first {
        Seq::<u8>::empty()
    } else {
        seq![44u8]
    }) + seq![34u8] + name + seq![34u8, 58u8]
}

/// Computes the key fragment for a field with the given name: `"name":`,
/// preceded by a comma unless the field is the record's first.
pub fn key_fragment(name: &[u8], first: bool) -> (r: Vec<u8>)
    ensures
        r@ == key_fragment_spec(name@, first),
{
    let mut r: Vec<u8> = Vec::new();
    if !first {
        r.push(44);
    }
    r.push(34);
    append_bytes(&mut r, name);
    r.push(34);
    r.push(58);
    proof {
        assert(r@ =~= key_fragment_spec(name@, first));
    }
    r
}

/// The bytes of the fields from position `i` on: each field's key fragment
/// (comma-led except at position 0) followed by that field's encoded value.
pub open spec fn fields_bytes_from(names: Seq<Seq<u8>>, values: Seq<Seq<u8>>, i: int) -> Seq<u8>
    decreases names.len() - i,
{
    if 0 <= i < names.len() {
        key_fragment_spec(names[i], i == 0) + values[i] + fields_bytes_from(names, values, i + 1)
    } else {
        Seq::<u8>::empty()
    }
}

/// The exact encoding of a record: `{`, every field in declared order as its
/// key fragment followed by its encoded value, and `}`. No whitespace and no
/// trailing comma anywhere.
pub open spec fn object_bytes(names: Seq<Seq<u8>>, values: Seq<Seq<u8>>) -> Seq<u8> {
    seq![123u8] + fields_bytes_from(names, values, 0) + seq![125u8]
}

/// Appends the opening brace of a record.
pub fn object_open(out: &mut Vec<u8>)
    ensures
        final(out)@ == old(out)@ + seq![123u8],
{
    out.push(123);
    assert(out@ =~= old(out)@ + seq![123u8]);
}

/// Appends the closing brace of a record.
pub fn object_close(out: &mut Vec<u8>)
    ensures
        final(out)@ == old(out)@ + seq![125u8],
{
    out.push(125);
    assert(out@ =~= old(out)@ + seq![125u8]);
}

/// Appends one field: the key fragment for `name` (with a leading comma
/// unless `first`), then the encoding of `value`, recursively through the
/// value's own rule.
pub fn write_field<T: JSONValue>(out: &mut Vec<u8>, name: &[u8], first: bool, value: &T)
    ensures
        final(out)@ == old(out)@ + key_fragment_spec(name@, first) + value.json_bytes(),
{
    let fragment = key_fragment(name, first);
    append_bytes(out, fragment.as_slice());
    value.write_json(out);
    assert(out@ =~= old(out)@ + key_fragment_spec(name@, first) + value.json_bytes());
}

/// A record type's generated encoder: one precomputed key fragment per field,
/// in declared order, computed once when the schema is built and never
/// recomputed per call.
pub struct RecordSchema {
    fragments: Vec<Vec<u8>>,
    names: Ghost<Seq<Seq<u8>>>,
}

impl RecordSchema {
    /// The declared field names, in declaration order.
    pub closed spec fn names(&self) -> Seq<Seq<u8>> {
        self.names@
    }

    /// Every stored fragment is exactly the key fragment of its field.
    pub closed spec fn wf(&self) -> bool {
        &&& self.fragments@.len() == self.names@.len()
        &&& forall|i: int|
            0 <= i < self.fragments@.len() ==> #[trigger] self.fragments@[i]@
                == key_fragment_spec(self.names@[i], i == 0)
    }

    /// Builds the encoder for a record with the given field names, in
    /// declared order: the field at position 0 gets the fragment `"name":`,
    /// every later field gets `,"name":`.
    pub fn new(field_names: &Vec<Vec<u8>>) -> (r: RecordSchema)
        ensures
            r.wf(),
            r.names() == field_names@.map_values(|n: Vec<u8>| n@),
    {
        let ghost names: Seq<Seq<u8>> = field_names@.map_values(|n: Vec<u8>| n@);
        let mut fragments: Vec<Vec<u8>> = Vec::new();
        let mut i: usize = 0;
        while i < field_names.len()
            invariant
                i <= field_names@.len(),
                names == field_names@.map_values(|n: Vec<u8>| n@),
                fragments@.len() == i,
                forall|j: int|
                    0 <= j < i ==> #[trigger] fragments@[j]@ == key_fragment_spec(names[j], j == 0),
            decreases field_names@.len() - i,
        {
            let fragment = key_fragment(field_names[i].as_slice(), i == 0);
            fragments.push(fragment);
            i = i + 1;
        }
        RecordSchema { fragments, names: Ghost(names) }
    }

    /// How many fields the record declares.
    pub fn len(&self) -> (n: usize)
        requires
            self.wf(),
        ensures
            n == self.names().len(),
    {
        self.fragments.len()
    }

    /// Emits the record: `{`, then for each field in declared order its
    /// precomputed key fragment followed by the already-encoded value bytes
    /// supplied for it, then `}`.
    pub fn encode_object(&self, values: &Vec<Vec<u8>>, out: &mut Vec<u8>)
        requires
            self.wf(),
            values@.len() == self.names().len(),
        ensures
            final(out)@ == old(out)@ + object_bytes(
                self.names(),
                values@.map_values(|v: Vec<u8>| v@),
            ),
    {
        let ghost names: Seq<Seq<u8>> = self.names();
        let ghost vals: Seq<Seq<u8>> = values@.map_values(|v: Vec<u8>| v@);
        out.push(123);
        assert(out@ =~= old(out)@ + seq![123u8]);
        let mut i: usize = 0;
        while i < self.fragments.len()
            invariant
                self.wf(),
                values@.len() == self.names().len(),
                names == self.names(),
                vals == values@.map_values(|v: Vec<u8>| v@),
                i <= self.fragments@.len(),
                out@ + fields_bytes_from(names, vals, i as int) == old(out)@ + seq![123u8]
                    + fields_bytes_from(names, vals, 0),
            decreases self.fragments@.len() - i,
        {
            let ghost before = out@;
            append_bytes(out, self.fragments[i].as_slice());
            append_bytes(out, values[i].as_slice());
            proof {
                assert(out@ =~= before + key_fragment_spec(names[i as int], i == 0)
                    + vals[i as int]);
                assert(out@ + fields_bytes_from(names, vals, i + 1) =~= before
                    + fields_bytes_from(names, vals, i as int));
            }
            i = i + 1;
        }
        out.push(125);
        proof {
            assert(fields_bytes_from(names, vals, names.len() as int) =~= Seq::<u8>::empty());
            assert(out@ =~= old(out)@ + object_bytes(names, vals));
        }
    }
}

/// The shape of a host type declaration, as the host language's declaration parser
/// reports it: either a plain record with named fields in declared order, or
/// some other shape, which has no encoding.
pub enum TypeShape {
    Record(Vec<Vec<u8>>),
    Unsupported,
}

/// Failure to generate an encoder. It is reported by the generator itself,
/// before any encoder exists, never deferred to encode time.
#[derive(Debug, PartialEq, Eq, Structural)]
pub enum GenError {
    UnsupportedShape,
}

/// Generates the encoder for a declared type: a plain record yields its
/// schema, with one key fragment per field in declared order; every other
/// shape is rejected here, before any encoder is produced.
pub fn build_encoder(shape: &TypeShape) -> (r: Result<RecordSchema, GenError>)
    ensures
        match shape {
            TypeShape::Record(field_names) => r matches Ok(schema) && schema.wf()
                && schema.names() == field_names@.map_values(|n: Vec<u8>| n@),
            TypeShape::Unsupported => r matches Err(e) && e == GenError::UnsupportedShape,
        },
{
    match shape {
        TypeShape::Record(field_names) => Ok(RecordSchema::new(field_names)),
        TypeShape::Unsupported => Err(GenError::UnsupportedShape),
    }
}

/// A record with zero fields still encodes to a well-formed empty object:
/// exactly the two bytes `{}`.
pub proof fn lemma_empty_object()
    ensures
        object_bytes(Seq::<Seq<u8>>::empty(), Seq::<Seq<u8>>::empty()) == seq![123u8, 125u8],
{
    assert(object_bytes(Seq::<Seq<u8>>::empty(), Seq::<Seq<u8>>::empty()) =~= seq![
        123u8,
        125u8,
    ]);
}

/// A record with fields declared in order `[a, b, c]` encodes to exactly
/// `{"a":<enc a>,"b":<enc b>,"c":<enc c>}`: declaration order is kept, the
/// first field alone has no leading comma, and there is no trailing comma
/// and no whitespace.
pub proof fn lemma_three_field_object(
    a: Seq<u8>,
    av: Seq<u8>,
    b: Seq<u8>,
    bv: Seq<u8>,
    c: Seq<u8>,
    cv: Seq<u8>,
)
    ensures
        object_bytes(seq![a, b, c], seq![av, bv, cv]) == seq![123u8] + key_fragment_spec(a, true)
            + av + key_fragment_spec(b, false) + bv + key_fragment_spec(c, false) + cv
            + seq![125u8],
{
    let names = seq![a, b, c];
    let vals = seq![av, bv, cv];
    assert(fields_bytes_from(names, vals, 3) =~= Seq::<u8>::empty());
    assert(fields_bytes_from(names, vals, 2) =~= key_fragment_spec(c, false) + cv);
    assert(fields_bytes_from(names, vals, 1) =~= key_fragment_spec(b, false) + bv
        + key_fragment_spec(c, false) + cv);
    assert(fields_bytes_from(names, vals, 0) =~= key_fragment_spec(a, true) + av
        + key_fragment_spec(b, false) + bv + key_fragment_spec(c, false) + cv);
    assert(object_bytes(names, vals) =~= seq![123u8] + key_fragment_spec(a, true) + av
        + key_fragment_spec(b, false) + bv + key_fragment_spec(c, false) + cv + seq![125u8]);
}

} // verus!
