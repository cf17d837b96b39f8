use json_in_type::objects::build_encoder;
use json_in_type::objects::key_fragment;
use json_in_type::objects::object_close;
use json_in_type::objects::object_open;
use json_in_type::objects::write_field;
use json_in_type::objects::GenError;
use json_in_type::objects::RecordSchema;
use json_in_type::objects::TypeShape;
use json_in_type::to_json_vec;

#[test]
fn it_works() {
    assert_eq!(2 + 2, 4);
}

#[test]
fn key_fragments() {
    assert_eq!(b"\"x\":".to_vec(), key_fragment(b"x", true));
    assert_eq!(b",\"y\":".to_vec(), key_fragment(b"y", false));
    assert_eq!(b"\"long_name\":".to_vec(), key_fragment(b"long_name", true));
}

#[test]
fn empty_record_encodes_to_empty_object() {
    let schema = RecordSchema::new(&Vec::new());
    let mut out = Vec::new();
    schema.encode_object(&Vec::new(), &mut out);
    assert_eq!(b"{}".to_vec(), out);
}

#[test]
fn two_field_record() {
    let names = vec![b"x".to_vec(), b"y".to_vec()];
    let schema = RecordSchema::new(&names);
    let values = vec![to_json_vec(&1u32), to_json_vec(&true)];
    let mut out = Vec::new();
    schema.encode_object(&values, &mut out);
    assert_eq!("{\"x\":1,\"y\":true}", String::from_utf8(out).unwrap());
}

#[test]
fn three_field_record_keeps_declaration_order() {
    let names = vec![b"a".to_vec(), b"b".to_vec(), b"c".to_vec()];
    let schema = RecordSchema::new(&names);
    let values = vec![to_json_vec(&1u8), to_json_vec(&2u8), to_json_vec(&3u8)];
    let mut out = Vec::new();
    schema.encode_object(&values, &mut out);
    assert_eq!("{\"a\":1,\"b\":2,\"c\":3}", String::from_utf8(out).unwrap());
}

#[test]
fn streaming_field_writer_matches_schema_encoder() {
    let mut streamed = Vec::new();
    object_open(&mut streamed);
    write_field(&mut streamed, b"x", true, &1u32);
    write_field(&mut streamed, b"y", false, &true);
    object_close(&mut streamed);
    assert_eq!("{\"x\":1,\"y\":true}", String::from_utf8(streamed).unwrap());
}

#[test]
fn nested_record() {
    let inner_names = vec![b"x".to_vec(), b"y".to_vec()];
    let inner_schema = RecordSchema::new(&inner_names);
    let inner_values = vec![to_json_vec(&1u32), to_json_vec(&true)];
    let mut inner = Vec::new();
    inner_schema.encode_object(&inner_values, &mut inner);

    let outer_names = vec![b"point".to_vec(), b"ok".to_vec()];
    let outer_schema = RecordSchema::new(&outer_names);
    let outer_values = vec![inner, to_json_vec(&false)];
    let mut out = Vec::new();
    outer_schema.encode_object(&outer_values, &mut out);
    assert_eq!(
        "{\"point\":{\"x\":1,\"y\":true},\"ok\":false}",
        String::from_utf8(out).unwrap()
    );
}

#[test]
fn record_shape_yields_an_encoder() {
    let shape = TypeShape::Record(vec![b"a".to_vec(), b"b".to_vec()]);
    let schema = match build_encoder(&shape) {
        Ok(schema) => schema,
        Err(_) => panic!("a plain record must yield an encoder"),
    };
    let values = vec![to_json_vec(&false), to_json_vec(&9u8)];
    let mut out = Vec::new();
    schema.encode_object(&values, &mut out);
    assert_eq!("{\"a\":false,\"b\":9}", String::from_utf8(out).unwrap());
}

#[test]
fn unsupported_shape_is_rejected_at_generation_time() {
    match build_encoder(&TypeShape::Unsupported) {
        Ok(_) => panic!("a non-record shape must be rejected"),
        Err(e) => assert_eq!(GenError::UnsupportedShape, e),
    }
}
