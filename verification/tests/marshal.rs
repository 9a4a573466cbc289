use blurz::errors::{Error, ErrorKind};
use blurz::keyed_bytes::{expect_labelled_bytes, expect_numbered_bytes, labelled_bytes, numbered_bytes};
use blurz::marshal::{
    expect_bool, expect_bytes, expect_i16, expect_path, expect_text, expect_texts, expect_u16,
    expect_u32,
};
use blurz::value::Value;

fn timeout() -> Error {
    Error::new(ErrorKind::Timeout, "late")
}

fn variant(v: Value) -> Value {
    Value::Variant(Box::new(v))
}

fn entry(k: Value, v: Value) -> Value {
    Value::DictEntry(Box::new(k), Box::new(v))
}

fn array(items: Vec<Value>, signature: &str) -> Value {
    Value::Array(items, signature.to_string())
}

#[test]
fn scalars_narrow_to_their_own_type_only() {
    assert_eq!(expect_bool(Ok(Value::Bool(true))).unwrap(), true);
    assert_eq!(expect_i16(Ok(Value::Int16(-70))).unwrap(), -70);
    assert_eq!(expect_u16(Ok(Value::UInt16(960))).unwrap(), 960);
    assert_eq!(expect_u32(Ok(Value::UInt32(0x1c010c))).unwrap(), 0x1c010c);
    assert_eq!(Value::Byte(7).as_byte(), Some(7));
    assert_eq!(Value::Int32(-5).as_i32(), Some(-5));
    assert_eq!(expect_bool(Ok(Value::Byte(1))).unwrap_err().kind, ErrorKind::TypeMismatch);
    assert_eq!(expect_i16(Ok(Value::UInt16(1))).unwrap_err().kind, ErrorKind::TypeMismatch);
    assert_eq!(expect_u16(Ok(Value::Int16(1))).unwrap_err().kind, ErrorKind::TypeMismatch);
    assert_eq!(expect_u32(Ok(Value::Int32(1))).unwrap_err().kind, ErrorKind::TypeMismatch);
    assert_eq!(Value::UInt32(7).as_byte(), None);
    assert_eq!(Value::UInt32(7).as_i32(), None);
}

#[test]
fn text_narrows_from_string_and_object_path() {
    assert_eq!(expect_text(Ok(Value::text("hci0"))).unwrap(), "hci0");
    assert_eq!(expect_text(Ok(Value::object_path("/org/bluez/hci0"))).unwrap(), "/org/bluez/hci0");
    let e = expect_text(Ok(Value::UInt32(3))).unwrap_err();
    assert_eq!(e.kind, ErrorKind::TypeMismatch);
    assert_eq!(e.message(), "unexpected value type");
}

#[test]
fn object_path_narrows_from_object_path_only() {
    assert_eq!(expect_path(Ok(Value::object_path("/a"))).unwrap(), "/a");
    assert_eq!(expect_path(Ok(Value::text("/a"))).unwrap_err().kind, ErrorKind::TypeMismatch);
}

#[test]
fn a_failure_passes_through_every_narrowing() {
    assert_eq!(expect_bool(Err(timeout())).unwrap_err(), timeout());
    assert_eq!(expect_i16(Err(timeout())).unwrap_err(), timeout());
    assert_eq!(expect_u16(Err(timeout())).unwrap_err(), timeout());
    assert_eq!(expect_u32(Err(timeout())).unwrap_err(), timeout());
    assert_eq!(expect_text(Err(timeout())).unwrap_err(), timeout());
    assert_eq!(expect_path(Err(timeout())).unwrap_err(), timeout());
    assert_eq!(expect_bytes(Err(timeout())).unwrap_err(), timeout());
    assert_eq!(expect_texts(Err(timeout())).unwrap_err(), timeout());
    assert_eq!(expect_numbered_bytes(Err(timeout())).unwrap_err(), timeout());
    assert_eq!(expect_labelled_bytes(Err(timeout())).unwrap_err(), timeout());
}

#[test]
fn bytes_narrow_from_an_array_of_bytes() {
    let v = array(vec![Value::Byte(1), Value::Byte(2), Value::Byte(255)], "y");
    assert_eq!(expect_bytes(Ok(v)).unwrap(), vec![1, 2, 255]);
    assert_eq!(expect_bytes(Ok(array(vec![], "y"))).unwrap(), Vec::<u8>::new());
    let mixed = array(vec![Value::Byte(1), Value::UInt16(2)], "y");
    assert_eq!(expect_bytes(Ok(mixed)).unwrap_err().kind, ErrorKind::TypeMismatch);
    assert_eq!(expect_bytes(Ok(Value::Byte(1))).unwrap_err().kind, ErrorKind::TypeMismatch);
}

#[test]
fn texts_narrow_from_an_array_of_strings() {
    let v = array(vec![Value::text("read"), Value::text("notify")], "s");
    assert_eq!(expect_texts(Ok(v)).unwrap(), vec!["read".to_string(), "notify".to_string()]);
    let mixed = array(vec![Value::text("read"), Value::Bool(true)], "s");
    assert_eq!(expect_texts(Ok(mixed)).unwrap_err().kind, ErrorKind::TypeMismatch);
}

#[test]
fn building_and_narrowing_are_inverse() {
    let bytes = vec![0u8, 17, 200];
    assert_eq!(Value::bytes(&bytes), array(vec![Value::Byte(0), Value::Byte(17), Value::Byte(200)], "y"));
    assert_eq!(Value::bytes(&bytes).as_bytes(), Some(bytes));
    let texts = vec!["a".to_string(), "b".to_string()];
    assert_eq!(Value::texts(&texts), array(vec![Value::text("a"), Value::text("b")], "s"));
    assert_eq!(Value::texts(&texts).as_texts(), Some(texts));
    assert_eq!(Value::bytes(&vec![]), array(vec![], "y"));
}

#[test]
fn named_entries_and_options() {
    assert_eq!(
        Value::named("offset", Value::UInt16(4)),
        entry(Value::text("offset"), variant(Value::UInt16(4)))
    );
    assert_eq!(
        Value::offset_options(Some(4)),
        array(vec![entry(Value::text("offset"), variant(Value::UInt16(4)))], "{sv}")
    );
    assert_eq!(Value::offset_options(None), array(vec![], "{sv}"));
}

#[test]
fn duplicate_copies_the_whole_value() {
    let v = array(
        vec![entry(
            Value::UInt16(76),
            variant(array(vec![Value::Byte(1), Value::Byte(2)], "y")),
        )],
        "{qv}",
    );
    assert_eq!(v.duplicate(), v);
    assert_eq!(Value::object_path("/a").duplicate(), Value::object_path("/a"));
    assert_ne!(Value::object_path("/a").duplicate(), Value::text("/a"));
}

#[test]
fn containers_narrow_to_their_parts() {
    let e = entry(Value::text("k"), Value::UInt32(1));
    let (k, v) = e.as_entry().unwrap();
    assert_eq!(k, &Value::text("k"));
    assert_eq!(v, &Value::UInt32(1));
    assert_eq!(Value::text("k").as_entry(), None);
    assert_eq!(variant(Value::Bool(true)).as_inner(), Some(&Value::Bool(true)));
    assert_eq!(Value::Bool(true).as_inner(), None);
    let a = array(vec![Value::Bool(true)], "b");
    assert_eq!(a.as_items(), Some(&vec![Value::Bool(true)]));
    assert_eq!(Value::Bool(true).as_items(), None);
    assert_eq!(Value::text("x").as_object_path(), None);
    assert_eq!(Value::object_path("/x").as_text(), Some("/x"));
}

#[test]
fn manufacturer_data_reads_numbers_to_bytes() {
    let v = array(
        vec![
            entry(Value::UInt16(76), variant(array(vec![Value::Byte(2), Value::Byte(21)], "y"))),
            entry(Value::UInt16(6), variant(array(vec![], "y"))),
        ],
        "{qv}",
    );
    let map = numbered_bytes(&v).unwrap();
    assert_eq!(map.len(), 2);
    assert_eq!(map[&76], vec![2, 21]);
    assert_eq!(map[&6], Vec::<u8>::new());
}

#[test]
fn manufacturer_data_with_an_element_that_is_no_byte_is_a_type_mismatch() {
    let wide = array(
        vec![entry(Value::UInt16(76), variant(array(vec![Value::UInt16(513)], "q")))],
        "{qv}",
    );
    assert!(numbered_bytes(&wide).is_none());
    let e = expect_numbered_bytes(Ok(wide)).unwrap_err();
    assert_eq!(e.kind, ErrorKind::TypeMismatch);
    let mixed = array(
        vec![
            entry(Value::UInt16(76), variant(array(vec![Value::Byte(2), Value::Byte(21)], "y"))),
            entry(Value::UInt16(6), variant(array(vec![Value::Byte(1), Value::Bool(true)], "y"))),
        ],
        "{qv}",
    );
    assert_eq!(expect_numbered_bytes(Ok(mixed)).unwrap_err().kind, ErrorKind::TypeMismatch);
}

#[test]
fn service_data_with_an_element_that_is_no_byte_is_a_type_mismatch() {
    let wide = array(
        vec![entry(Value::text("180f"), variant(array(vec![Value::UInt16(513)], "q")))],
        "{sv}",
    );
    assert!(labelled_bytes(&wide).is_none());
    assert_eq!(expect_labelled_bytes(Ok(wide)).unwrap_err().kind, ErrorKind::TypeMismatch);
    let mixed = array(
        vec![
            entry(Value::text("180f"), variant(array(vec![Value::Byte(1)], "y"))),
            entry(Value::text("1812"), variant(array(vec![Value::Byte(1), Value::text("x")], "y"))),
        ],
        "{sv}",
    );
    assert_eq!(expect_labelled_bytes(Ok(mixed)).unwrap_err().kind, ErrorKind::TypeMismatch);
}

#[test]
fn manufacturer_data_keeps_the_last_entry_of_a_number() {
    let v = array(
        vec![
            entry(Value::UInt16(76), variant(array(vec![Value::Byte(1)], "y"))),
            entry(Value::UInt16(76), variant(array(vec![Value::Byte(2)], "y"))),
        ],
        "{qv}",
    );
    let map = numbered_bytes(&v).unwrap();
    assert_eq!(map.len(), 1);
    assert_eq!(map[&76], vec![2]);
}

#[test]
fn manufacturer_data_of_another_shape_is_a_type_mismatch() {
    assert!(numbered_bytes(&Value::Bool(true)).is_none());
    let text_key = array(vec![entry(Value::text("76"), variant(array(vec![], "y")))], "{sv}");
    assert!(numbered_bytes(&text_key).is_none());
    let bare = array(vec![entry(Value::UInt16(76), array(vec![], "y"))], "{qv}");
    assert!(numbered_bytes(&bare).is_none());
    let no_array = array(vec![entry(Value::UInt16(76), variant(Value::Byte(1)))], "{qv}");
    assert_eq!(expect_numbered_bytes(Ok(no_array)).unwrap_err().kind, ErrorKind::TypeMismatch);
    assert_eq!(numbered_bytes(&array(vec![], "{qv}")).unwrap().len(), 0);
}

#[test]
fn service_data_reads_names_to_bytes_each_name_once() {
    let v = array(
        vec![
            entry(Value::text("180f"), variant(array(vec![Value::Byte(1)], "y"))),
            entry(Value::text("1812"), variant(array(vec![Value::Byte(2)], "y"))),
            entry(Value::text("180f"), variant(array(vec![Value::Byte(3), Value::Byte(4)], "y"))),
        ],
        "{sv}",
    );
    let list = labelled_bytes(&v).unwrap();
    assert_eq!(
        list,
        vec![("180f".to_string(), vec![3, 4]), ("1812".to_string(), vec![2])]
    );
    assert!(labelled_bytes(&Value::UInt16(1)).is_none());
    let number_key = array(vec![entry(Value::UInt16(1), variant(array(vec![], "y")))], "{qv}");
    assert_eq!(expect_labelled_bytes(Ok(number_key)).unwrap_err().kind, ErrorKind::TypeMismatch);
}
