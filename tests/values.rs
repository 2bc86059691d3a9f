use firestore_query::store_field::{copy_fields, copy_value, from_values, to_values, Value};
use firestore_query::{Field, TaggedValue, Timestamp};

fn field(key: &str, value: TaggedValue) -> Field {
    Field { key: key.to_string(), value }
}

#[test]
fn get_string_returns_stored_string() {
    let fields = vec![field("name", Value::string("Alice")), field("age", Value::integer(30))];
    assert_eq!(from_values(fields).get_string("name"), "Alice");
}

#[test]
fn get_string_missing_key_is_empty() {
    let fields = vec![field("name", Value::string("Alice"))];
    assert_eq!(from_values(fields).get_string("email"), "");
}

#[test]
fn get_string_non_string_value_is_empty() {
    let fields = vec![field("age", Value::integer(30)), field("ok", Value::boolean(true))];
    assert_eq!(from_values(copy_fields(&fields)).get_string("age"), "");
    assert_eq!(from_values(fields).get_string("ok"), "");
}

#[test]
fn get_string_on_empty_mapping_is_empty() {
    assert_eq!(from_values(Vec::new()).get_string(""), "");
}

#[test]
fn scalar_constructors_keep_their_payload() {
    assert!(matches!(Value::null(), TaggedValue::Null));
    assert!(matches!(Value::boolean(true), TaggedValue::Boolean(true)));
    assert!(matches!(Value::boolean(false), TaggedValue::Boolean(false)));
    assert!(matches!(Value::integer(-42), TaggedValue::Integer(-42)));
    assert!(matches!(Value::integer(i64::MAX), TaggedValue::Integer(i64::MAX)));
    let bits = 2.5f64.to_bits();
    match Value::double(bits) {
        TaggedValue::Double(b) => assert_eq!(f64::from_bits(b), 2.5),
        other => panic!("unexpected {:?}", other),
    }
    let ts = Timestamp { seconds: 1_600_000_000, nanos: 123_456_789 };
    match Value::timestamp(ts) {
        TaggedValue::Timestamp(t) => assert_eq!(t, ts),
        other => panic!("unexpected {:?}", other),
    }
    match Value::string("héllo") {
        TaggedValue::String(s) => assert_eq!(s, "héllo"),
        other => panic!("unexpected {:?}", other),
    }
    match Value::reference("projects/p/databases/(default)/documents/c/d".to_string()) {
        TaggedValue::Reference(s) => assert_eq!(s, "projects/p/databases/(default)/documents/c/d"),
        other => panic!("unexpected {:?}", other),
    }
}

#[test]
fn composite_constructors_keep_their_payload() {
    match Value::array(vec![Value::integer(1), Value::string("two")]) {
        TaggedValue::Array(items) => {
            assert_eq!(items.len(), 2);
            assert!(matches!(items[0], TaggedValue::Integer(1)));
            assert!(matches!(&items[1], TaggedValue::String(s) if s == "two"));
        }
        other => panic!("unexpected {:?}", other),
    }
    match Value::map(vec![field("k", Value::boolean(true))]) {
        TaggedValue::Mapping(entries) => {
            assert_eq!(entries.len(), 1);
            assert_eq!(entries[0].key, "k");
            assert!(matches!(entries[0].value, TaggedValue::Boolean(true)));
        }
        other => panic!("unexpected {:?}", other),
    }
}

#[test]
fn to_values_add_overwrites_same_key() {
    let fields = to_values()
        .add("a", Value::integer(1))
        .add("b", Value::string("x"))
        .add("a", Value::string("y"))
        .get_fields();
    assert_eq!(fields.len(), 2);
    assert_eq!(from_values(fields).get_string("a"), "y");
}

#[test]
fn to_values_starts_empty() {
    assert!(to_values().get_fields().is_empty());
}

#[test]
fn copy_value_is_deep() {
    let original = Value::array(vec![
        Value::map(vec![field("inner", Value::string("v"))]),
        Value::null(),
    ]);
    let copy = copy_value(&original);
    assert_eq!(format!("{:?}", copy), format!("{:?}", original));
}
