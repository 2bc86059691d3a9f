use firestore_query::store_field::Value;
use firestore_query::{db, CursorError, SortDirection, Document, Field, FilterOperator, TaggedValue};

fn doc(name: &str, fields: Vec<(&str, TaggedValue)>) -> Document {
    Document {
        name: name.to_string(),
        fields: fields
            .into_iter()
            .map(|(k, v)| Field { key: k.to_string(), value: v })
            .collect(),
        create_time: None,
        update_time: None,
    }
}

const NAME: &str = "projects/p/databases/(default)/documents/cities/sf";

fn city() -> Document {
    doc(NAME, vec![("population", Value::integer(870_000)), ("state", Value::string("CA"))])
}

#[test]
fn db_starts_empty() {
    let s = db();
    assert!(s.token.is_none());
    assert!(s.project_id.is_empty());
    assert!(s.filters.is_empty());
    assert!(s.order_by.is_empty());
    assert!(s.start_at.is_none() && s.end_at.is_none() && s.limit.is_none());
}

#[test]
fn chained_configuration_sets_fields() {
    let mut s = db();
    s.init("proj", Some("Bearer abc"))
        .collection("cities")
        .document("sf")
        .where_field("state", FilterOperator::Equal, Value::string("CA"))
        .order_by("population", SortDirection::Descending)
        .limit(5)
        .limit(3);
    assert_eq!(s.project_id, "proj");
    assert_eq!(s.token.as_deref(), Some("Bearer abc"));
    assert_eq!(s.collection, "cities");
    assert_eq!(s.document, "sf");
    assert_eq!(s.filters.len(), 1);
    assert_eq!(s.filters[0].field_path, "state");
    assert_eq!(s.filters[0].op, FilterOperator::Equal);
    assert_eq!(s.order_by.len(), 1);
    assert_eq!(s.order_by[0].direction, SortDirection::Descending);
    assert_eq!(s.limit, Some(3));
}

#[test]
fn init_without_token() {
    let mut s = db();
    s.init("proj", Some("t"));
    s.init("proj2", None);
    assert!(s.token.is_none());
    assert_eq!(s.project_id, "proj2");
}

#[test]
fn cursor_has_one_value_per_clause_plus_name() {
    let mut s = db();
    s.order_by("population", SortDirection::Ascending).order_by("state", SortDirection::Descending);
    assert!(s.start_at(city()).is_ok());
    let c = s.start_at.as_ref().unwrap();
    assert_eq!(c.values.len(), 3);
    assert!(matches!(c.values[0], TaggedValue::Integer(870_000)));
    assert!(matches!(&c.values[1], TaggedValue::String(v) if v == "CA"));
    assert!(matches!(&c.values[2], TaggedValue::Reference(v) if v == NAME));
    assert_eq!(s.order_by.len(), 3);
    assert_eq!(s.order_by[2].field_path, "__name__");
    assert_eq!(s.order_by[2].direction, SortDirection::Ascending);
}

#[test]
fn cursor_without_order_holds_only_name() {
    let mut s = db();
    assert!(s.end_at(city()).is_ok());
    let c = s.end_at.as_ref().unwrap();
    assert_eq!(c.values.len(), 1);
    assert!(matches!(&c.values[0], TaggedValue::Reference(v) if v == NAME));
    assert_eq!(s.order_by.len(), 1);
    assert!(s.start_at.is_none());
}

#[test]
fn cursor_boundary_flags() {
    let mut s = db();
    s.start_at(city()).unwrap();
    assert!(s.start_at.as_ref().unwrap().before);
    s.start_after(city()).unwrap();
    assert!(!s.start_at.as_ref().unwrap().before);
    s.end_before(city()).unwrap();
    assert!(s.end_at.as_ref().unwrap().before);
    s.end_at(city()).unwrap();
    assert!(!s.end_at.as_ref().unwrap().before);
}

#[test]
fn second_cursor_adds_no_second_tie_break() {
    let mut s = db();
    s.order_by("population", SortDirection::Ascending);
    s.start_after(city()).unwrap();
    s.end_before(city()).unwrap();
    assert_eq!(s.order_by.len(), 2);
    let names = s.order_by.iter().filter(|o| o.field_path == "__name__").count();
    assert_eq!(names, 1);
    assert_eq!(s.end_at.as_ref().unwrap().values.len(), 2);
    assert_eq!(s.start_at.as_ref().unwrap().values.len(), 2);
}

#[test]
fn cursor_missing_field_is_an_error() {
    let mut s = db();
    s.order_by("area", SortDirection::Ascending);
    match s.start_at(city()) {
        Err(CursorError::MissingField(path)) => assert_eq!(path, "area"),
        Ok(()) => panic!("expected an error"),
    }
    assert_eq!(s.order_by.len(), 1);
    assert!(s.start_at.is_none());
}

#[test]
fn wire_codes_round_trip() {
    assert_eq!(SortDirection::Ascending.code(), 1);
    assert_eq!(SortDirection::Descending.code(), 2);
    assert_eq!(SortDirection::from_code(2), Some(SortDirection::Descending));
    assert_eq!(SortDirection::from_code(0), None);
    assert_eq!(FilterOperator::LessThan.code(), 1);
    assert_eq!(FilterOperator::Equal.code(), 5);
    assert_eq!(FilterOperator::NotIn.code(), 10);
    assert_eq!(FilterOperator::from_code(8), Some(FilterOperator::In));
    assert_eq!(FilterOperator::from_code(11), None);
}
