use firestore_query::request::{
    add_document_request, authorization, collect_documents, delete_document_request,
    get_document_request, run_query_request, set_document_request, WriteRequest,
};
use firestore_query::store_field::{from_values, Value};
use firestore_query::{db, Document, Field, State};

fn state() -> State {
    let mut s = db();
    s.init("proj", Some("Bearer tok")).collection("users").document("u1");
    s
}

fn fields() -> Vec<Field> {
    vec![Field { key: "name".to_string(), value: Value::string("Ann") }]
}

fn named(name: &str) -> Document {
    Document { name: name.to_string(), fields: Vec::new(), create_time: None, update_time: None }
}

#[test]
fn get_and_delete_address_the_document() {
    let s = state();
    assert_eq!(
        get_document_request(&s).name,
        "projects/proj/databases/(default)/documents/users/u1"
    );
    assert_eq!(
        delete_document_request(&s).name,
        "projects/proj/databases/(default)/documents/users/u1"
    );
}

#[test]
fn set_document_on_missing_path_creates() {
    let s = state();
    match set_document_request(&s, "u2", fields(), false) {
        WriteRequest::Create(c) => {
            assert_eq!(c.parent, "projects/proj/databases/(default)/documents");
            assert_eq!(c.collection_id, "users");
            assert_eq!(c.document_id, "u2");
            assert_eq!(from_values(c.fields).get_string("name"), "Ann");
        }
        WriteRequest::Update(_) => panic!("expected a create"),
    }
}

#[test]
fn set_document_on_existing_path_updates() {
    let s = state();
    match set_document_request(&s, "u2", fields(), true) {
        WriteRequest::Update(u) => {
            assert_eq!(u.name, "projects/proj/databases/(default)/documents/users/u2");
            assert_eq!(from_values(u.fields).get_string("name"), "Ann");
        }
        WriteRequest::Create(_) => panic!("expected an update"),
    }
}

#[test]
fn add_document_leaves_id_to_server() {
    let s = state();
    let c = add_document_request(&s, fields());
    assert_eq!(c.document_id, "");
    assert_eq!(c.collection_id, "users");
    assert_eq!(c.parent, "projects/proj/databases/(default)/documents");
    assert_eq!(c.fields.len(), 1);
}

#[test]
fn run_query_carries_limit_without_filters() {
    let mut s = state();
    s.limit(3);
    let r = run_query_request(&s);
    assert_eq!(r.parent, "projects/proj/databases/(default)/documents");
    assert_eq!(r.query.collection_id, "users");
    assert!(r.query.filters.is_empty());
    assert!(r.query.order_by.is_empty());
    assert!(r.query.start_at.is_none() && r.query.end_at.is_none());
    assert_eq!(r.query.limit, Some(3));
}

#[test]
fn collect_keeps_server_order_up_to_limit() {
    let responses = vec![Some(named("c")), Some(named("a")), Some(named("b"))];
    let docs = collect_documents(responses);
    let names: Vec<&str> = docs.iter().map(|d| d.name.as_str()).collect();
    assert_eq!(names, vec!["c", "a", "b"]);
}

#[test]
fn collect_stops_at_end_marker() {
    let responses = vec![Some(named("x")), None, Some(named("y"))];
    let docs = collect_documents(responses);
    assert_eq!(docs.len(), 1);
    assert_eq!(docs[0].name, "x");
    assert!(collect_documents(Vec::new()).is_empty());
}

#[test]
fn authorization_is_the_raw_token() {
    assert_eq!(authorization(&state()).as_deref(), Some("Bearer tok"));
    assert_eq!(authorization(&db()), None);
}
