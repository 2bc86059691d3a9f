//! Translation of a query state into the plain requests a transport sends,
//! and accumulation of what a query stream yields.
use vstd::prelude::*;
use crate::state::{Cursor, FieldFilter, Order, State};
use crate::store_field::{
    copy_value, copy_values, model, values_model, Document, Field, ValueModel,
};

verus! {

/// The parent of every document of a project: the query and create parent.
pub open spec fn parent_path(project: Seq<char>) -> Seq<char> {
    "projects/"@ + project + "/databases/(default)/documents"@
}

/// The resource name of one document.
pub open spec fn document_path(project: Seq<char>, collection: Seq<char>, id: Seq<char>) -> Seq<
    char,
> {
    parent_path(project) + "/"@ + collection + "/"@ + id
}

/// The model of a filter: path, operator and value model.
pub open spec fn filter_model(f: FieldFilter) -> (Seq<char>, crate::state::FilterOperator, ValueModel) {
    (f.field_path@, f.op, model(f.value))
}

pub open spec fn filters_model(fs: Seq<FieldFilter>) -> Seq<
    (Seq<char>, crate::state::FilterOperator, ValueModel),
> {
    Seq::new(fs.len(), |i: int| filter_model(fs[i]))
}

/// The model of an optional cursor: its value models and its boundary flag.
pub open spec fn cursor_model(c: Option<Cursor>) -> Option<(Seq<ValueModel>, bool)> {
    match c {
        Some(c) => Some((values_model(c.values@), c.before)),
        None => None,
    }
}

/// Fetch one document by resource name.
#[derive(Debug)]
pub struct GetDocumentRequest {
    pub name: String,
}

/// Delete one document by resource name.
#[derive(Debug)]
pub struct DeleteDocumentRequest {
    pub name: String,
}

/// A structured query over one collection: the filters are combined with AND.
#[derive(Debug)]
pub struct StructuredQuery {
    pub collection_id: String,
    pub filters: Vec<FieldFilter>,
    pub order_by: Vec<Order>,
    pub start_at: Option<Cursor>,
    pub end_at: Option<Cursor>,
    pub limit: Option<i32>,
}

/// Run a structured query under a parent.
#[derive(Debug)]
pub struct RunQueryRequest {
    pub parent: String,
    pub query: StructuredQuery,
}

/// Create a document in a collection; an empty id lets the server choose one.
#[derive(Debug)]
pub struct CreateDocumentRequest {
    pub parent: String,
    pub collection_id: String,
    pub document_id: String,
    pub fields: Vec<Field>,
}

/// Overwrite the document with the given resource name.
#[derive(Debug)]
pub struct UpdateDocumentRequest {
    pub name: String,
    pub fields: Vec<Field>,
}

/// A write: exactly one of create or update.
#[derive(Debug)]
pub enum WriteRequest {
    Create(CreateDocumentRequest),
    Update(UpdateDocumentRequest),
}

/// The query and create parent of the state's project.
pub fn parent_name(state: &State) -> (r: String)
    ensures
        r@ == parent_path(state.project_id@),
{
    let mut s = "projects/".to_owned();
    s.append(state.project_id.as_str());
    s.append("/databases/(default)/documents");
    s
}

/// The resource name of document `id` in the state's collection.
pub fn document_name(state: &State, id: &str) -> (r: String)
    ensures
        r@ == document_path(state.project_id@, state.collection@, id@),
{
    let mut s = parent_name(state);
    s.append("/");
    s.append(state.collection.as_str());
    s.append("/");
    s.append(id);
    s
}

/// The fetch of the addressed document.
pub fn get_document_request(state: &State) -> (r: GetDocumentRequest)
    ensures
        r.name@ == document_path(state.project_id@, state.collection@, state.document@),
{
    GetDocumentRequest { name: document_name(state, state.document.as_str()) }
}

/// The deletion of the addressed document.
pub fn delete_document_request(state: &State) -> (r: DeleteDocumentRequest)
    ensures
        r.name@ == document_path(state.project_id@, state.collection@, state.document@),
{
    DeleteDocumentRequest { name: document_name(state, state.document.as_str()) }
}

/// The creation of document `document_id` in the state's collection.
pub fn create_document_request(state: &State, document_id: &str, fields: Vec<Field>) -> (r:
    CreateDocumentRequest)
    ensures
        r.parent@ == parent_path(state.project_id@),
        r.collection_id@ == state.collection@,
        r.document_id@ == document_id@,
        r.fields == fields,
{
    CreateDocumentRequest {
        parent: parent_name(state),
        collection_id: state.collection.clone(),
        document_id: document_id.to_owned(),
        fields,
    }
}

/// The overwrite of document `document_id` in the state's collection.
pub fn update_document_request(state: &State, document_id: &str, fields: Vec<Field>) -> (r:
    UpdateDocumentRequest)
    ensures
        r.name@ == document_path(state.project_id@, state.collection@, document_id@),
        r.fields == fields,
{
    UpdateDocumentRequest { name: document_name(state, document_id), fields }
}

fn copy_filters(fs: &Vec<FieldFilter>) -> (r: Vec<FieldFilter>)
    ensures
        filters_model(r@) == filters_model(fs@),
{
    let mut out: Vec<FieldFilter> = Vec::new();
    let mut i: usize = 0;
    while i < fs.len()
        invariant
            i <= fs.len(),
            out@.len() == i,
            forall|j: int| 0 <= j < i ==> filter_model(#[trigger] out@[j]) == filter_model(fs@[j]),
        decreases fs.len() - i,
    {
        let f = FieldFilter {
            field_path: fs[i].field_path.clone(),
            op: fs[i].op,
            value: copy_value(&fs[i].value),
        };
        out.push(f);
        i = i + 1;
    }
    assert(filters_model(out@) =~= filters_model(fs@));
    out
}

fn copy_orders(os: &Vec<Order>) -> (r: Vec<Order>)
    ensures
        r@ == os@,
{
    let mut out: Vec<Order> = Vec::new();
    let mut i: usize = 0;
    while i < os.len()
        invariant
            i <= os.len(),
            out@ == os@.subrange(0, i as int),
        decreases os.len() - i,
    {
        let o = Order { field_path: os[i].field_path.clone(), direction: os[i].direction };
        out.push(o);
        i = i + 1;
        assert(out@ =~= os@.subrange(0, i as int));
    }
    assert(out@ =~= os@);
    out
}

fn copy_cursor(c: &Option<Cursor>) -> (r: Option<Cursor>)
    ensures
        cursor_model(r) == cursor_model(*c),
{
    match c {
        Some(c) => Some(Cursor { values: copy_values(&c.values), before: c.before }),
        None => None,
    }
}

/// The structured query the state describes, under the project's parent.
pub fn run_query_request(state: &State) -> (r: RunQueryRequest)
    ensures
        r.parent@ == parent_path(state.project_id@),
        r.query.collection_id@ == state.collection@,
        filters_model(r.query.filters@) == filters_model(state.filters@),
        r.query.order_by@ == state.order_by@,
        cursor_model(r.query.start_at) == cursor_model(state.start_at),
        cursor_model(r.query.end_at) == cursor_model(state.end_at),
        r.query.limit == state.limit,
{
    let query = StructuredQuery {
        collection_id: state.collection.clone(),
        filters: copy_filters(&state.filters),
        order_by: copy_orders(&state.order_by),
        start_at: copy_cursor(&state.start_at),
        end_at: copy_cursor(&state.end_at),
        limit: state.limit,
    };
    RunQueryRequest { parent: parent_name(state), query }
}

/// The write that stores `fields` as document `document_id`: an overwrite when
/// the document exists, a creation under that id when it does not.
pub fn set_document_request(state: &State, document_id: &str, fields: Vec<Field>, exists: bool) -> (r:
    WriteRequest)
    ensures
        exists ==> r is Update && r->Update_0.name@ == document_path(
            state.project_id@,
            state.collection@,
            document_id@,
        ) && r->Update_0.fields == fields,
        !exists ==> r is Create && r->Create_0.parent@ == parent_path(state.project_id@)
            && r->Create_0.collection_id@ == state.collection@ && r->Create_0.document_id@
            == document_id@ && r->Create_0.fields == fields,
{
    if exists {
        WriteRequest::Update(update_document_request(state, document_id, fields))
    } else {
        WriteRequest::Create(create_document_request(state, document_id, fields))
    }
}

/// The creation of a new document whose id the server assigns.
pub fn add_document_request(state: &State, fields: Vec<Field>) -> (r: CreateDocumentRequest)
    ensures
        r.parent@ == parent_path(state.project_id@),
        r.collection_id@ == state.collection@,
        r.document_id@.len() == 0,
        r.fields == fields,
{
    proof {
        reveal_strlit("");
    }
    create_document_request(state, "", fields)
}

/// The documents a query stream yields, in delivery order, up to its first
/// end marker (`None`).
pub open spec fn collected(responses: Seq<Option<Document>>) -> Seq<Document>
    decreases responses.len(),
{
    if responses.len() == 0 {
        Seq::empty()
    } else {
        match responses[0] {
            Some(d) => seq![d] + collected(responses.drop_first()),
            None => Seq::empty(),
        }
    }
}

/// Takes one response of a query stream into `acc`: a document is appended
/// and the stream goes on; an end marker stops it.
pub fn accept_response(acc: &mut Vec<Document>, response: Option<Document>) -> (more: bool)
    ensures
        match response {
            Some(d) => final(acc)@ == old(acc)@.push(d) && more,
            None => final(acc)@ == old(acc)@ && !more,
        },
{
    match response {
        Some(d) => {
            acc.push(d);
            true
        },
        None => false,
    }
}

/// All documents of a fully received query stream, in delivery order, up to
/// its first end marker.
pub fn collect_documents(responses: Vec<Option<Document>>) -> (r: Vec<Document>)
    ensures
        r@ == collected(responses@),
{
    let mut rest = responses;
    let mut acc: Vec<Document> = Vec::new();
    let mut done = false;
    while !done && rest.len() > 0
        invariant
            done ==> acc@ == collected(responses@),
            !done ==> acc@ + collected(rest@) == collected(responses@),
        decreases rest.len(),
    {
        let ghost before = rest@;
        let item = rest.remove(0);
        proof {
            assert(rest@ =~= before.drop_first());
        }
        let ghost acc_before = acc@;
        let more = accept_response(&mut acc, item);
        if !more {
            proof {
                assert(acc@ + collected(before) =~= acc@);
            }
            done = true;
        } else {
            proof {
                assert(acc@ + collected(rest@) =~= acc_before + collected(before));
            }
        }
    }
    proof {
        if !done {
            assert(acc@ + collected(rest@) =~= acc@);
        }
    }
    acc
}

/// The documents collected from a query stream are the stream's leading
/// documents, in delivery order: none is added, dropped or reordered, and there
/// are never more of them than responses.
pub proof fn collected_keeps_delivery_order(responses: Seq<Option<Document>>)
    ensures
        collected(responses).len() <= responses.len(),
        forall|i: int|
            0 <= i < collected(responses).len() ==> responses[i] == Some(
                #[trigger] collected(responses)[i],
            ),
    decreases responses.len(),
{
    if responses.len() > 0 {
        collected_keeps_delivery_order(responses.drop_first());
        match responses[0] {
            Some(d) => {
                let rest = collected(responses.drop_first());
                assert forall|i: int|
                    0 <= i < collected(responses).len() implies responses[i] == Some(
                        #[trigger] collected(responses)[i],
                    ) by {
                    if i > 0 {
                        assert(collected(responses)[i] == rest[i - 1]);
                        assert(responses[i] == responses.drop_first()[i - 1]);
                    }
                }
            },
            None => {},
        }
    }
}

/// The credential each call carries: the stored token, verbatim, when there
/// is one; the call goes unauthenticated otherwise.
pub fn authorization(state: &State) -> (r: Option<String>)
    ensures
        r is Some <==> state.token is Some,
        r is Some ==> r->Some_0@ == state.token->Some_0@,
{
    match &state.token {
        Some(t) => Some(t.clone()),
        None => None,
    }
}

} // verus!
