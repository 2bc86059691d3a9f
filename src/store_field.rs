//! Tagged wire values, document fields and documents.
use vstd::prelude::*;

verus! {

broadcast use vstd::std_specs::vec::axiom_vec_index_decreases;

/// A point in time: whole seconds since the Unix epoch and the nanoseconds
/// past that second.
#[derive(Debug, PartialEq, Eq, Structural, Clone, Copy)]
pub struct Timestamp {
    pub seconds: i64,
    pub nanos: i32,
}

/// The canonical wire value: a closed sum over the scalar and composite kinds.
///
/// A double is held as its IEEE-754 bit pattern.
#[derive(Debug)]
pub enum TaggedValue {
    Null,
    Boolean(bool),
    Integer(i64),
    Double(u64),
    Timestamp(Timestamp),
    String(String),
    Reference(String),
    Array(Vec<TaggedValue>),
    Mapping(Vec<Field>),
}

/// One named entry of a field mapping.
#[derive(Debug)]
pub struct Field {
    pub key: String,
    pub value: TaggedValue,
}

/// The value stored under `key` in a field mapping: the first entry with that key.
pub open spec fn field_lookup(fields: Seq<Field>, key: Seq<char>) -> Option<TaggedValue>
    decreases fields.len(),
{
    if fields.len() == 0 {
        None
    } else if fields[0].key@ == key {
        Some(fields[0].value)
    } else {
        field_lookup(fields.drop_first(), key)
    }
}

/// The mathematical model of a tagged value: strings as character sequences,
/// arrays and maps as sequences.
pub enum ValueModel {
    Null,
    Boolean(bool),
    Integer(i64),
    Double(u64),
    Timestamp(Timestamp),
    Text(Seq<char>),
    Reference(Seq<char>),
    Array(Seq<ValueModel>),
    Mapping(Seq<(Seq<char>, ValueModel)>),
}

/// The model of one field: its key and the model of its value.
pub open spec fn entry_model(f: Field) -> (Seq<char>, ValueModel)
    decreases f,
{
    (f.key@, model(f.value))
}

/// The model of a tagged value.
pub open spec fn model(v: TaggedValue) -> ValueModel
    decreases v,
{
    match v {
        TaggedValue::Null => ValueModel::Null,
        TaggedValue::Boolean(b) => ValueModel::Boolean(b),
        TaggedValue::Integer(n) => ValueModel::Integer(n),
        TaggedValue::Double(bits) => ValueModel::Double(bits),
        TaggedValue::Timestamp(t) => ValueModel::Timestamp(t),
        TaggedValue::String(s) => ValueModel::Text(s@),
        TaggedValue::Reference(s) => ValueModel::Reference(s@),
        TaggedValue::Array(items) => ValueModel::Array(
            Seq::new(
                items@.len(),
                |i: int|
                    if 0 <= i < items.len() {
                        model(items[i])
                    } else {
                        ValueModel::Null
                    },
            ),
        ),
        TaggedValue::Mapping(fields) => ValueModel::Mapping(
            Seq::new(
                fields@.len(),
                |i: int|
                    if 0 <= i < fields.len() {
                        entry_model(fields[i])
                    } else {
                        (Seq::empty(), ValueModel::Null)
                    },
            ),
        ),
    }
}

/// The models of a sequence of fields, in order.
pub open spec fn fields_model(fields: Seq<Field>) -> Seq<(Seq<char>, ValueModel)> {
    Seq::new(fields.len(), |i: int| entry_model(fields[i]))
}

/// The models of a sequence of values, in order.
pub open spec fn values_model(values: Seq<TaggedValue>) -> Seq<ValueModel> {
    Seq::new(values.len(), |i: int| model(values[i]))
}

proof fn lemma_model_array(items: Vec<TaggedValue>)
    ensures
        model(TaggedValue::Array(items)) == ValueModel::Array(values_model(items@)),
{
    let inner = model(TaggedValue::Array(items))->Array_0;
    assert(inner =~= values_model(items@));
}

proof fn lemma_model_mapping(fields: Vec<Field>)
    ensures
        model(TaggedValue::Mapping(fields)) == ValueModel::Mapping(fields_model(fields@)),
{
    let inner = model(TaggedValue::Mapping(fields))->Mapping_0;
    assert(inner =~= fields_model(fields@));
}

/// A deep copy of a tagged value.
pub fn copy_value(v: &TaggedValue) -> (r: TaggedValue)
    ensures
        model(r) == model(*v),
    decreases v,
{
    match v {
        TaggedValue::Null => TaggedValue::Null,
        TaggedValue::Boolean(b) => TaggedValue::Boolean(*b),
        TaggedValue::Integer(n) => TaggedValue::Integer(*n),
        TaggedValue::Double(bits) => TaggedValue::Double(*bits),
        TaggedValue::Timestamp(t) => TaggedValue::Timestamp(*t),
        TaggedValue::String(s) => TaggedValue::String(s.clone()),
        TaggedValue::Reference(s) => TaggedValue::Reference(s.clone()),
        TaggedValue::Array(items) => {
            let out = copy_values(items);
            proof {
                lemma_model_array(out);
                lemma_model_array(*items);
            }
            TaggedValue::Array(out)
        },
        TaggedValue::Mapping(fields) => {
            let out = copy_fields(fields);
            proof {
                lemma_model_mapping(out);
                lemma_model_mapping(*fields);
            }
            TaggedValue::Mapping(out)
        },
    }
}

/// A deep copy of a sequence of values.
pub fn copy_values(items: &Vec<TaggedValue>) -> (r: Vec<TaggedValue>)
    ensures
        values_model(r@) == values_model(items@),
    decreases items,
{
    let mut out: Vec<TaggedValue> = Vec::new();
    let mut i: usize = 0;
    while i < items.len()
        invariant
            i <= items.len(),
            out@.len() == i,
            forall|j: int| 0 <= j < i ==> model(#[trigger] out@[j]) == model(items@[j]),
        decreases items.len() - i,
    {
        let c = copy_value(&items[i]);
        out.push(c);
        i = i + 1;
    }
    assert(values_model(out@) =~= values_model(items@));
    out
}

/// A deep copy of a sequence of fields.
pub fn copy_fields(fields: &Vec<Field>) -> (r: Vec<Field>)
    ensures
        fields_model(r@) == fields_model(fields@),
    decreases fields,
{
    let mut out: Vec<Field> = Vec::new();
    let mut i: usize = 0;
    while i < fields.len()
        invariant
            i <= fields.len(),
            out@.len() == i,
            forall|j: int| 0 <= j < i ==> entry_model(#[trigger] out@[j]) == entry_model(fields@[j]),
        decreases fields.len() - i,
    {
        let value = copy_value(&fields[i].value);
        let f = Field { key: fields[i].key.clone(), value };
        out.push(f);
        i = i + 1;
    }
    assert(fields_model(out@) =~= fields_model(fields@));
    out
}

/// A stored document: its resource name, its fields, and the server's
/// creation and update times, which this library carries but never reads.
#[derive(Debug)]
pub struct Document {
    pub name: String,
    pub fields: Vec<Field>,
    pub create_time: Option<Timestamp>,
    pub update_time: Option<Timestamp>,
}

proof fn lemma_lookup_skip(fields: Seq<Field>, key: Seq<char>, i: int)
    requires
        0 <= i <= fields.len(),
        forall|j: int| 0 <= j < i ==> fields[j].key@ != key,
    ensures
        field_lookup(fields, key) == field_lookup(fields.subrange(i, fields.len() as int), key),
    decreases i,
{
    if i == 0 {
        assert(fields.subrange(0, fields.len() as int) =~= fields);
    } else {
        lemma_lookup_skip(fields, key, i - 1);
        let rest = fields.subrange(i - 1, fields.len() as int);
        assert(rest.drop_first() =~= fields.subrange(i, fields.len() as int));
    }
}

proof fn lemma_lookup_push(fields: Seq<Field>, f: Field, k: Seq<char>)
    ensures
        field_lookup(fields.push(f), k) == (match field_lookup(fields, k) {
            Some(v) => Some(v),
            None => if f.key@ == k {
                Some(f.value)
            } else {
                None
            },
        }),
    decreases fields.len(),
{
    if fields.len() == 0 {
        assert(fields.push(f).drop_first() =~= Seq::<Field>::empty());
        assert(fields.push(f)[0] == f);
        assert(field_lookup(fields, k) is None);
        assert(field_lookup(Seq::<Field>::empty(), k) is None);
    } else {
        assert(fields.push(f).drop_first() =~= fields.drop_first().push(f));
        assert(fields.push(f)[0] == fields[0]);
        lemma_lookup_push(fields.drop_first(), f, k);
    }
}

proof fn lemma_lookup_update(fields: Seq<Field>, i: int, f: Field, k: Seq<char>)
    requires
        0 <= i < fields.len(),
        fields[i].key@ == f.key@,
        forall|j: int| 0 <= j < i ==> fields[j].key@ != f.key@,
    ensures
        field_lookup(fields.update(i, f), k) == if k == f.key@ {
            Some(f.value)
        } else {
            field_lookup(fields, k)
        },
    decreases i,
{
    if i == 0 {
        assert(fields.update(0, f).drop_first() =~= fields.drop_first());
    } else {
        assert(fields.update(i, f).drop_first() =~= fields.drop_first().update(i - 1, f));
        lemma_lookup_update(fields.drop_first(), i - 1, f, k);
    }
}

/// The position of the entry that `field_lookup` finds for `key`, if any.
pub fn find_field(fields: &Vec<Field>, key: &str) -> (r: Option<usize>)
    ensures
        match r {
            Some(i) => i < fields@.len() && fields@[i as int].key@ == key@
                && (forall|j: int| 0 <= j < i ==> fields@[j].key@ != key@)
                && field_lookup(fields@, key@) == Some(fields@[i as int].value),
            None => field_lookup(fields@, key@) is None,
        },
{
    let wanted = key.to_owned();
    let mut i: usize = 0;
    while i < fields.len()
        invariant
            i <= fields.len(),
            wanted@ == key@,
            forall|j: int| 0 <= j < i ==> fields@[j].key@ != key@,
        decreases fields.len() - i,
    {
        if fields[i].key == wanted {
            proof {
                lemma_lookup_skip(fields@, key@, i as int);
            }
            return Some(i);
        }
        i = i + 1;
    }
    proof {
        lemma_lookup_skip(fields@, key@, i as int);
    }
    None
}

/// A read-only view of a field mapping, for extracting typed values.
pub struct FromValues {
    fields: Vec<Field>,
}

impl View for FromValues {
    type V = Seq<Field>;

    closed spec fn view(&self) -> Seq<Field> {
        self.fields@
    }
}

/// The string stored under `key`; empty when the key is absent or holds
/// a value of another kind.
pub open spec fn string_field(fields: Seq<Field>, key: Seq<char>) -> Seq<char> {
    match field_lookup(fields, key) {
        Some(TaggedValue::String(s)) => s@,
        _ => Seq::empty(),
    }
}

impl FromValues {
    /// The string stored under `key`, or the empty string when the key is
    /// missing or not string-typed.
    pub fn get_string(self, key: &str) -> (r: String)
        ensures
            r@ == string_field(self@, key@),
    {
        match find_field(&self.fields, key) {
            Some(i) => match &self.fields[i].value {
                TaggedValue::String(s) => s.clone(),
                _ => String::new(),
            },
            None => String::new(),
        }
    }
}

/// Wraps a field mapping for reading.
pub fn from_values(fields: Vec<Field>) -> (r: FromValues)
    ensures
        r@ == fields@,
{
    FromValues { fields }
}

/// A field mapping under construction, one key at a time.
pub struct ToValues {
    fields: Vec<Field>,
}

impl View for ToValues {
    type V = Seq<Field>;

    closed spec fn view(&self) -> Seq<Field> {
        self.fields@
    }
}

impl ToValues {
    /// Stores `value` under `key`, replacing any value already stored there.
    pub fn add(self, key: &str, value: TaggedValue) -> (r: Self)
        ensures
            forall|k: Seq<char>|
                #[trigger] field_lookup(r@, k) == if k == key@ {
                    Some(value)
                } else {
                    field_lookup(self@, k)
                },
    {
        let mut fields = self.fields;
        let f = Field { key: key.to_owned(), value };
        match find_field(&fields, key) {
            Some(i) => {
                proof {
                    assert forall|k: Seq<char>|
                        #[trigger] field_lookup(fields@.update(i as int, f), k) == if k == key@ {
                            Some(value)
                        } else {
                            field_lookup(fields@, k)
                        } by {
                        lemma_lookup_update(fields@, i as int, f, k);
                    }
                }
                fields.set(i, f);
            },
            None => {
                proof {
                    assert forall|k: Seq<char>|
                        #[trigger] field_lookup(fields@.push(f), k) == if k == key@ {
                            Some(value)
                        } else {
                            field_lookup(fields@, k)
                        } by {
                        lemma_lookup_push(fields@, f, k);
                    }
                }
                fields.push(f);
            },
        }
        ToValues { fields }
    }

    /// The field mapping built so far.
    pub fn get_fields(self) -> (r: Vec<Field>)
        ensures
            r@ == self@,
    {
        self.fields
    }
}

/// An empty field mapping to build on.
pub fn to_values() -> (r: ToValues)
    ensures
        r@ == Seq::<Field>::empty(),
{
    ToValues { fields: Vec::new() }
}

/// Constructors of tagged values, one per kind.
pub struct Value {}

impl Value {
    pub fn null() -> (r: TaggedValue)
        ensures
            r == TaggedValue::Null,
    {
        TaggedValue::Null
    }

    pub fn boolean(value: bool) -> (r: TaggedValue)
        ensures
            r == TaggedValue::Boolean(value),
    {
        TaggedValue::Boolean(value)
    }

    pub fn integer(value: i64) -> (r: TaggedValue)
        ensures
            r == TaggedValue::Integer(value),
    {
        TaggedValue::Integer(value)
    }

    /// A double, given as its IEEE-754 bit pattern.
    pub fn double(bits: u64) -> (r: TaggedValue)
        ensures
            r == TaggedValue::Double(bits),
    {
        TaggedValue::Double(bits)
    }

    pub fn timestamp(value: Timestamp) -> (r: TaggedValue)
        ensures
            r == TaggedValue::Timestamp(value),
    {
        TaggedValue::Timestamp(value)
    }

    pub fn string(value: &str) -> (r: TaggedValue)
        ensures
            r is String,
            model(r) == ValueModel::Text(value@),
    {
        TaggedValue::String(value.to_owned())
    }

    /// A reference to the document with the given resource name.
    pub fn reference(value: String) -> (r: TaggedValue)
        ensures
            r == TaggedValue::Reference(value),
    {
        TaggedValue::Reference(value)
    }

    pub fn array(value: Vec<TaggedValue>) -> (r: TaggedValue)
        ensures
            r == TaggedValue::Array(value),
    {
        TaggedValue::Array(value)
    }

    pub fn map(value: Vec<Field>) -> (r: TaggedValue)
        ensures
            r == TaggedValue::Mapping(value),
    {
        TaggedValue::Mapping(value)
    }
}

} // verus!
