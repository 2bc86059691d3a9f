//! The query state builder: addressed resource, filters, ordering, cursors
//! and limit, accumulated by chained configuration calls.
use vstd::prelude::*;
use crate::store_field::{
    copy_value, field_lookup, find_field, model, values_model, Document, TaggedValue,
    ValueModel,
};

verus! {

/// The wire codes of the sort directions.
pub struct Direction;

impl Direction {
    pub const ASCENDING: i32 = 1;
    pub const DESCENDING: i32 = 2;
}

/// The wire codes of the filter operators.
pub struct Operator;

impl Operator {
    pub const LESS_THAN: i32 = 1;
    pub const LESS_THAN_OR_EQUAL: i32 = 2;
    pub const GREATER_THAN: i32 = 3;
    pub const GREATER_THAN_OR_EQUAL: i32 = 4;
    pub const EQUAL: i32 = 5;
    pub const NOT_EQUAL: i32 = 6;
    pub const ARRAY_CONTAINS: i32 = 7;
    pub const IN: i32 = 8;
    pub const ARRAY_CONTAINS_ANY: i32 = 9;
    pub const NOT_IN: i32 = 10;
}

/// Sort direction of an order-by clause.
#[derive(Debug, PartialEq, Eq, Structural, Clone, Copy)]
pub enum SortDirection {
    Ascending,
    Descending,
}

/// Comparison kind of a field filter.
#[derive(Debug, PartialEq, Eq, Structural, Clone, Copy)]
pub enum FilterOperator {
    LessThan,
    LessThanOrEqual,
    GreaterThan,
    GreaterThanOrEqual,
    Equal,
    NotEqual,
    ArrayContains,
    In,
    ArrayContainsAny,
    NotIn,
}

/// A filter on one field: `field_path op value`.
#[derive(Debug)]
pub struct FieldFilter {
    pub field_path: String,
    pub op: FilterOperator,
    pub value: TaggedValue,
}

/// One order-by clause.
#[derive(Debug)]
pub struct Order {
    pub field_path: String,
    pub direction: SortDirection,
}

/// A pagination cursor: one value per order-by clause, and whether the
/// position lies just before the matching document.
#[derive(Debug)]
pub struct Cursor {
    pub values: Vec<TaggedValue>,
    pub before: bool,
}

/// Why a cursor could not be built.
#[derive(Debug)]
pub enum CursorError {
    /// The reference document lacks a field that an order-by clause names.
    MissingField(String),
}

/// The accumulated description of one query or document reference.
#[derive(Debug)]
pub struct State {
    pub token: Option<String>,
    pub project_id: String,
    pub collection: String,
    pub document: String,
    pub filters: Vec<FieldFilter>,
    pub order_by: Vec<Order>,
    pub start_at: Option<Cursor>,
    pub end_at: Option<Cursor>,
    pub limit: Option<i32>,
}

/// The reserved field path that names a document's identity.
pub open spec fn name_path() -> Seq<char> {
    seq!['_', '_', 'n', 'a', 'm', 'e', '_', '_']
}

/// The implicit tie-break clause: ascending on document identity.
pub open spec fn is_tie_break(o: Order) -> bool {
    o.field_path@ == name_path() && o.direction == SortDirection::Ascending
}

/// The clauses a cursor holds values for: all of them, except a trailing
/// tie-break clause, whose value is the document's name.
pub open spec fn user_order(order: Seq<Order>) -> Seq<Order> {
    if order.len() > 0 && is_tie_break(order.last()) {
        order.drop_last()
    } else {
        order
    }
}

/// The ordering after a cursor operation on `old`: the user clauses followed by
/// exactly one tie-break clause.
pub open spec fn ordered_for_cursor(old: Seq<Order>, new: Seq<Order>) -> bool {
    new.len() > 0 && is_tie_break(new.last()) && new.drop_last() == user_order(old)
}

/// The reference document holds a field for every user clause.
pub open spec fn cursor_fields_present(order: Seq<Order>, doc: Document) -> bool {
    forall|i: int|
        0 <= i < user_order(order).len() ==> field_lookup(
            doc.fields@,
            #[trigger] user_order(order)[i].field_path@,
        ) is Some
}

/// `path` names a user clause whose field the reference document lacks.
pub open spec fn missing_cursor_field(order: Seq<Order>, doc: Document, path: Seq<char>) -> bool {
    exists|i: int|
        0 <= i < user_order(order).len() && #[trigger] user_order(order)[i].field_path@ == path
            && field_lookup(doc.fields@, path) is None
}

/// The values a cursor built from `doc` under `order` holds: the document's
/// value for each user clause, then its resource name as a reference.
pub open spec fn cursor_values(order: Seq<Order>, doc: Document) -> Seq<ValueModel> {
    Seq::new(
        user_order(order).len(),
        |i: int| model(field_lookup(doc.fields@, user_order(order)[i].field_path@).unwrap()),
    ).push(ValueModel::Reference(doc.name@))
}

/// Everything but ordering and cursors is the same in `a` and `b`.
pub open spec fn same_target(a: State, b: State) -> bool {
    a.token == b.token && a.project_id == b.project_id && a.collection == b.collection
        && a.document == b.document && a.filters == b.filters && a.limit == b.limit
}

/// The outcome of a cursor operation on `old`: on success the ordering gains its
/// tie-break clause and the chosen cursor holds the document's values.
pub open spec fn cursor_applied(
    old: State,
    new: State,
    doc: Document,
    at_start: bool,
    before: bool,
    ok: bool,
) -> bool {
    &&& ok <==> cursor_fields_present(old.order_by@, doc)
    &&& ok ==> {
        &&& same_target(old, new)
        &&& ordered_for_cursor(old.order_by@, new.order_by@)
        &&& if at_start {
            new.end_at == old.end_at && new.start_at is Some && values_model(
                new.start_at->Some_0.values@,
            ) == cursor_values(old.order_by@, doc) && new.start_at->Some_0.before == before
        } else {
            new.start_at == old.start_at && new.end_at is Some && values_model(
                new.end_at->Some_0.values@,
            ) == cursor_values(old.order_by@, doc) && new.end_at->Some_0.before == before
        }
    }
    &&& !ok ==> new == old
}

/// A fresh, empty query state.
pub fn db() -> (r: State)
    ensures
        r.token is None,
        r.project_id@.len() == 0,
        r.collection@.len() == 0,
        r.document@.len() == 0,
        r.filters@.len() == 0,
        r.order_by@.len() == 0,
        r.start_at is None,
        r.end_at is None,
        r.limit is None,
{
    State {
        token: None,
        project_id: String::new(),
        collection: String::new(),
        document: String::new(),
        filters: Vec::new(),
        order_by: Vec::new(),
        start_at: None,
        end_at: None,
        limit: None,
    }
}

fn tie_break_order() -> (r: Order)
    ensures
        is_tie_break(r),
{
    let path = "__name__".to_owned();
    proof {
        reveal_strlit("__name__");
        assert(path@ =~= name_path());
    }
    Order { field_path: path, direction: SortDirection::Ascending }
}

impl State {
    /// The number of clauses a cursor holds document values for.
    fn user_order_len(&self) -> (n: usize)
        ensures
            n == user_order(self.order_by@).len(),
    {
        let len = self.order_by.len();
        if len > 0 {
            let last = &self.order_by[len - 1];
            let name = "__name__".to_owned();
            proof {
                reveal_strlit("__name__");
                assert(name@ =~= name_path());
            }
            if last.field_path == name && last.direction == SortDirection::Ascending {
                return len - 1;
            }
        }
        len
    }

    /// The cursor for `document` under the current ordering.
    fn cursor_for(&self, document: Document, before: bool) -> (r: Result<Cursor, CursorError>)
        ensures
            r is Ok <==> cursor_fields_present(self.order_by@, document),
            r matches Err(CursorError::MissingField(p)) ==> missing_cursor_field(
                self.order_by@,
                document,
                p@,
            ),
            r is Ok ==> values_model(r->Ok_0.values@) == cursor_values(self.order_by@, document)
                && r->Ok_0.before == before,
    {
        let n = self.user_order_len();
        let ghost user = user_order(self.order_by@);
        let mut values: Vec<TaggedValue> = Vec::new();
        let mut i: usize = 0;
        while i < n
            invariant
                n == user.len(),
                user == user_order(self.order_by@),
                user.len() <= self.order_by@.len(),
                forall|j: int| 0 <= j < user.len() ==> user[j] == self.order_by@[j],
                i <= n,
                values@.len() == i,
                forall|j: int|
                    0 <= j < i ==> field_lookup(document.fields@, #[trigger] user[j].field_path@)
                        is Some,
                forall|j: int|
                    0 <= j < i ==> model(#[trigger] values@[j]) == model(
                        field_lookup(document.fields@, user[j].field_path@).unwrap(),
                    ),
            decreases n - i,
        {
            let path = self.order_by[i].field_path.as_str();
            match find_field(&document.fields, path) {
                Some(k) => {
                    let v = copy_value(&document.fields[k].value);
                    values.push(v);
                },
                None => {
                    proof {
                        assert(field_lookup(document.fields@, user_order(self.order_by@)[i as int].field_path@) is None);
                    }
                    return Err(CursorError::MissingField(self.order_by[i].field_path.clone()));
                },
            }
            i = i + 1;
        }
        values.push(TaggedValue::Reference(document.name));
        proof {
            assert(values_model(values@) =~= cursor_values(self.order_by@, document));
        }
        Ok(Cursor { values, before })
    }

    /// Appends the tie-break clause unless the ordering already ends with it.
    fn finalize_ordering(&mut self)
        ensures
            same_target(*old(self), *final(self)),
            final(self).start_at == old(self).start_at,
            final(self).end_at == old(self).end_at,
            ordered_for_cursor(old(self).order_by@, final(self).order_by@),
    {
        let n = self.user_order_len();
        if n == self.order_by.len() {
            self.order_by.push(tie_break_order());
        }
        proof {
            assert(final(self).order_by@.drop_last() =~= user_order(old(self).order_by@));
        }
    }
}

impl State {
    /// Sets the project and the optional authorization token.
    pub fn init(&mut self, project_id: &str, token: Option<&str>) -> (r: &mut Self)
        ensures
            r.project_id@ == project_id@,
            match token {
                Some(t) => r.token is Some && r.token->Some_0@ == t@,
                None => r.token is None,
            },
            r.collection == old(self).collection,
            r.document == old(self).document,
            r.filters == old(self).filters,
            r.order_by == old(self).order_by,
            r.start_at == old(self).start_at,
            r.end_at == old(self).end_at,
            r.limit == old(self).limit,
            *final(self) == *final(r),
    {
        self.project_id = project_id.to_owned();
        self.token = match token {
            Some(t) => Some(t.to_owned()),
            None => None,
        };
        self
    }

    /// Sets the addressed collection.
    pub fn collection(&mut self, collection: &str) -> (r: &mut Self)
        ensures
            r.collection@ == collection@,
            r.token == old(self).token,
            r.project_id == old(self).project_id,
            r.document == old(self).document,
            r.filters == old(self).filters,
            r.order_by == old(self).order_by,
            r.start_at == old(self).start_at,
            r.end_at == old(self).end_at,
            r.limit == old(self).limit,
            *final(self) == *final(r),
    {
        self.collection = collection.to_owned();
        self
    }

    /// Sets the addressed document id.
    pub fn document(&mut self, document: &str) -> (r: &mut Self)
        ensures
            r.document@ == document@,
            r.token == old(self).token,
            r.project_id == old(self).project_id,
            r.collection == old(self).collection,
            r.filters == old(self).filters,
            r.order_by == old(self).order_by,
            r.start_at == old(self).start_at,
            r.end_at == old(self).end_at,
            r.limit == old(self).limit,
            *final(self) == *final(r),
    {
        self.document = document.to_owned();
        self
    }

    /// Appends the filter `field operator value`; filters are combined with AND.
    pub fn where_field(&mut self, field: &str, operator: FilterOperator, value: TaggedValue) -> (r:
        &mut Self)
        ensures
            r.filters@.len() == old(self).filters@.len() + 1,
            r.filters@.drop_last() == old(self).filters@,
            r.filters@.last().field_path@ == field@,
            r.filters@.last().op == operator,
            r.filters@.last().value == value,
            r.token == old(self).token,
            r.project_id == old(self).project_id,
            r.collection == old(self).collection,
            r.document == old(self).document,
            r.order_by == old(self).order_by,
            r.start_at == old(self).start_at,
            r.end_at == old(self).end_at,
            r.limit == old(self).limit,
            *final(self) == *final(r),
    {
        let filter = FieldFilter { field_path: field.to_owned(), op: operator, value };
        self.filters.push(filter);
        proof {
            assert(self.filters@.drop_last() =~= old(self).filters@);
        }
        self
    }

    /// Appends the order-by clause `field direction`.
    pub fn order_by(&mut self, field: &str, direction: SortDirection) -> (r: &mut Self)
        ensures
            r.order_by@.len() == old(self).order_by@.len() + 1,
            r.order_by@.drop_last() == old(self).order_by@,
            r.order_by@.last().field_path@ == field@,
            r.order_by@.last().direction == direction,
            same_target(*old(self), *r),
            r.start_at == old(self).start_at,
            r.end_at == old(self).end_at,
            *final(self) == *final(r),
    {
        let clause = Order { field_path: field.to_owned(), direction };
        self.order_by.push(clause);
        proof {
            assert(self.order_by@.drop_last() =~= old(self).order_by@);
        }
        self
    }

    /// Sets the maximum number of results.
    pub fn limit(&mut self, limit: i32) -> (r: &mut Self)
        ensures
            r.limit == Some(limit),
            r.token == old(self).token,
            r.project_id == old(self).project_id,
            r.collection == old(self).collection,
            r.document == old(self).document,
            r.filters == old(self).filters,
            r.order_by == old(self).order_by,
            r.start_at == old(self).start_at,
            r.end_at == old(self).end_at,
            *final(self) == *final(r),
    {
        self.limit = Some(limit);
        self
    }

    fn set_cursor(&mut self, document: Document, at_start: bool, before: bool) -> (r: Result<
        (),
        CursorError,
    >)
        ensures
            cursor_applied(*old(self), *final(self), document, at_start, before, r is Ok),
            r matches Err(CursorError::MissingField(p)) ==> missing_cursor_field(
                old(self).order_by@,
                document,
                p@,
            ),
    {
        match self.cursor_for(document, before) {
            Ok(cursor) => {
                self.finalize_ordering();
                if at_start {
                    self.start_at = Some(cursor);
                } else {
                    self.end_at = Some(cursor);
                }
                Ok(())
            },
            Err(e) => Err(e),
        }
    }

    /// Starts the results at `document`, inclusive.
    pub fn start_at(&mut self, document: Document) -> (r: Result<(), CursorError>)
        ensures
            cursor_applied(*old(self), *final(self), document, true, true, r is Ok),
            r matches Err(CursorError::MissingField(p)) ==> missing_cursor_field(
                old(self).order_by@,
                document,
                p@,
            ),
    {
        self.set_cursor(document, true, true)
    }

    /// Starts the results just after `document`.
    pub fn start_after(&mut self, document: Document) -> (r: Result<(), CursorError>)
        ensures
            cursor_applied(*old(self), *final(self), document, true, false, r is Ok),
            r matches Err(CursorError::MissingField(p)) ==> missing_cursor_field(
                old(self).order_by@,
                document,
                p@,
            ),
    {
        self.set_cursor(document, true, false)
    }

    /// Ends the results just before `document`.
    pub fn end_before(&mut self, document: Document) -> (r: Result<(), CursorError>)
        ensures
            cursor_applied(*old(self), *final(self), document, false, true, r is Ok),
            r matches Err(CursorError::MissingField(p)) ==> missing_cursor_field(
                old(self).order_by@,
                document,
                p@,
            ),
    {
        self.set_cursor(document, false, true)
    }

    /// Ends the results at `document`, inclusive.
    pub fn end_at(&mut self, document: Document) -> (r: Result<(), CursorError>)
        ensures
            cursor_applied(*old(self), *final(self), document, false, false, r is Ok),
            r matches Err(CursorError::MissingField(p)) ==> missing_cursor_field(
                old(self).order_by@,
                document,
                p@,
            ),
    {
        self.set_cursor(document, false, false)
    }
}

/// A cursor built under `order` holds one value per clause plus the
/// document's name, and the ordering it leaves behind ends with the tie-break
/// clause: for `n` clauses without a tie-break, `n + 1` values and `n + 1`
/// clauses, the last value being a reference to the document.
pub proof fn cursor_shape(order: Seq<Order>, new_order: Seq<Order>, doc: Document)
    requires
        !(order.len() > 0 && is_tie_break(order.last())),
        ordered_for_cursor(order, new_order),
    ensures
        cursor_values(order, doc).len() == order.len() + 1,
        cursor_values(order, doc).last() == ValueModel::Reference(doc.name@),
        new_order.len() == order.len() + 1,
        new_order.last().field_path@ == name_path(),
        new_order.last().direction == SortDirection::Ascending,
{
}

/// A second cursor operation does not add a second tie-break clause: the
/// ordering after it is as long as after the first and differs at most in the
/// tie-break clause itself.
pub proof fn cursor_ordering_idempotent(
    s1: State,
    s2: State,
    s3: State,
    d1: Document,
    d2: Document,
    start1: bool,
    start2: bool,
    before1: bool,
    before2: bool,
)
    requires
        cursor_applied(s1, s2, d1, start1, before1, true),
        cursor_applied(s2, s3, d2, start2, before2, true),
    ensures
        s3.order_by@.len() == s2.order_by@.len(),
        s3.order_by@.drop_last() == s2.order_by@.drop_last(),
        is_tie_break(s3.order_by@.last()),
{
}

/// The wire code of a direction.
pub open spec fn direction_code(d: SortDirection) -> i32 {
    match d {
        SortDirection::Ascending => Direction::ASCENDING,
        SortDirection::Descending => Direction::DESCENDING,
    }
}

/// The wire code of an operator.
pub open spec fn operator_code(op: FilterOperator) -> i32 {
    match op {
        FilterOperator::LessThan => Operator::LESS_THAN,
        FilterOperator::LessThanOrEqual => Operator::LESS_THAN_OR_EQUAL,
        FilterOperator::GreaterThan => Operator::GREATER_THAN,
        FilterOperator::GreaterThanOrEqual => Operator::GREATER_THAN_OR_EQUAL,
        FilterOperator::Equal => Operator::EQUAL,
        FilterOperator::NotEqual => Operator::NOT_EQUAL,
        FilterOperator::ArrayContains => Operator::ARRAY_CONTAINS,
        FilterOperator::In => Operator::IN,
        FilterOperator::ArrayContainsAny => Operator::ARRAY_CONTAINS_ANY,
        FilterOperator::NotIn => Operator::NOT_IN,
    }
}

impl SortDirection {
    /// The direction's wire code.
    pub fn code(self) -> (r: i32)
        ensures
            r == direction_code(self),
    {
        match self {
            SortDirection::Ascending => Direction::ASCENDING,
            SortDirection::Descending => Direction::DESCENDING,
        }
    }

    /// The direction with wire code `code`; `None` for an unknown code.
    pub fn from_code(code: i32) -> (r: Option<SortDirection>)
        ensures
            match r {
                Some(d) => direction_code(d) == code,
                None => forall|d: SortDirection| direction_code(d) != code,
            },
    {
        if code == 1 {
            Some(SortDirection::Ascending)
        } else if code == 2 {
            Some(SortDirection::Descending)
        } else {
            None
        }
    }
}

impl FilterOperator {
    /// The operator's wire code.
    pub fn code(self) -> (r: i32)
        ensures
            r == operator_code(self),
    {
        match self {
            FilterOperator::LessThan => Operator::LESS_THAN,
            FilterOperator::LessThanOrEqual => Operator::LESS_THAN_OR_EQUAL,
            FilterOperator::GreaterThan => Operator::GREATER_THAN,
            FilterOperator::GreaterThanOrEqual => Operator::GREATER_THAN_OR_EQUAL,
            FilterOperator::Equal => Operator::EQUAL,
            FilterOperator::NotEqual => Operator::NOT_EQUAL,
            FilterOperator::ArrayContains => Operator::ARRAY_CONTAINS,
            FilterOperator::In => Operator::IN,
            FilterOperator::ArrayContainsAny => Operator::ARRAY_CONTAINS_ANY,
            FilterOperator::NotIn => Operator::NOT_IN,
        }
    }

    /// The operator with wire code `code`; `None` for an unknown code.
    pub fn from_code(code: i32) -> (r: Option<FilterOperator>)
        ensures
            match r {
                Some(op) => operator_code(op) == code,
                None => forall|op: FilterOperator| operator_code(op) != code,
            },
    {
        match code {
            1 => Some(FilterOperator::LessThan),
            2 => Some(FilterOperator::LessThanOrEqual),
            3 => Some(FilterOperator::GreaterThan),
            4 => Some(FilterOperator::GreaterThanOrEqual),
            5 => Some(FilterOperator::Equal),
            6 => Some(FilterOperator::NotEqual),
            7 => Some(FilterOperator::ArrayContains),
            8 => Some(FilterOperator::In),
            9 => Some(FilterOperator::ArrayContainsAny),
            10 => Some(FilterOperator::NotIn),
            _ => None,
        }
    }
}

} // verus!
