//! A fluent query builder for a Firestore-style document database.
//!
//! The builder accumulates the addressed resource, filters, ordering, cursors
//! and limit; the translation functions turn that state into plain request
//! values that a transport then sends.
pub mod request;
pub mod state;
pub mod store_field;

pub use state::{
    db, Cursor, CursorError, Direction, FieldFilter, FilterOperator, Operator, Order, SortDirection,
    State,
};
pub use store_field::{Document, Field, TaggedValue, Timestamp};
