//! Client-side query engine for a cursor-paginated tabular REST service.
//!
//! The crate models the listing pipeline of an Airtable-style table API:
//! a fluent [`QueryBuilder`] accumulates an immutable query description
//! (view, filter formula, ordered sort keys), and finalizing it produces a
//! [`Paginator`], a pull-based state machine that serves records from an
//! in-memory page buffer and asks its driver for the next page exactly when
//! the buffer is exhausted and a cursor remains.

pub mod numeral;
pub mod page;
pub mod paginator;
pub mod query;

pub use page::Record;
pub use page::RecordPage;
pub use page::SRecord;
pub use query::Base;
pub use query::QueryBuilder;
pub use query::SortDirection;
pub use query::new;
pub use paginator::FetchOutcome;
pub use paginator::Paginator;
pub use paginator::Pull;
