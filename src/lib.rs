//! Builds the text of the basic SQL statements of a record type
//! (`INSERT`, `UPDATE`, `DELETE` and `SELECT` by identifier) from an
//! explicit description of its fields.
//!
//! A record is described by its fields in declaration order, one of which
//! is marked as the row identifier. [`sql`] checks that description and
//! hands back a [`Schema`], whose methods produce each statement for a
//! table name and a parameter prefix (`"$"` for PostgreSQL, `"@P"` for
//! SQL Server).

mod decimal;
mod laws;
mod schema;
mod text;

pub use decimal::{decimal, decimal_value, lemma_decimal_value, push_decimal};
pub use laws::{lemma_generation_repeatable, lemma_id_cases, lemma_placeholder_numbering};
pub use schema::{
    duplicate_id, field_names, is_id_at, no_id, sole_id, sql, FieldDecl, Schema, SchemaError,
    SchemaView,
};
pub use text::{
    assignments, delete_text, insert_text, join, placeholder, placeholders, select_text,
    update_text, where_id_text,
};
