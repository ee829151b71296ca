//! Plans the SQL persistence code of a record type: from a description of
//! the record's declaration it works out the table name, the column types and
//! the text of the statements that create, drop and fill the table.

mod columns;
mod decl;
mod plan;
mod sql;
mod text;

pub use columns::{columns, field_sql_type};
pub use decl::{Column, FieldDecl, FieldType, ModelError, RecordData, RecordDecl};
pub use plan::{plan_model, ModelPlan};
pub use sql::{create_table_sql, drop_table_sql, insert_sql};
pub use text::{append_comma_list, table_name};
