//! Schema-aware persistence core: a self-describing codec for numeric
//! sequences and a zero-loss schema migration engine, with the small value
//! types that the layers around them share.
//!
//! The codec ([`codec`]) turns a sequence of integers into one blob and back:
//! differences, zigzag, varints, an LZ4 block, a fixed header. The migration
//! engine ([`migrations`]) compares what a model expects of its table with
//! what the live table is, and decides, one command at a time, how a table
//! that drifted is rebuilt without losing a row. Neither touches a database:
//! statements and queries are handed out as text, and what a driver found is
//! handed in as plain values.

pub mod codec;
pub mod database;
pub mod error;
pub mod filter_ops;
pub mod filters;
pub mod migrations;
pub mod operations;
pub mod pagination;
pub mod query;
pub mod scan;
pub mod text;
pub mod traits;
pub mod types;
pub mod value;

pub use codec::floating::FloatingCodec;
pub use codec::header::CodecError;
pub use codec::integer::IntegerCodec;
pub use error::Error;
pub use filter_ops::{Filter, FilterOperations, FilterOperator, FilterValue};
pub use filters::{SearchFilter, Sort};
pub use migrations::compare::compare_schemas;
pub use migrations::config::MigrationConfig;
pub use migrations::ddl::{generate_create_table_sql, generate_data_migration_sql};
pub use migrations::dialect::{field_type_to_sqlite_type, Dialect};
pub use migrations::executor::{Command, Migration, Reply};
pub use migrations::schema::{
    ColumnInfo, MigrationAction, MigrationResult, SchemaComparison,
};
pub use operations::CrudOperations;
pub use pagination::{CursorPaginatedResult, CursorPagination, PaginatedResult, Pagination};
pub use query::{QueryBuilder, QueryResult};
pub use traits::FieldType;
pub use types::{Aggregate, JoinType, Operator, SortOrder};
pub use value::Value;
