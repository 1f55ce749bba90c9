//! What differs between the storage engines: type names and the defaults the
//! engine computes. The migration engine takes the dialect as a parameter and
//! is otherwise the same for both.

use crate::traits::FieldType;
use vstd::prelude::*;
use vstd::string::*;

verus! {

/// The storage engine a statement is written for.
#[derive(Debug, Clone, Copy, PartialEq, Eq, Structural)]
pub enum Dialect {
    /// The embedded single-file engine.
    Sqlite,
    /// The client/server engine.
    Postgres,
}

/// The column type of a field in the embedded engine.
pub open spec fn sqlite_type(field_type: FieldType) -> Seq<char> {
    match field_type {
        FieldType::Text => "TEXT"@,
        FieldType::Integer => "INTEGER"@,
        FieldType::BigInt => "INTEGER"@,
        FieldType::Numeric => "REAL"@,
        FieldType::Boolean => "INTEGER"@,
        FieldType::JsonB => "TEXT"@,
        FieldType::Timestamp => "TEXT"@,
    }
}

/// The column type of a field in the client/server engine.
pub open spec fn postgres_type(field_type: FieldType) -> Seq<char> {
    match field_type {
        FieldType::Text => "TEXT"@,
        FieldType::Integer => "INTEGER"@,
        FieldType::BigInt => "BIGINT"@,
        FieldType::Numeric => "DOUBLE PRECISION"@,
        FieldType::Boolean => "BOOLEAN"@,
        FieldType::JsonB => "JSONB"@,
        FieldType::Timestamp => "TIMESTAMP WITH TIME ZONE"@,
    }
}

/// The column type of a field in the embedded engine.
pub fn field_type_to_sqlite_type(field_type: &FieldType) -> (s: String)
    ensures
        s@ == sqlite_type(*field_type),
{
    match field_type {
        FieldType::Text => "TEXT".to_owned(),
        FieldType::Integer => "INTEGER".to_owned(),
        FieldType::BigInt => "INTEGER".to_owned(),
        FieldType::Numeric => "REAL".to_owned(),
        FieldType::Boolean => "INTEGER".to_owned(),
        FieldType::JsonB => "TEXT".to_owned(),
        FieldType::Timestamp => "TEXT".to_owned(),
    }
}

/// The column type of a field in the client/server engine.
pub fn field_type_to_postgres_type(field_type: &FieldType) -> (s: String)
    ensures
        s@ == postgres_type(*field_type),
{
    match field_type {
        FieldType::Text => "TEXT".to_owned(),
        FieldType::Integer => "INTEGER".to_owned(),
        FieldType::BigInt => "BIGINT".to_owned(),
        FieldType::Numeric => "DOUBLE PRECISION".to_owned(),
        FieldType::Boolean => "BOOLEAN".to_owned(),
        FieldType::JsonB => "JSONB".to_owned(),
        FieldType::Timestamp => "TIMESTAMP WITH TIME ZONE".to_owned(),
    }
}

impl Dialect {
    /// The column type of a field.
    pub open spec fn column_type(self, field_type: FieldType) -> Seq<char> {
        match self {
            Dialect::Sqlite => sqlite_type(field_type),
            Dialect::Postgres => postgres_type(field_type),
        }
    }

    /// The type of an opaque binary column, which is what a compressed field
    /// is stored in.
    pub open spec fn blob_type(self) -> Seq<char> {
        match self {
            Dialect::Sqlite => "BLOB"@,
            Dialect::Postgres => "BYTEA"@,
        }
    }

    /// The expression by which the engine makes up a random text key.
    pub open spec fn random_key_default(self) -> Seq<char> {
        match self {
            Dialect::Sqlite => "(lower(hex(randomblob(16))))"@,
            Dialect::Postgres => "gen_random_uuid()"@,
        }
    }

    /// The expression by which the engine gives the present moment.
    pub open spec fn now_default(self) -> Seq<char> {
        match self {
            Dialect::Sqlite => "(strftime('%Y-%m-%dT%H:%M:%S.000Z', 'now'))"@,
            Dialect::Postgres => "NOW()"@,
        }
    }

    /// What follows the copy statement's `FROM` clause: the embedded engine
    /// copies in row order.
    pub open spec fn copy_order(self) -> Seq<char> {
        match self {
            Dialect::Sqlite => " ORDER BY rowid"@,
            Dialect::Postgres => ""@,
        }
    }

    /// Whether a primary key is made non-nullable whatever the model says.
    pub open spec fn key_never_null(self) -> bool {
        self == Dialect::Postgres
    }

    /// The column type of a field.
    pub fn sql_type(&self, field_type: &FieldType) -> (s: String)
        ensures
            s@ == self.column_type(*field_type),
    {
        match self {
            Dialect::Sqlite => field_type_to_sqlite_type(field_type),
            Dialect::Postgres => field_type_to_postgres_type(field_type),
        }
    }

    /// The type of an opaque binary column.
    pub fn blob_type_name(&self) -> (s: &'static str)
        ensures
            s@ == self.blob_type(),
    {
        match self {
            Dialect::Sqlite => "BLOB",
            Dialect::Postgres => "BYTEA",
        }
    }

    /// The expression by which the engine makes up a random text key.
    pub fn random_key_default_sql(&self) -> (s: &'static str)
        ensures
            s@ == self.random_key_default(),
    {
        match self {
            Dialect::Sqlite => "(lower(hex(randomblob(16))))",
            Dialect::Postgres => "gen_random_uuid()",
        }
    }

    /// The expression by which the engine gives the present moment.
    pub fn now_default_sql(&self) -> (s: &'static str)
        ensures
            s@ == self.now_default(),
    {
        match self {
            Dialect::Sqlite => "(strftime('%Y-%m-%dT%H:%M:%S.000Z', 'now'))",
            Dialect::Postgres => "NOW()",
        }
    }

    /// What follows the copy statement's `FROM` clause.
    pub fn copy_order_sql(&self) -> (s: &'static str)
        ensures
            s@ == self.copy_order(),
    {
        match self {
            Dialect::Sqlite => " ORDER BY rowid",
            Dialect::Postgres => "",
        }
    }
}

} // verus!
