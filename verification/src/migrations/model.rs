//! The model schema descriptor and the columns it asks for.
//!
//! A model describes itself by parallel lists, one entry per field: names,
//! semantic types, nullability and compression. How the lists are made from
//! the model's definition is not this library's part.

use crate::migrations::dialect::Dialect;
use crate::migrations::schema::{column_specs, ColumnInfo, ColumnSpec};
use crate::text::str_eq;
use crate::traits::FieldType;
use vstd::prelude::*;
use vstd::string::*;

verus! {

/// What a model declares of its table.
#[derive(Debug, Clone)]
pub struct ModelSchema {
    /// The table's name when the caller gives no other.
    pub table_name: String,
    /// The name of the primary key field.
    pub primary_key_field: String,
    /// The field that holds the time of creation, if there is one.
    pub created_at_field: Option<String>,
    /// The field that holds the time of the last change, if there is one.
    pub updated_at_field: Option<String>,
    /// The fields that must be unique.
    pub unique_fields: Vec<String>,
    /// Field names, in column order.
    pub field_names: Vec<String>,
    /// The semantic type of each field.
    pub field_types: Vec<FieldType>,
    /// Whether each field may be null.
    pub field_nullable: Vec<bool>,
    /// Whether each field is stored as a codec blob.
    pub field_compressed: Vec<bool>,
}

/// Why a migration failed.
#[derive(Debug)]
pub enum MigrationError {
    /// The descriptor's lists are not of one length: a mistake in the model's
    /// definition.
    SchemaInference,
    /// A statement or catalog query failed: what was being done, and what the
    /// driver said.
    Database { label: String, detail: String },
}

/// The message that goes with a descriptor whose lists differ in length.
pub open spec fn schema_inference_message() -> Seq<char> {
    "Mismatched field arrays in Orso implementation"@
}

impl MigrationError {
    /// The error as text: for a failed statement, `<label>: <detail>`.
    pub open spec fn text(self) -> Seq<char> {
        match self {
            MigrationError::SchemaInference => schema_inference_message(),
            MigrationError::Database { label, detail } => label@ + ": "@ + detail@,
        }
    }

    /// The error as text.
    pub fn to_string(&self) -> (s: String)
        ensures
            s@ == self.text(),
    {
        match self {
            MigrationError::SchemaInference => {
                "Mismatched field arrays in Orso implementation".to_owned()
            },
            MigrationError::Database { label, detail } => {
                let mut s = label.clone();
                s.append(": ");
                s.append(detail.as_str());
                s
            },
        }
    }
}

impl ModelSchema {
    /// The lists are of one length, so that there is a definite number of
    /// fields.
    pub open spec fn consistent(self) -> bool {
        self.field_names@.len() == self.field_types@.len() && self.field_names@.len()
            == self.field_nullable@.len() && self.field_names@.len()
            == self.field_compressed@.len()
    }

    /// Whether `name` is among the unique fields.
    pub open spec fn declared_unique(self, name: Seq<char>) -> bool {
        exists|k: int| 0 <= k < self.unique_fields@.len() && (#[trigger] self.unique_fields@[k])@
            == name
    }

    /// Whether `name` is the creation-time or the change-time field.
    pub open spec fn is_timestamp(self, name: Seq<char>) -> bool {
        (self.created_at_field matches Some(f) && f@ == name) || (
        self.updated_at_field matches Some(f) && f@ == name)
    }

    /// The column that field `i` asks for. A compressed field is an opaque
    /// binary column. The primary key counts as unique. A text primary key
    /// and the timestamp fields have defaults that the engine computes.
    pub open spec fn column(self, dialect: Dialect, i: int) -> ColumnSpec {
        let name = self.field_names@[i]@;
        let is_key = name == self.primary_key_field@;
        let sql_type = if self.field_compressed@[i] {
            dialect.blob_type()
        } else {
            dialect.column_type(self.field_types@[i])
        };
        ColumnSpec {
            name,
            sql_type,
            nullable: if is_key && dialect.key_never_null() {
                false
            } else {
                self.field_nullable@[i]
            },
            position: i,
            is_unique: self.declared_unique(name) || is_key,
            is_primary_key: is_key,
            foreign_key_reference: None,
            has_default: (is_key && sql_type == "TEXT"@) || self.is_timestamp(name),
            is_compressed: self.field_compressed@[i],
        }
    }

    /// The columns the model asks for, in field order.
    pub open spec fn columns(self, dialect: Dialect) -> Seq<ColumnSpec> {
        Seq::new(self.field_names@.len(), |i: int| self.column(dialect, i))
    }
}

impl ModelSchema {
    /// The descriptor of a table with no fields yet, whose primary key is
    /// called `id`.
    pub fn new(table_name: &str) -> (m: Self)
        ensures
            m.table_name@ == table_name@,
            m.primary_key_field@ == "id"@,
            m.created_at_field is None,
            m.updated_at_field is None,
            m.unique_fields@.len() == 0,
            m.field_names@.len() == 0,
            m.consistent(),
    {
        ModelSchema {
            table_name: table_name.to_owned(),
            primary_key_field: "id".to_owned(),
            created_at_field: None,
            updated_at_field: None,
            unique_fields: Vec::new(),
            field_names: Vec::new(),
            field_types: Vec::new(),
            field_nullable: Vec::new(),
            field_compressed: Vec::new(),
        }
    }

    /// The same descriptor with one more field at the end. The lists stay of
    /// one length where they were.
    pub fn field(self, name: &str, field_type: FieldType, nullable: bool, compressed: bool) -> (m:
        Self)
        ensures
            m.field_names@.len() == self.field_names@.len() + 1,
            m.field_names@.drop_last() == self.field_names@,
            m.field_names@.last()@ == name@,
            m.field_types@ == self.field_types@.push(field_type),
            m.field_nullable@ == self.field_nullable@.push(nullable),
            m.field_compressed@ == self.field_compressed@.push(compressed),
            self.consistent() ==> m.consistent(),
            m == (ModelSchema {
                field_names: m.field_names,
                field_types: m.field_types,
                field_nullable: m.field_nullable,
                field_compressed: m.field_compressed,
                ..self
            }),
    {
        let mut m = self;
        m.field_names.push(name.to_owned());
        m.field_types.push(field_type);
        m.field_nullable.push(nullable);
        m.field_compressed.push(compressed);
        assert(m.field_names@.drop_last() =~= self.field_names@);
        m
    }

    /// The same descriptor with `name` for the primary key field.
    pub fn primary_key(self, name: &str) -> (m: Self)
        ensures
            m.primary_key_field@ == name@,
            m == (ModelSchema { primary_key_field: m.primary_key_field, ..self }),
    {
        ModelSchema { primary_key_field: name.to_owned(), ..self }
    }

    /// The same descriptor with `name` among the unique fields.
    pub fn unique(self, name: &str) -> (m: Self)
        ensures
            m.unique_fields@.len() == self.unique_fields@.len() + 1,
            m.unique_fields@.drop_last() == self.unique_fields@,
            m.unique_fields@.last()@ == name@,
            m == (ModelSchema { unique_fields: m.unique_fields, ..self }),
    {
        let mut m = self;
        m.unique_fields.push(name.to_owned());
        assert(m.unique_fields@.drop_last() =~= self.unique_fields@);
        m
    }

    /// The same descriptor with `name` for the creation-time field.
    pub fn created_at(self, name: &str) -> (m: Self)
        ensures
            m.created_at_field matches Some(f) && f@ == name@,
            m == (ModelSchema { created_at_field: m.created_at_field, ..self }),
    {
        ModelSchema { created_at_field: Some(name.to_owned()), ..self }
    }

    /// The same descriptor with `name` for the change-time field.
    pub fn updated_at(self, name: &str) -> (m: Self)
        ensures
            m.updated_at_field matches Some(f) && f@ == name@,
            m == (ModelSchema { updated_at_field: m.updated_at_field, ..self }),
    {
        ModelSchema { updated_at_field: Some(name.to_owned()), ..self }
    }
}

/// Whether `name` is in `list`.
pub fn contains_name(list: &Vec<String>, name: &String) -> (found: bool)
    ensures
        found == exists|k: int| 0 <= k < list@.len() && (#[trigger] list@[k])@ == name@,
{
    let mut k: usize = 0;
    while k < list.len()
        invariant
            k <= list@.len(),
            forall|j: int| 0 <= j < k ==> (#[trigger] list@[j])@ != name@,
        decreases list@.len() - k,
    {
        if list[k] == *name {
            return true;
        }
        k = k + 1;
    }
    false
}

/// Whether an optional field name is `name`.
fn names_field(field: &Option<String>, name: &String) -> (same: bool)
    ensures
        same == (*field matches Some(f) && f@ == name@),
{
    match field {
        Some(f) => *f == *name,
        None => false,
    }
}

/// The columns a model asks for. Fails where the descriptor's lists are not
/// of one length, and only there.
pub fn infer_schema_from_orso(model: &ModelSchema, dialect: Dialect) -> (r: Result<
    Vec<ColumnInfo>,
    MigrationError,
>)
    requires
        model.field_names@.len() <= i32::MAX,
    ensures
        model.consistent() ==> r is Ok && column_specs(r->Ok_0@) == model.columns(dialect),
        !model.consistent() ==> r is Err && r->Err_0 is SchemaInference,
{
    let n = model.field_names.len();
    if n != model.field_types.len() || n != model.field_nullable.len() || n
        != model.field_compressed.len() {
        return Err(MigrationError::SchemaInference);
    }
    let mut columns: Vec<ColumnInfo> = Vec::new();
    let mut i: usize = 0;
    while i < n
        invariant
            i <= n,
            n == model.field_names@.len(),
            n <= i32::MAX,
            model.consistent(),
            columns@.len() == i,
            forall|j: int| 0 <= j < i ==> (#[trigger] columns@[j])@ == model.column(dialect, j),
        decreases n - i,
    {
        let name = &model.field_names[i];
        let compressed = model.field_compressed[i];
        let is_key = *name == model.primary_key_field;
        let sql_type = if compressed {
            dialect.blob_type_name().to_owned()
        } else {
            dialect.sql_type(&model.field_types[i])
        };
        let is_text = str_eq(sql_type.as_str(), "TEXT");
        let is_timestamp = names_field(&model.created_at_field, name) || names_field(
            &model.updated_at_field,
            name,
        );
        let key_never_null = match dialect {
            Dialect::Sqlite => false,
            Dialect::Postgres => true,
        };
        let column = ColumnInfo {
            name: name.clone(),
            sql_type,
            nullable: if is_key && key_never_null {
                false
            } else {
                model.field_nullable[i]
            },
            position: i as i32,
            is_unique: contains_name(&model.unique_fields, name) || is_key,
            is_primary_key: is_key,
            foreign_key_reference: None,
            has_default: (is_key && is_text) || is_timestamp,
            is_compressed: compressed,
        };
        columns.push(column);
        i = i + 1;
    }
    assert(column_specs(columns@) =~= model.columns(dialect));
    Ok(columns)
}

} // verus!
