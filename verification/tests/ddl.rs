use orso::migrations::ddl::{column_definition, generate_create_table_sql, generate_data_migration_sql};
use orso::migrations::dialect::{field_type_to_postgres_type, field_type_to_sqlite_type, Dialect};
use orso::migrations::model::{infer_schema_from_orso, MigrationError, ModelSchema};
use orso::migrations::schema::ColumnInfo;
use orso::traits::FieldType;

fn column(name: &str, sql_type: &str, position: i32, nullable: bool) -> ColumnInfo {
    ColumnInfo {
        name: name.to_string(),
        sql_type: sql_type.to_string(),
        nullable,
        position,
        is_unique: false,
        is_primary_key: false,
        foreign_key_reference: None,
        has_default: false,
        is_compressed: false,
    }
}

fn model() -> ModelSchema {
    ModelSchema {
        table_name: "users".to_string(),
        primary_key_field: "id".to_string(),
        created_at_field: Some("created_at".to_string()),
        updated_at_field: None,
        unique_fields: vec!["email".to_string()],
        field_names: vec![
            "id".to_string(),
            "email".to_string(),
            "age".to_string(),
            "scores".to_string(),
            "created_at".to_string(),
        ],
        field_types: vec![
            FieldType::Text,
            FieldType::Text,
            FieldType::BigInt,
            FieldType::Text,
            FieldType::Timestamp,
        ],
        field_nullable: vec![true, false, false, true, true],
        field_compressed: vec![false, false, false, true, false],
    }
}

#[test]
fn sqlite_type_names() {
    assert_eq!(field_type_to_sqlite_type(&FieldType::Text), "TEXT");
    assert_eq!(field_type_to_sqlite_type(&FieldType::Integer), "INTEGER");
    assert_eq!(field_type_to_sqlite_type(&FieldType::BigInt), "INTEGER");
    assert_eq!(field_type_to_sqlite_type(&FieldType::Numeric), "REAL");
    assert_eq!(field_type_to_sqlite_type(&FieldType::Boolean), "INTEGER");
    assert_eq!(field_type_to_sqlite_type(&FieldType::JsonB), "TEXT");
    assert_eq!(field_type_to_sqlite_type(&FieldType::Timestamp), "TEXT");
}

#[test]
fn postgres_type_names() {
    assert_eq!(field_type_to_postgres_type(&FieldType::Text), "TEXT");
    assert_eq!(field_type_to_postgres_type(&FieldType::Integer), "INTEGER");
    assert_eq!(field_type_to_postgres_type(&FieldType::BigInt), "BIGINT");
    assert_eq!(field_type_to_postgres_type(&FieldType::Numeric), "DOUBLE PRECISION");
    assert_eq!(field_type_to_postgres_type(&FieldType::Boolean), "BOOLEAN");
    assert_eq!(field_type_to_postgres_type(&FieldType::JsonB), "JSONB");
    assert_eq!(field_type_to_postgres_type(&FieldType::Timestamp), "TIMESTAMP WITH TIME ZONE");
}

#[test]
fn inferred_columns_sqlite() {
    let cols = infer_schema_from_orso(&model(), Dialect::Sqlite).unwrap();
    assert_eq!(cols.len(), 5);
    assert_eq!(cols[0].name, "id");
    assert_eq!(cols[0].sql_type, "TEXT");
    assert!(cols[0].nullable);
    assert!(cols[0].is_primary_key);
    assert!(cols[0].is_unique);
    assert!(cols[0].has_default);
    assert_eq!(cols[1].position, 1);
    assert!(cols[1].is_unique);
    assert!(!cols[1].is_primary_key);
    assert!(!cols[1].has_default);
    assert_eq!(cols[2].sql_type, "INTEGER");
    assert!(!cols[2].is_unique);
    assert_eq!(cols[3].sql_type, "BLOB");
    assert!(cols[3].is_compressed);
    assert_eq!(cols[4].sql_type, "TEXT");
    assert!(cols[4].has_default);
    assert!(cols.iter().all(|c| c.foreign_key_reference.is_none()));
}

#[test]
fn inferred_columns_postgres() {
    let cols = infer_schema_from_orso(&model(), Dialect::Postgres).unwrap();
    assert!(!cols[0].nullable);
    assert_eq!(cols[2].sql_type, "BIGINT");
    assert_eq!(cols[3].sql_type, "BYTEA");
    assert_eq!(cols[4].sql_type, "TIMESTAMP WITH TIME ZONE");
    assert_eq!(cols[4].position, 4);
}

#[test]
fn mismatched_lists_are_an_error() {
    let mut m = model();
    m.field_types.pop();
    let e = infer_schema_from_orso(&m, Dialect::Sqlite).unwrap_err();
    assert!(matches!(e, MigrationError::SchemaInference));
    assert_eq!(e.to_string(), "Mismatched field arrays in Orso implementation");
    let mut m = model();
    m.field_nullable.push(true);
    assert!(infer_schema_from_orso(&m, Dialect::Postgres).is_err());
    let mut m = model();
    m.field_compressed.pop();
    assert!(infer_schema_from_orso(&m, Dialect::Postgres).is_err());
}

#[test]
fn database_error_text() {
    let e = MigrationError::Database {
        label: "Failed to create temp table".to_string(),
        detail: "disk full".to_string(),
    };
    assert_eq!(e.to_string(), "Failed to create temp table: disk full");
}

#[test]
fn create_table_sqlite() {
    let cols = infer_schema_from_orso(&model(), Dialect::Sqlite).unwrap();
    let sql = generate_create_table_sql(Dialect::Sqlite, "users", &cols);
    assert_eq!(
        sql,
        "CREATE TABLE IF NOT EXISTS \"users\" (\n  \"id\" TEXT PRIMARY KEY DEFAULT (lower(hex(randomblob(16)))),\n  \"email\" TEXT NOT NULL,\n  \"age\" INTEGER NOT NULL,\n  \"scores\" BLOB,\n  \"created_at\" TEXT DEFAULT (strftime('%Y-%m-%dT%H:%M:%S.000Z', 'now')),\n  UNIQUE (\"email\")\n)"
    );
}

#[test]
fn create_table_postgres() {
    let cols = infer_schema_from_orso(&model(), Dialect::Postgres).unwrap();
    let sql = generate_create_table_sql(Dialect::Postgres, "users_temp_17", &cols);
    assert_eq!(
        sql,
        "CREATE TABLE IF NOT EXISTS \"users_temp_17\" (\n  \"id\" TEXT NOT NULL PRIMARY KEY DEFAULT gen_random_uuid(),\n  \"email\" TEXT NOT NULL,\n  \"age\" BIGINT NOT NULL,\n  \"scores\" BYTEA,\n  \"created_at\" TIMESTAMP WITH TIME ZONE DEFAULT NOW(),\n  UNIQUE (\"email\")\n)"
    );
}

#[test]
fn primary_key_gets_no_second_uniqueness_constraint() {
    let mut id = column("id", "INTEGER", 0, false);
    id.is_primary_key = true;
    id.is_unique = true;
    let sql = generate_create_table_sql(Dialect::Sqlite, "t", &[id]);
    assert_eq!(sql, "CREATE TABLE IF NOT EXISTS \"t\" (\n  \"id\" INTEGER NOT NULL PRIMARY KEY\n)");
    assert_eq!(sql.matches("UNIQUE").count(), 0);
}

#[test]
fn create_table_without_columns() {
    let sql = generate_create_table_sql(Dialect::Sqlite, "t", &[]);
    assert_eq!(sql, "CREATE TABLE IF NOT EXISTS \"t\" (\n  \n)");
}

#[test]
fn foreign_keys_are_inline() {
    let mut owner = column("owner", "TEXT", 0, false);
    owner.foreign_key_reference = Some("users".to_string());
    assert_eq!(
        column_definition(Dialect::Sqlite, &owner),
        "\"owner\" TEXT NOT NULL REFERENCES users(id)"
    );
    owner.foreign_key_reference = Some("users.uid".to_string());
    assert_eq!(
        column_definition(Dialect::Postgres, &owner),
        "\"owner\" TEXT NOT NULL REFERENCES users(uid)"
    );
    owner.foreign_key_reference = Some("a.b.c".to_string());
    assert_eq!(
        column_definition(Dialect::Postgres, &owner),
        "\"owner\" TEXT NOT NULL REFERENCES a(b.c)"
    );
}

#[test]
fn copy_statement_sqlite() {
    let source = vec![column("id", "TEXT", 0, true), column("name", "TEXT", 1, false), column("gone", "TEXT", 2, true)];
    let target = vec![
        column("id", "TEXT", 0, true),
        column("name", "TEXT", 1, false),
        column("note", "TEXT", 2, true),
        column("title", "TEXT", 3, false),
        column("count", "INTEGER", 4, false),
        column("ratio", "REAL", 5, false),
        column("blob", "BLOB", 6, false),
    ];
    let sql = generate_data_migration_sql(Dialect::Sqlite, "users", "users_temp_5", &source, &target);
    assert_eq!(
        sql,
        "INSERT INTO \"users_temp_5\" (\"id\", \"name\", \"note\", \"title\", \"count\", \"ratio\", \"blob\") SELECT \"id\", \"name\", NULL, '', 0, 0.0, X'' FROM \"users\" ORDER BY rowid"
    );
}

#[test]
fn copy_statement_postgres() {
    let source = vec![column("id", "TEXT", 0, true)];
    let target = vec![
        column("id", "TEXT", 0, true),
        column("big", "BIGINT", 1, false),
        column("num", "DOUBLE PRECISION", 2, false),
        column("flag", "BOOLEAN", 3, false),
    ];
    let sql = generate_data_migration_sql(Dialect::Postgres, "t", "t_temp_1", &source, &target);
    assert_eq!(
        sql,
        "INSERT INTO \"t_temp_1\" (\"id\", \"big\", \"num\", \"flag\") SELECT \"id\", 0, 0.0, FALSE FROM \"t\""
    );
}

#[test]
fn compressed_columns_are_copied_as_they_are() {
    let mut packed = column("series", "BLOB", 0, false);
    packed.is_compressed = true;
    let sql = generate_data_migration_sql(Dialect::Sqlite, "m", "m_temp_9", &[packed.clone()], &[packed]);
    assert_eq!(sql, "INSERT INTO \"m_temp_9\" (\"series\") SELECT \"series\" FROM \"m\" ORDER BY rowid");
}

#[test]
fn a_model_is_registered_field_by_field() {
    let m = ModelSchema::new("users")
        .field("id", FieldType::of_rust_type("String"), true, false)
        .field("email", FieldType::of_rust_type("String"), false, false)
        .field("age", FieldType::of_rust_type("i64"), false, false)
        .field("scores", FieldType::of_rust_type("Vec"), true, true)
        .field("created_at", FieldType::Timestamp, true, false)
        .unique("email")
        .created_at("created_at");
    let built = infer_schema_from_orso(&m, Dialect::Sqlite).unwrap();
    let given = infer_schema_from_orso(&model(), Dialect::Sqlite).unwrap();
    assert_eq!(
        generate_create_table_sql(Dialect::Sqlite, "users", &built),
        generate_create_table_sql(Dialect::Sqlite, "users", &given)
    );
    assert_eq!(m.primary_key_field, "id");
    assert!(m.updated_at_field.is_none());
    let m = m.primary_key("email").updated_at("created_at");
    assert_eq!(m.primary_key_field, "email");
    assert_eq!(m.updated_at_field, Some("created_at".to_string()));
    assert_eq!(m.field_names.len(), 5);
    assert!(infer_schema_from_orso(&ModelSchema::new("t"), Dialect::Postgres).unwrap().is_empty());
}

#[test]
fn field_types_by_rust_type() {
    assert_eq!(FieldType::of_rust_type("String"), FieldType::Text);
    assert_eq!(FieldType::of_rust_type("i64"), FieldType::BigInt);
    assert_eq!(FieldType::of_rust_type("u64"), FieldType::BigInt);
    for t in ["i32", "i16", "i8", "u32", "u16", "u8"] {
        assert_eq!(FieldType::of_rust_type(t), FieldType::Integer);
    }
    assert_eq!(FieldType::of_rust_type("f64"), FieldType::Numeric);
    assert_eq!(FieldType::of_rust_type("f32"), FieldType::Numeric);
    assert_eq!(FieldType::of_rust_type("bool"), FieldType::Boolean);
    assert_eq!(FieldType::of_rust_type("Uuid"), FieldType::Text);
    assert_eq!(FieldType::of_rust_type(""), FieldType::Text);
}

#[test]
fn a_required_column_is_never_filled_with_null() {
    let source = vec![column("id", "TEXT", 0, true)];
    let types = [
        ("TEXT", "''"),
        ("INTEGER", "0"),
        ("BIGINT", "0"),
        ("REAL", "0.0"),
        ("DOUBLE PRECISION", "0.0"),
        ("BOOLEAN", "FALSE"),
        ("BLOB", "X''"),
        ("BYTEA", "''::bytea"),
        ("JSONB", "'{}'::jsonb"),
        ("TIMESTAMP WITH TIME ZONE", "'1970-01-01T00:00:00Z'::timestamptz"),
        ("SOMETHING ELSE", "''"),
    ];
    for dialect in [Dialect::Sqlite, Dialect::Postgres] {
        for (sql_type, literal) in types {
            let target = vec![column("id", "TEXT", 0, true), column("fresh", sql_type, 1, false)];
            let sql = generate_data_migration_sql(dialect, "t", "t_temp_1", &source, &target);
            let order = if dialect == Dialect::Sqlite { " ORDER BY rowid" } else { "" };
            assert_eq!(
                sql,
                format!("INSERT INTO \"t_temp_1\" (\"id\", \"fresh\") SELECT \"id\", {literal} FROM \"t\"{order}")
            );
            assert!(!sql.contains("NULL"));
            let mut optional = column("fresh", sql_type, 1, false);
            optional.nullable = true;
            let target = vec![column("id", "TEXT", 0, true), optional];
            let sql = generate_data_migration_sql(dialect, "t", "t_temp_1", &source, &target);
            assert!(sql.contains("SELECT \"id\", NULL FROM"));
        }
    }
}
