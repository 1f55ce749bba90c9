use orso::migrations::catalog::{
    column_from_postgres_row, column_from_sqlite_row, get_current_table_schema, is_unique_index,
    postgres_column_of, sort_by_position, sqlite_column_of, ConstraintRow, ForeignKeyRow,
    PostgresColumnRow, SqliteColumnRow,
};
use orso::migrations::dialect::Dialect;
use orso::migrations::statements::{
    count_rows, drop_table, list_backups, list_columns, list_constraints, list_foreign_keys,
    list_index_columns, reference_text, rename_table, table_exists,
};

fn sqlite_row(cid: i32, name: &str, ty: &str, not_null: i32, default: Option<&str>, pk: i32) -> SqliteColumnRow {
    SqliteColumnRow {
        cid,
        name: name.to_string(),
        declared_type: ty.to_string(),
        not_null,
        default_value: default.map(|s| s.to_string()),
        pk,
    }
}

#[test]
fn sqlite_rows_become_columns() {
    let c = column_from_sqlite_row(&sqlite_row(2, "scores", "blob", 1, None, 0));
    assert_eq!(c.name, "scores");
    assert_eq!(c.sql_type, "BLOB");
    assert!(!c.nullable);
    assert_eq!(c.position, 2);
    assert!(!c.is_unique);
    assert!(!c.is_primary_key);
    assert!(c.foreign_key_reference.is_none());
    assert!(!c.has_default);
    assert!(c.is_compressed);
    let c = column_from_sqlite_row(&sqlite_row(0, "id", "Text", 0, Some("x"), 1));
    assert_eq!(c.sql_type, "TEXT");
    assert!(c.nullable);
    assert!(c.is_primary_key);
    assert!(c.has_default);
    assert!(!c.is_compressed);
}

#[test]
fn postgres_rows_become_columns() {
    let row = PostgresColumnRow {
        name: "data".to_string(),
        data_type: "bytea".to_string(),
        is_nullable: "YES".to_string(),
        ordinal_position: 3,
        column_default: None,
    };
    let c = column_from_postgres_row(&row);
    assert_eq!(c.sql_type, "BYTEA");
    assert!(c.nullable);
    assert_eq!(c.position, 2);
    assert!(c.is_compressed);
    assert!(!c.is_primary_key);
    let row = PostgresColumnRow {
        name: "n".to_string(),
        data_type: "double precision".to_string(),
        is_nullable: "NO".to_string(),
        ordinal_position: i32::MIN,
        column_default: Some("0".to_string()),
    };
    let c = column_from_postgres_row(&row);
    assert_eq!(c.sql_type, "DOUBLE PRECISION");
    assert!(!c.nullable);
    assert_eq!(c.position, i32::MIN);
    assert!(c.has_default);
    assert!(!c.is_compressed);
}

#[test]
fn unique_index_flag() {
    assert!(is_unique_index(1));
    assert!(is_unique_index(-1));
    assert!(!is_unique_index(0));
}

#[test]
fn columns_are_ordered_by_position() {
    let listed = vec![
        column_from_sqlite_row(&sqlite_row(2, "c", "TEXT", 0, None, 0)),
        column_from_sqlite_row(&sqlite_row(0, "a", "TEXT", 0, None, 0)),
        column_from_sqlite_row(&sqlite_row(2, "d", "TEXT", 0, None, 0)),
        column_from_sqlite_row(&sqlite_row(1, "b", "TEXT", 0, None, 0)),
    ];
    let sorted = sort_by_position(&listed);
    let names: Vec<&str> = sorted.iter().map(|c| c.name.as_str()).collect();
    assert_eq!(names, vec!["a", "b", "c", "d"]);
}

#[test]
fn listings_are_merged_by_column_name() {
    let listed = vec![
        column_from_sqlite_row(&sqlite_row(1, "email", "TEXT", 1, None, 0)),
        column_from_sqlite_row(&sqlite_row(0, "id", "TEXT", 0, None, 0)),
        column_from_sqlite_row(&sqlite_row(2, "owner", "TEXT", 0, None, 0)),
    ];
    let constraints = vec![
        ConstraintRow { column: "id".to_string(), kind: "PRIMARY KEY".to_string() },
        ConstraintRow { column: "email".to_string(), kind: "UNIQUE".to_string() },
        ConstraintRow { column: "owner".to_string(), kind: "CHECK".to_string() },
        ConstraintRow { column: "nobody".to_string(), kind: "UNIQUE".to_string() },
    ];
    let keys = vec![
        ForeignKeyRow { column: "owner".to_string(), reference: "people".to_string() },
        ForeignKeyRow { column: "owner".to_string(), reference: "users".to_string() },
    ];
    let cols = get_current_table_schema(&listed, &constraints, &keys);
    assert_eq!(cols.len(), 3);
    assert_eq!(cols[0].name, "id");
    assert!(cols[0].is_primary_key);
    assert!(cols[0].is_unique);
    assert_eq!(cols[1].name, "email");
    assert!(cols[1].is_unique);
    assert!(!cols[1].is_primary_key);
    assert!(!cols[1].nullable);
    assert_eq!(cols[2].name, "owner");
    assert!(!cols[2].is_unique);
    assert_eq!(cols[2].foreign_key_reference, Some("users".to_string()));
    assert!(cols[0].foreign_key_reference.is_none());
}

#[test]
fn a_missing_table_has_no_columns() {
    assert!(get_current_table_schema(&[], &[], &[]).is_empty());
}

#[test]
fn catalog_queries_sqlite() {
    let d = Dialect::Sqlite;
    assert_eq!(table_exists(d, "t").sql, "SELECT name FROM sqlite_master WHERE type='table' AND name='t'");
    assert_eq!(list_columns(d, "t").sql, "PRAGMA table_info(t)");
    assert_eq!(list_constraints(d, "t").sql, "PRAGMA index_list(t)");
    assert_eq!(list_index_columns("sqlite_autoindex_t_1"), "PRAGMA index_info(sqlite_autoindex_t_1)");
    assert_eq!(list_foreign_keys(d, "t").sql, "PRAGMA foreign_key_list(t)");
    let q = list_backups(d, "t", "migration");
    assert_eq!(q.sql, "SELECT name FROM sqlite_master WHERE type='table' AND name LIKE 't_migration_%'");
    assert!(q.params.is_empty());
}

#[test]
fn catalog_queries_postgres() {
    let d = Dialect::Postgres;
    let q = list_columns(d, "t");
    assert!(q.sql.starts_with("SELECT column_name, data_type, is_nullable, ordinal_position, column_default FROM information_schema.columns"));
    assert!(q.sql.ends_with("table_name = $1 ORDER BY ordinal_position"));
    assert_eq!(q.params, vec!["t".to_string()]);
    let q = list_constraints(d, "t");
    assert!(q.sql.contains("tc.constraint_type IN ('PRIMARY KEY', 'UNIQUE')"));
    assert_eq!(q.params, vec!["t".to_string()]);
    let q = list_foreign_keys(d, "t");
    assert!(q.sql.contains("information_schema.referential_constraints"));
    assert_eq!(q.params, vec!["t".to_string()]);
    assert_eq!(reference_text("users", "id"), "users.id");
}

#[test]
fn statements() {
    assert_eq!(rename_table("a", "b"), "ALTER TABLE a RENAME TO b");
    assert_eq!(count_rows("a"), "SELECT COUNT(*) FROM a");
    assert_eq!(drop_table("a_migration_1"), "DROP TABLE IF EXISTS \"a_migration_1\"");
}

#[test]
fn columns_of_a_given_type() {
    let c = sqlite_column_of(&sqlite_row(1, "a", "whatever", 1, None, 0), "BLOB".to_string());
    assert_eq!(c.sql_type, "BLOB");
    assert!(c.is_compressed);
    let c = sqlite_column_of(&sqlite_row(1, "a", "BLOB", 1, None, 0), "blob".to_string());
    assert_eq!(c.sql_type, "blob");
    assert!(!c.is_compressed);
    let row = PostgresColumnRow {
        name: "a".to_string(),
        data_type: "text".to_string(),
        is_nullable: "yes".to_string(),
        ordinal_position: 1,
        column_default: None,
    };
    let c = postgres_column_of(&row, "BYTEA".to_string());
    assert!(c.is_compressed);
    assert!(!c.nullable);
    assert_eq!(c.position, 0);
    let c = postgres_column_of(&row, "BLOB".to_string());
    assert!(!c.is_compressed);
}

#[test]
fn unique_index_columns_are_unique_constraints() {
    let row = ConstraintRow::unique("email".to_string());
    assert_eq!(row.column, "email");
    assert_eq!(row.kind, "UNIQUE");
    let listed = vec![column_from_sqlite_row(&sqlite_row(0, "email", "TEXT", 0, None, 0))];
    let cols = get_current_table_schema(&listed, &[row], &[]);
    assert!(cols[0].is_unique);
    assert!(!cols[0].is_primary_key);
}
