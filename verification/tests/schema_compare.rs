use orso::migrations::compare::compare_schemas;
use orso::migrations::schema::ColumnInfo;

fn column(name: &str, sql_type: &str, position: i32) -> ColumnInfo {
    ColumnInfo {
        name: name.to_string(),
        sql_type: sql_type.to_string(),
        nullable: false,
        position,
        is_unique: false,
        is_primary_key: false,
        foreign_key_reference: None,
        has_default: false,
        is_compressed: false,
    }
}

fn users() -> Vec<ColumnInfo> {
    let mut id = column("id", "TEXT", 0);
    id.is_primary_key = true;
    id.is_unique = true;
    id.nullable = true;
    vec![id, column("name", "TEXT", 1), column("email", "TEXT", 2)]
}

#[test]
fn same_schema_needs_no_migration() {
    let r = compare_schemas(&users(), &users());
    assert!(!r.needs_migration);
    assert!(r.changes.is_empty());
    assert_eq!(r.current_columns.len(), 3);
    assert_eq!(r.expected_columns.len(), 3);
    assert_eq!(r.expected_columns[2].name, "email");
}

#[test]
fn empty_schemas_match() {
    let r = compare_schemas(&[], &[]);
    assert!(!r.needs_migration);
    assert!(r.changes.is_empty());
}

#[test]
fn gained_unique_is_one_change() {
    let current = users();
    let mut expected = users();
    expected[2].is_unique = true;
    let r = compare_schemas(&current, &expected);
    assert!(r.needs_migration);
    assert_eq!(r.changes, vec!["Unique constraint mismatch for email: false vs true".to_string()]);
}

#[test]
fn every_differing_field_is_reported() {
    let current = vec![column("a", "TEXT", 0)];
    let mut e = column("a", "INTEGER", 3);
    e.nullable = true;
    e.is_unique = true;
    e.is_primary_key = true;
    e.is_compressed = true;
    let r = compare_schemas(&current, &[e]);
    assert!(r.needs_migration);
    assert_eq!(
        r.changes,
        vec![
            "Type mismatch for a: TEXT vs INTEGER".to_string(),
            "Nullability mismatch for a: false vs true".to_string(),
            "Position mismatch for a: 0 vs 3".to_string(),
            "Unique constraint mismatch for a: false vs true".to_string(),
            "Primary key mismatch for a: false vs true".to_string(),
            "Compression mismatch for a: false vs true".to_string(),
        ]
    );
}

#[test]
fn missing_and_extra_columns_and_count() {
    let current = vec![column("a", "TEXT", 0), column("old", "TEXT", 1), column("older", "TEXT", 2)];
    let expected = vec![column("a", "TEXT", 0), column("new", "TEXT", 1)];
    let r = compare_schemas(&current, &expected);
    assert!(r.needs_migration);
    assert_eq!(
        r.changes,
        vec![
            "Column count differs: 3 vs 2".to_string(),
            "Missing column: new".to_string(),
            "Extra column: old".to_string(),
            "Extra column: older".to_string(),
        ]
    );
}

#[test]
fn negative_positions_are_written_with_a_sign() {
    let current = vec![column("a", "TEXT", -12)];
    let expected = vec![column("a", "TEXT", i32::MIN)];
    let r = compare_schemas(&current, &expected);
    assert_eq!(r.changes, vec!["Position mismatch for a: -12 vs -2147483648".to_string()]);
}

#[test]
fn a_column_is_compared_with_the_last_of_its_name() {
    let current = vec![column("a", "TEXT", 0), column("a", "INTEGER", 0)];
    let expected = vec![column("a", "INTEGER", 0)];
    let r = compare_schemas(&current, &expected);
    assert_eq!(r.changes, vec!["Column count differs: 2 vs 1".to_string()]);
}
