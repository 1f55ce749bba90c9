use orso::error::Error;
use orso::migrations::dialect::Dialect;
use orso::operations::CrudOperations;

fn names(list: &[&str]) -> Vec<String> {
    list.iter().map(|s| s.to_string()).collect()
}

#[test]
fn insert_statements() {
    let cols = names(&["id", "name", "age"]);
    assert_eq!(
        CrudOperations::insert_statement(Dialect::Sqlite, "users", &cols),
        "INSERT INTO users (id, name, age) VALUES (?, ?, ?)"
    );
    assert_eq!(
        CrudOperations::insert_statement(Dialect::Postgres, "users", &cols),
        "INSERT INTO users (id, name, age) VALUES ($1, $2, $3)"
    );
    assert_eq!(CrudOperations::insert_statement(Dialect::Postgres, "t", &Vec::new()), "INSERT INTO t () VALUES ()");
    let many: Vec<String> = (0..12).map(|i| format!("c{}", i)).collect();
    assert!(CrudOperations::insert_statement(Dialect::Postgres, "t", &many).ends_with("$9, $10, $11, $12)"));
}

#[test]
fn find_and_delete_statements() {
    assert_eq!(
        CrudOperations::find_by_id_statement(Dialect::Sqlite, "users", "id"),
        "SELECT * FROM users WHERE id = ? LIMIT 1"
    );
    assert_eq!(
        CrudOperations::find_by_id_statement(Dialect::Postgres, "users", "uid"),
        "SELECT * FROM users WHERE uid = $1 LIMIT 1"
    );
    let id = Some("7".to_string());
    assert_eq!(
        CrudOperations::delete_statement(Dialect::Sqlite, "users", "id", &id).unwrap(),
        "DELETE FROM users WHERE id = ?"
    );
    assert_eq!(
        CrudOperations::delete_statement(Dialect::Postgres, "users", "id", &id).unwrap(),
        "DELETE FROM users WHERE id = $1"
    );
    match CrudOperations::delete_statement(Dialect::Sqlite, "users", "id", &None) {
        Err(Error::Validation(m)) => assert_eq!(m, "Cannot delete record without primary key"),
        other => panic!("unexpected {:?}", other),
    }
}

#[test]
fn update_statements() {
    let cols = names(&["id", "name", "updated_at", "age"]);
    let id = Some("7".to_string());
    let stamped = Some("updated_at".to_string());
    let u = CrudOperations::update_statement(Dialect::Sqlite, "users", &cols, "id", &stamped, &id).unwrap();
    assert_eq!(
        u.sql,
        "UPDATE users SET name = ?, updated_at = strftime('%Y-%m-%dT%H:%M:%S.000Z', 'now'), age = ? WHERE id = ?"
    );
    assert_eq!(u.parameter_columns, names(&["name", "age"]));
    let u = CrudOperations::update_statement(Dialect::Postgres, "users", &cols, "id", &stamped, &id).unwrap();
    assert_eq!(u.sql, "UPDATE users SET name = $1, updated_at = NOW(), age = $2 WHERE id = $3");
    assert_eq!(u.parameter_columns, names(&["name", "age"]));
    let u = CrudOperations::update_statement(Dialect::Postgres, "users", &cols, "id", &None, &id).unwrap();
    assert_eq!(u.sql, "UPDATE users SET name = $1, updated_at = $2, age = $3 WHERE id = $4");
    assert_eq!(u.parameter_columns, names(&["name", "updated_at", "age"]));
    match CrudOperations::update_statement(Dialect::Sqlite, "users", &cols, "id", &stamped, &None) {
        Err(Error::Validation(m)) => assert_eq!(m, "Cannot update record without primary key"),
        other => panic!("unexpected {:?}", other),
    }
}

#[test]
fn upsert_needs_unique_columns() {
    assert!(CrudOperations::check_upsert(&names(&["email"])).is_ok());
    match CrudOperations::check_upsert(&Vec::new()) {
        Err(Error::Validation(m)) => assert_eq!(m, "No unique columns defined with orso_column(unique) for upsert"),
        other => panic!("unexpected {:?}", other),
    }
}

#[test]
fn quotes_are_doubled() {
    assert_eq!(CrudOperations::escape_quotes("o'neil"), "o''neil");
    assert_eq!(CrudOperations::escape_quotes("''"), "''''");
    assert_eq!(CrudOperations::escape_quotes(""), "");
    assert_eq!(CrudOperations::escape_quotes("plain"), "plain");
    assert_eq!(CrudOperations::escape_quotes("é'ß"), "é''ß");
}

#[test]
fn batch_delete_statements() {
    let ids = names(&["a", "b'c"]);
    assert_eq!(
        CrudOperations::batch_delete_statement(Dialect::Sqlite, "users", "id", &ids),
        "BEGIN;DELETE FROM users WHERE id = 'a';DELETE FROM users WHERE id = 'b''c';COMMIT"
    );
    assert_eq!(
        CrudOperations::batch_delete_statement(Dialect::Postgres, "users", "id", &ids),
        "DELETE FROM users WHERE id IN ($1, $2)"
    );
    assert_eq!(CrudOperations::batch_delete_statement(Dialect::Sqlite, "users", "id", &Vec::new()), "BEGIN;COMMIT");
}

#[test]
fn upsert_statements() {
    let cols = names(&["id", "email", "name", "updated_at"]);
    let unique = names(&["email"]);
    let stamped = Some("updated_at".to_string());
    assert_eq!(
        CrudOperations::upsert_statement(Dialect::Sqlite, "users", &cols, &unique, &stamped),
        "INSERT INTO users (id, email, name, updated_at) VALUES (?, ?, ?, ?) ON CONFLICT (email) DO UPDATE SET id = excluded.id, name = excluded.name, updated_at = strftime('%Y-%m-%dT%H:%M:%S.000Z', 'now')"
    );
    assert_eq!(
        CrudOperations::upsert_statement(Dialect::Postgres, "users", &cols, &unique, &stamped),
        "INSERT INTO users (id, email, name, updated_at) VALUES ($1, $2, $3, $4) ON CONFLICT (email) DO UPDATE SET id = EXCLUDED.id, name = EXCLUDED.name, updated_at = NOW()"
    );
    let all = names(&["a", "b"]);
    assert_eq!(
        CrudOperations::upsert_statement(Dialect::Sqlite, "t", &all, &all, &None),
        "INSERT OR IGNORE INTO t (a, b) VALUES (?, ?)"
    );
    assert_eq!(
        CrudOperations::upsert_statement(Dialect::Postgres, "t", &all, &all, &None),
        "INSERT INTO t (a, b) VALUES ($1, $2) ON CONFLICT (a, b) DO NOTHING"
    );
}

#[test]
fn upsert_lookups() {
    let unique = names(&["email", "phone", "code"]);
    let present = names(&["id", "code", "email"]);
    let u = CrudOperations::upsert_lookup_statement(Dialect::Sqlite, "users", &unique, &present).unwrap();
    assert_eq!(u.sql, "SELECT * FROM users WHERE email = ? AND code = ? LIMIT 1");
    assert_eq!(u.parameter_columns, names(&["email", "code"]));
    let u = CrudOperations::upsert_lookup_statement(Dialect::Postgres, "users", &unique, &present).unwrap();
    assert_eq!(u.sql, "SELECT * FROM users WHERE email = $1 AND code = $3 LIMIT 1");
    match CrudOperations::upsert_lookup_statement(Dialect::Sqlite, "users", &Vec::new(), &present) {
        Err(Error::Validation(m)) => assert_eq!(m, "No unique columns defined with orso_column(unique) for upsert"),
        other => panic!("unexpected {:?}", other),
    }
    match CrudOperations::upsert_lookup_statement(Dialect::Sqlite, "users", &unique, &names(&["id"])) {
        Err(Error::Validation(m)) => assert_eq!(m, "No valid unique column values found for upsert"),
        other => panic!("unexpected {:?}", other),
    }
}
