use orso::migrations::config::MigrationConfig;
use orso::migrations::dialect::Dialect;
use orso::migrations::executor::{Command, Migration, Reply, Stage};
use orso::migrations::model::MigrationError;
use orso::migrations::schema::{ColumnInfo, MigrationAction};

fn column(name: &str, sql_type: &str, position: i32) -> ColumnInfo {
    ColumnInfo {
        name: name.to_string(),
        sql_type: sql_type.to_string(),
        nullable: true,
        position,
        is_unique: false,
        is_primary_key: false,
        foreign_key_reference: None,
        has_default: false,
        is_compressed: false,
    }
}

fn expected() -> Vec<ColumnInfo> {
    vec![column("id", "TEXT", 0), column("email", "TEXT", 1)]
}

fn sql_of(command: &Command) -> String {
    match command {
        Command::Execute(sql) => sql.clone(),
        Command::CountRows(sql) => sql.clone(),
        other => panic!("no statement: {:?}", other),
    }
}

#[test]
fn first_command_asks_for_the_table() {
    let (m, c) = Migration::begin(Dialect::Sqlite, "users", expected(), MigrationConfig::default());
    assert_eq!(m.stage, Stage::CheckingExists);
    match c {
        Command::TableExists(q) => {
            assert_eq!(q.sql, "SELECT name FROM sqlite_master WHERE type='table' AND name='users'");
            assert!(q.params.is_empty());
        }
        other => panic!("unexpected {:?}", other),
    }
    let (_, c) = Migration::begin(Dialect::Postgres, "users", expected(), MigrationConfig::default());
    match c {
        Command::TableExists(q) => {
            assert_eq!(
                q.sql,
                "SELECT table_name FROM information_schema.tables WHERE table_schema = 'public' AND table_name = $1"
            );
            assert_eq!(q.params, vec!["users".to_string()]);
        }
        other => panic!("unexpected {:?}", other),
    }
}

#[test]
fn missing_table_is_created_sqlite() {
    let (m, _) = Migration::begin(Dialect::Sqlite, "users", expected(), MigrationConfig::default());
    let (m, c) = m.step(Reply::Exists(false));
    assert_eq!(sql_of(&c), "PRAGMA foreign_keys = ON");
    let (m, c) = m.step(Reply::Done);
    assert_eq!(sql_of(&c), "CREATE TABLE IF NOT EXISTS \"users\" (\n  \"id\" TEXT,\n  \"email\" TEXT\n)");
    let (m, c) = m.step(Reply::Done);
    assert_eq!(m.stage, Stage::Finished);
    match c {
        Command::Finish(r) => {
            assert!(matches!(r.action, MigrationAction::TableCreated));
            assert_eq!(r.action.to_string(), "TableCreated");
            assert!(r.backup_table.is_none());
            assert!(r.rows_migrated.is_none());
            assert_eq!(r.schema_changes, vec!["Created table users from schema".to_string()]);
        }
        other => panic!("unexpected {:?}", other),
    }
}

#[test]
fn missing_table_is_created_postgres() {
    let (m, _) = Migration::begin(Dialect::Postgres, "users", expected(), MigrationConfig::default());
    let (m, c) = m.step(Reply::Exists(false));
    assert_eq!(sql_of(&c), "CREATE TABLE IF NOT EXISTS \"users\" (\n  \"id\" TEXT,\n  \"email\" TEXT\n)");
    let (_, c) = m.step(Reply::Done);
    assert!(matches!(c, Command::Finish(_)));
}

#[test]
fn matching_table_is_left_alone() {
    let (m, _) = Migration::begin(Dialect::Sqlite, "users", expected(), MigrationConfig::default());
    let (m, c) = m.step(Reply::Exists(true));
    match c {
        Command::ReadSchema(table) => assert_eq!(table, "users"),
        other => panic!("unexpected {:?}", other),
    }
    let (m, c) = m.step(Reply::Schema(expected()));
    assert_eq!(m.stage, Stage::Finished);
    match c {
        Command::Finish(r) => {
            assert!(matches!(r.action, MigrationAction::SchemaMatched));
            assert_eq!(r.action.to_string(), "SchemaMatched");
            assert!(r.backup_table.is_none());
            assert!(r.rows_migrated.is_none());
            assert!(r.schema_changes.is_empty());
        }
        other => panic!("unexpected {:?}", other),
    }
}

#[test]
fn drifted_table_is_rebuilt() {
    let mut model = expected();
    model[1].is_unique = true;
    let (m, _) = Migration::begin(Dialect::Sqlite, "users", model, MigrationConfig::default());
    let (m, _) = m.step(Reply::Exists(true));
    let (m, c) = m.step(Reply::Schema(expected()));
    assert!(matches!(c, Command::ReadClock));
    assert_eq!(m.changes, vec!["Unique constraint mismatch for email: false vs true".to_string()]);
    let (m, c) = m.step(Reply::Clock(1700000000));
    assert_eq!(
        sql_of(&c),
        "CREATE TABLE IF NOT EXISTS \"users_temp_1700000000\" (\n  \"id\" TEXT,\n  \"email\" TEXT,\n  UNIQUE (\"email\")\n)"
    );
    let (m, c) = m.step(Reply::Done);
    assert_eq!(
        sql_of(&c),
        "INSERT INTO \"users_temp_1700000000\" (\"id\", \"email\") SELECT \"id\", \"email\" FROM \"users\" ORDER BY rowid"
    );
    let (m, c) = m.step(Reply::Done);
    assert_eq!(sql_of(&c), "ALTER TABLE users RENAME TO users_migration_1700000000");
    let (m, c) = m.step(Reply::Done);
    assert_eq!(sql_of(&c), "ALTER TABLE users_temp_1700000000 RENAME TO users");
    let (m, c) = m.step(Reply::Done);
    assert!(matches!(c, Command::CountRows(_)));
    assert_eq!(sql_of(&c), "SELECT COUNT(*) FROM users");
    let (m, c) = m.step(Reply::Count(1));
    match c {
        Command::ListBackups(q) => {
            assert_eq!(
                q.sql,
                "SELECT name FROM sqlite_master WHERE type='table' AND name LIKE 'users_migration_%'"
            );
        }
        other => panic!("unexpected {:?}", other),
    }
    let (m, c) = m.step(Reply::Names(vec!["users_migration_1700000000".to_string()]));
    assert!(matches!(c, Command::ReadClock));
    let (m, c) = m.step(Reply::Clock(1700000001));
    assert_eq!(m.stage, Stage::Finished);
    match c {
        Command::Finish(r) => {
            assert_eq!(r.action.to_string(), "DataMigrated from users_migration_1700000000 to users");
            assert_eq!(r.backup_table, Some("users_migration_1700000000".to_string()));
            assert_eq!(r.rows_migrated, Some(1));
            assert_eq!(r.schema_changes, vec!["Unique constraint mismatch for email: false vs true".to_string()]);
        }
        other => panic!("unexpected {:?}", other),
    }
}

#[test]
fn rebuild_sweeps_old_backups_postgres() {
    let mut model = expected();
    model.push(column("age", "BIGINT", 2));
    let config = MigrationConfig::new(Some(2), Some(30), Some("bak".to_string()));
    let (m, _) = Migration::begin(Dialect::Postgres, "t", model, config);
    let (m, _) = m.step(Reply::Exists(true));
    let (m, _) = m.step(Reply::Schema(expected()));
    let (m, _) = m.step(Reply::Clock(5000));
    let (m, c) = m.step(Reply::Done);
    assert_eq!(
        sql_of(&c),
        "INSERT INTO \"t_temp_5000\" (\"id\", \"email\", \"age\") SELECT \"id\", \"email\", NULL FROM \"t\""
    );
    let (m, c) = m.step(Reply::Done);
    assert_eq!(sql_of(&c), "ALTER TABLE t RENAME TO t_bak_5000");
    let (m, _) = m.step(Reply::Done);
    let (m, _) = m.step(Reply::Done);
    let (m, c) = m.step(Reply::Count(-3));
    assert_eq!(m.rows, 0);
    match c {
        Command::ListBackups(q) => {
            assert_eq!(
                q.sql,
                "SELECT table_name FROM information_schema.tables WHERE table_schema = 'public' AND table_name LIKE $1"
            );
            assert_eq!(q.params, vec!["t_bak_%".to_string()]);
        }
        other => panic!("unexpected {:?}", other),
    }
    let names = vec![
        "t_bak_100".to_string(),
        "t_bak_5000".to_string(),
        "t_bak_300".to_string(),
        "t_bak_200".to_string(),
        "t_bak_x".to_string(),
    ];
    let (m, _) = m.step(Reply::Names(names));
    let (m, c) = m.step(Reply::Clock(5001));
    assert_eq!(m.stage, Stage::Dropping);
    assert_eq!(sql_of(&c), "DROP TABLE IF EXISTS \"t_bak_200\"");
    let (m, c) = m.step(Reply::Done);
    assert_eq!(sql_of(&c), "DROP TABLE IF EXISTS \"t_bak_100\"");
    let (m, c) = m.step(Reply::Done);
    assert_eq!(m.stage, Stage::Finished);
    match c {
        Command::Finish(r) => {
            assert_eq!(r.backup_table, Some("t_bak_5000".to_string()));
            assert_eq!(r.rows_migrated, Some(0));
            assert_eq!(
                r.schema_changes,
                vec!["Column count differs: 2 vs 3".to_string(), "Missing column: age".to_string()]
            );
        }
        other => panic!("unexpected {:?}", other),
    }
}

#[test]
fn failures_carry_the_step() {
    let (m, _) = Migration::begin(Dialect::Sqlite, "users", expected(), MigrationConfig::default());
    let e = m.failure("no such database".to_string());
    assert_eq!(e.to_string(), "Failed to check table existence: no such database");
    let (m, _) = m.step(Reply::Exists(true));
    assert_eq!(m.failure("x".to_string()).to_string(), "Failed to get table info: x");
    let mut model = expected();
    model[0].nullable = false;
    let (m, _) = Migration::begin(Dialect::Sqlite, "users", model, MigrationConfig::default());
    let (m, _) = m.step(Reply::Exists(true));
    let (m, _) = m.step(Reply::Schema(expected()));
    let (m, _) = m.step(Reply::Clock(7));
    assert_eq!(m.failure("x".to_string()).to_string(), "Failed to create temp table: x");
    let (m, _) = m.step(Reply::Done);
    assert_eq!(m.failure("x".to_string()).to_string(), "Failed to migrate data: x");
    let (m, _) = m.step(Reply::Done);
    assert_eq!(m.failure("x".to_string()).to_string(), "Failed to create backup: x");
    let (m, _) = m.step(Reply::Done);
    assert_eq!(m.failure("x".to_string()).to_string(), "Failed to rename new table: x");
    let (m, _) = m.step(Reply::Done);
    assert_eq!(m.failure("x".to_string()).to_string(), "Failed to verify migration: x");
    let (m, _) = m.step(Reply::Count(0));
    let e = m.failure("x".to_string());
    assert!(matches!(e, MigrationError::Database { .. }));
    assert_eq!(e.to_string(), "Failed to query migration tables: x");
}
