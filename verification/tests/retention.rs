use orso::migrations::config::MigrationConfig;
use orso::migrations::retention::{
    backup_table_name, check_backups_retention, get_all_migration_tables, parse_backup_timestamp,
    sort_newest_first, temp_table_name, MigrationTableInfo,
};

fn backup(name: &str, timestamp: u64) -> MigrationTableInfo {
    MigrationTableInfo { name: name.to_string(), timestamp }
}

#[test]
fn config_defaults() {
    let c = MigrationConfig::default();
    assert_eq!(c.max_backups(), 5);
    assert_eq!(c.retention_days(), 30);
    assert_eq!(c.suffix(), "migration");
    let c = MigrationConfig::new(None, None, None);
    assert_eq!(c.max_backups(), 5);
    assert_eq!(c.retention_days(), 30);
    assert_eq!(c.suffix(), "migration");
    let c = MigrationConfig::new(Some(2), Some(7), Some("bak".to_string()));
    assert_eq!(c.max_backups(), 2);
    assert_eq!(c.retention_days(), 7);
    assert_eq!(c.suffix(), "bak");
}

#[test]
fn names_of_a_migration() {
    assert_eq!(backup_table_name("users", "migration", 1700000000), "users_migration_1700000000");
    assert_eq!(temp_table_name("users", 1700000000), "users_temp_1700000000");
    assert_eq!(backup_table_name("t", "b", 0), "t_b_0");
    assert_eq!(temp_table_name("t", u64::MAX), "t_temp_18446744073709551615");
}

#[test]
fn timestamp_of_a_backup_name() {
    assert_eq!(parse_backup_timestamp("users_migration_1700000000", "migration"), Some(1700000000));
    assert_eq!(parse_backup_timestamp("users_migration_0", "migration"), Some(0));
    assert_eq!(parse_backup_timestamp("users_migration_+7", "migration"), Some(7));
    assert_eq!(parse_backup_timestamp("users_migration_007", "migration"), Some(7));
    assert_eq!(parse_backup_timestamp("users_migration_18446744073709551615", "migration"), Some(u64::MAX));
    assert_eq!(parse_backup_timestamp("users_migration_18446744073709551616", "migration"), None);
    assert_eq!(parse_backup_timestamp("users_migration_", "migration"), None);
    assert_eq!(parse_backup_timestamp("users_migration_+", "migration"), None);
    assert_eq!(parse_backup_timestamp("users_migration_-5", "migration"), None);
    assert_eq!(parse_backup_timestamp("users_migration_12x", "migration"), None);
    assert_eq!(parse_backup_timestamp("users_migration_ 12", "migration"), None);
    assert_eq!(parse_backup_timestamp("users", "migration"), None);
    assert_eq!(parse_backup_timestamp("usersXmigration_5", "migration"), None);
    assert_eq!(parse_backup_timestamp("users_temp_5", "migration"), None);
    assert_eq!(parse_backup_timestamp("a_migration_1_migration_2", "migration"), Some(1));
    assert_eq!(parse_backup_timestamp("a_migration__migration_2", "migration"), None);
    assert_eq!(parse_backup_timestamp("_m_3", "m"), Some(3));
    assert_eq!(parse_backup_timestamp("t__9", ""), Some(9));
}

#[test]
fn backups_among_table_names() {
    let names = vec![
        "users_migration_30".to_string(),
        "users".to_string(),
        "users_migration_x".to_string(),
        "users_migration_10".to_string(),
    ];
    let tables = get_all_migration_tables(&names, "migration");
    assert_eq!(tables.len(), 2);
    assert_eq!(tables[0].name, "users_migration_30");
    assert_eq!(tables[0].timestamp, 30);
    assert_eq!(tables[1].name, "users_migration_10");
    assert_eq!(tables[1].timestamp, 10);
}

#[test]
fn ranking_is_newest_first_and_stable() {
    let ranked = sort_newest_first(vec![backup("a", 5), backup("b", 9), backup("c", 5), backup("d", 1), backup("e", 9)]);
    let names: Vec<&str> = ranked.iter().map(|t| t.name.as_str()).collect();
    assert_eq!(names, vec!["b", "e", "a", "c", "d"]);
}

#[test]
fn surplus_backups_go_oldest_first_kept() {
    let now = 1_000_000u64;
    let tables: Vec<MigrationTableInfo> = (0..7).map(|i| backup(&format!("t_migration_{}", now - i * 10), now - i * 10)).collect();
    let config = MigrationConfig::default();
    let drops = check_backups_retention(tables, now, &config);
    assert_eq!(drops, vec![format!("t_migration_{}", now - 50), format!("t_migration_{}", now - 60)]);
}

#[test]
fn nothing_goes_within_the_limits() {
    let now = 1_000_000u64;
    let tables: Vec<MigrationTableInfo> = (0..5).map(|i| backup(&format!("b{}", i), now - i)).collect();
    assert!(check_backups_retention(tables, now, &MigrationConfig::default()).is_empty());
    assert!(check_backups_retention(Vec::new(), now, &MigrationConfig::default()).is_empty());
}

#[test]
fn old_backups_go_whatever_their_rank() {
    let day = 86400u64;
    let now = 100 * day;
    let tables = vec![backup("fresh", now - 1), backup("month", now - 30 * day - day + 1), backup("old", now - 31 * day), backup("ancient", 0)];
    let drops = check_backups_retention(tables, now, &MigrationConfig::default());
    assert_eq!(drops, vec!["old".to_string(), "ancient".to_string()]);
}

#[test]
fn a_backup_from_the_future_has_no_age() {
    let tables = vec![backup("future", 2_000_000_000)];
    let drops = check_backups_retention(tables, 1_000, &MigrationConfig::default());
    assert!(drops.is_empty());
}

#[test]
fn keeping_no_backup_drops_all() {
    let config = MigrationConfig::new(Some(0), Some(30), None);
    let drops = check_backups_retention(vec![backup("a", 10), backup("b", 20)], 30, &config);
    assert_eq!(drops, vec!["b".to_string(), "a".to_string()]);
}
