use orso::database::postgres::DatabaseConfig as PostgresConfig;
use orso::database::sqlite::{DatabaseConfig, TursoMode};
use orso::pagination::{CursorPaginatedResult, CursorPagination, PaginatedResult, Pagination};

#[test]
fn page_arithmetic() {
    let p = Pagination::new(3, 20);
    assert_eq!(p.page, 3);
    assert_eq!(p.per_page, 20);
    assert!(p.total.is_none());
    assert!(p.total_pages.is_none());
    assert_eq!(p.offset(), 40);
    assert_eq!(p.limit(), 20);
    assert_eq!(p.start_item(), 41);
    assert_eq!(p.end_item(), 60);
    assert!(p.has_prev());
    assert!(!p.has_next());
    assert_eq!(p.prev_page(), Some(2));
    assert_eq!(p.next_page(), None);
    let first = Pagination::default();
    assert_eq!(first.page, 1);
    assert_eq!(first.per_page, 20);
    assert_eq!(first.offset(), 0);
    assert_eq!(first.start_item(), 1);
    assert!(!first.has_prev());
    assert_eq!(first.prev_page(), None);
}

#[test]
fn totals() {
    let mut p = Pagination::new(2, 10);
    p.set_total(95);
    assert_eq!(p.total, Some(95));
    assert_eq!(p.total_pages, Some(10));
    assert!(p.has_next());
    assert_eq!(p.next_page(), Some(3));
    p.set_total(20);
    assert_eq!(p.total_pages, Some(2));
    assert!(!p.has_next());
    p.set_total(21);
    assert_eq!(p.total_pages, Some(3));
    p.set_total(0);
    assert_eq!(p.total_pages, Some(0));
    p.set_total(1);
    assert_eq!(p.total_pages, Some(1));
    let mut wide = Pagination::new(1, 1);
    wide.set_total(u64::MAX);
    assert_eq!(wide.total_pages, Some(u32::MAX));
    wide.set_total(u32::MAX as u64 + 1);
    assert_eq!(wide.total_pages, Some(u32::MAX));
    wide.set_total(u32::MAX as u64);
    assert_eq!(wide.total_pages, Some(u32::MAX));
    let mut two = Pagination::new(1, 2);
    two.set_total(u64::MAX);
    assert_eq!(two.total_pages, Some(u32::MAX));
    let mut none = Pagination::new(1, 0);
    none.set_total(0);
    assert_eq!(none.total_pages, Some(0));
    none.set_total(5);
    assert_eq!(none.total_pages, Some(u32::MAX));
}

#[test]
fn paginated_results() {
    let r = PaginatedResult::new(vec![1, 2, 3], Pagination::new(1, 3));
    assert_eq!(r.data(), &[1, 2, 3]);
    assert_eq!(r.len(), 3);
    assert!(!r.is_empty());
    assert_eq!(r.pagination().per_page, 3);
    let r = PaginatedResult::with_total(vec![1, 2, 3], Pagination::new(1, 3), 7);
    assert_eq!(r.pagination().total, Some(7));
    assert_eq!(r.pagination().total_pages, Some(3));
    let mapped = r.map(|x| format!("#{}", x * 2));
    assert_eq!(mapped.data(), &["#2".to_string(), "#4".to_string(), "#6".to_string()]);
    assert_eq!(mapped.pagination().total, Some(7));
    let empty: PaginatedResult<u8> = PaginatedResult::new(Vec::new(), Pagination::default());
    assert!(empty.is_empty());
    assert_eq!(empty.len(), 0);
}

#[test]
fn cursors() {
    let p = CursorPagination::new(50);
    assert!(p.cursor.is_none());
    assert_eq!(p.limit(), 50);
    assert!(!p.include_cursor && !p.has_next && !p.has_prev);
    assert!(p.next_cursor.is_none() && p.prev_cursor.is_none() && p.total.is_none());
    assert_eq!(CursorPagination::default().limit, 20);
    let p = CursorPagination::with_cursor(10, Some("abc".to_string()));
    assert_eq!(p.cursor, Some("abc".to_string()));
    assert!(p.has_prev);
    let p = CursorPagination::with_cursor(10, None);
    assert!(!p.has_prev);
    let mut p = CursorPagination::with_cursor_old("abc".to_string(), 5);
    assert_eq!(p.cursor, Some("abc".to_string()));
    assert_eq!(p.limit, 5);
    assert!(p.has_prev);
    p.set_cursor(None);
    assert!(p.cursor.is_none());
    assert!(p.has_prev);
    p.set_cursor(Some("x".to_string()));
    assert_eq!(p.cursor, Some("x".to_string()));
    let r = CursorPaginatedResult::new(vec!["a", "b"], p);
    assert_eq!(r.data(), &["a", "b"]);
    assert_eq!(r.pagination().limit, 5);
}

#[test]
fn database_settings() {
    let c = DatabaseConfig::new(TursoMode::Sync, "a.db".to_string(), "url".to_string(), "tok".to_string());
    assert_eq!(c.mode, TursoMode::Sync);
    assert_eq!((c.local_db_path.as_str(), c.db_url.as_str(), c.db_token.as_str()), ("a.db", "url", "tok"));
    let c = DatabaseConfig::memory();
    assert_eq!(c.mode, TursoMode::Memory);
    assert!(c.local_db_path.is_empty() && c.db_url.is_empty() && c.db_token.is_empty());
    let c = DatabaseConfig::local("a.db");
    assert_eq!(c.mode, TursoMode::Local);
    assert_eq!(c.local_db_path, "a.db");
    assert!(c.db_url.is_empty() && c.db_token.is_empty());
    let c = DatabaseConfig::sqlite("b.db");
    assert_eq!(c.mode, TursoMode::Local);
    assert_eq!(c.local_db_path, "b.db");
    let c = DatabaseConfig::remote("url", "tok");
    assert_eq!(c.mode, TursoMode::Remote);
    assert!(c.local_db_path.is_empty());
    assert_eq!((c.db_url.as_str(), c.db_token.as_str()), ("url", "tok"));
    let c = DatabaseConfig::sync("a.db", "url", "tok");
    assert_eq!(c.mode, TursoMode::Sync);
    assert_eq!((c.local_db_path.as_str(), c.db_url.as_str(), c.db_token.as_str()), ("a.db", "url", "tok"));
    let c = DatabaseConfig::embed("a.db", "url", "tok");
    assert_eq!(c.mode, TursoMode::Embed);
    assert_eq!((c.local_db_path.as_str(), c.db_url.as_str(), c.db_token.as_str()), ("a.db", "url", "tok"));
    let c = PostgresConfig::new("postgres://x");
    assert_eq!(c.connection_string, "postgres://x");
    assert_eq!(c.max_pool_size, 16);
    let c = PostgresConfig::postgres("postgres://y").with_pool_size(4);
    assert_eq!(c.connection_string, "postgres://y");
    assert_eq!(c.max_pool_size, 4);
}

#[test]
fn modes_by_name() {
    assert_eq!(TursoMode::from_name("local"), TursoMode::Local);
    assert_eq!(TursoMode::from_name("SYNC"), TursoMode::Sync);
    assert_eq!(TursoMode::from_name("Remote"), TursoMode::Remote);
    assert_eq!(TursoMode::from_name("embed"), TursoMode::Embed);
    assert_eq!(TursoMode::from_name("memory"), TursoMode::Local);
    assert_eq!(TursoMode::from_name(""), TursoMode::Local);
}

#[test]
fn modes_by_lower_case_name() {
    assert_eq!(TursoMode::from_lower("sync"), TursoMode::Sync);
    assert_eq!(TursoMode::from_lower("remote"), TursoMode::Remote);
    assert_eq!(TursoMode::from_lower("embed"), TursoMode::Embed);
    assert_eq!(TursoMode::from_lower("local"), TursoMode::Local);
    assert_eq!(TursoMode::from_lower("SYNC"), TursoMode::Local);
}

#[test]
fn offset_needs_only_the_items_before_the_page() {
    let p = Pagination::new(2, 3_000_000_000);
    assert_eq!(p.offset(), 3_000_000_000);
    assert_eq!(p.start_item(), 3_000_000_001);
    let p = Pagination::new(1, u32::MAX);
    assert_eq!(p.offset(), 0);
    assert_eq!(p.start_item(), 1);
    assert_eq!(p.end_item(), u32::MAX);
    let p = Pagination::new(u32::MAX, 1);
    assert_eq!(p.offset(), u32::MAX - 1);
    assert_eq!(p.start_item(), u32::MAX);
}
