//! The statements and catalog queries of a migration, as text. Table names
//! go into most of them as they are; the client/server engine takes them as
//! parameters where it can.

use crate::migrations::ddl::{quote, quoted};
use crate::migrations::dialect::Dialect;
use crate::migrations::retention::{backup_prefix, backup_table_prefix};
use crate::text::views;
use vstd::prelude::*;
use vstd::string::*;

verus! {

/// A catalog query: its text, and the parameters that go with it in order.
#[derive(Debug, Clone)]
pub struct CatalogQuery {
    pub sql: String,
    pub params: Vec<String>,
}

/// A catalog query as a mathematical value.
pub struct QuerySpec {
    pub sql: Seq<char>,
    pub params: Seq<Seq<char>>,
}

impl View for CatalogQuery {
    type V = QuerySpec;

    open spec fn view(&self) -> QuerySpec {
        QuerySpec { sql: self.sql@, params: views(self.params@) }
    }
}

/// The statement that makes the embedded engine enforce foreign keys.
pub open spec fn foreign_keys_on() -> Seq<char> {
    "PRAGMA foreign_keys = ON"@
}

/// The query that returns a row exactly if the table exists.
pub open spec fn table_exists_query(dialect: Dialect, table: Seq<char>) -> QuerySpec {
    match dialect {
        Dialect::Sqlite => QuerySpec {
            sql: "SELECT name FROM sqlite_master WHERE type='table' AND name='"@ + table + "'"@,
            params: Seq::empty(),
        },
        Dialect::Postgres => QuerySpec {
            sql: "SELECT table_name FROM information_schema.tables WHERE table_schema = 'public' AND table_name = $1"@,
            params: seq![table],
        },
    }
}

/// The query for the column listing of a table.
pub open spec fn columns_query(dialect: Dialect, table: Seq<char>) -> QuerySpec {
    match dialect {
        Dialect::Sqlite => QuerySpec {
            sql: "PRAGMA table_info("@ + table + ")"@,
            params: Seq::empty(),
        },
        Dialect::Postgres => QuerySpec {
            sql: "SELECT column_name, data_type, is_nullable, ordinal_position, column_default FROM information_schema.columns WHERE table_schema = 'public' AND table_name = $1 ORDER BY ordinal_position"@,
            params: seq![table],
        },
    }
}

/// The query for the constraints of a table: the index listing in the
/// embedded engine, primary key and unique constraints by column in the
/// client/server engine.
pub open spec fn constraints_query(dialect: Dialect, table: Seq<char>) -> QuerySpec {
    match dialect {
        Dialect::Sqlite => QuerySpec {
            sql: "PRAGMA index_list("@ + table + ")"@,
            params: Seq::empty(),
        },
        Dialect::Postgres => QuerySpec {
            sql: "SELECT kcu.column_name, tc.constraint_type FROM information_schema.table_constraints tc JOIN information_schema.key_column_usage kcu ON tc.constraint_name = kcu.constraint_name WHERE tc.table_schema = 'public' AND tc.table_name = $1 AND tc.constraint_type IN ('PRIMARY KEY', 'UNIQUE')"@,
            params: seq![table],
        },
    }
}

/// The embedded engine's query for the columns of an index.
pub open spec fn index_columns_query(index: Seq<char>) -> Seq<char> {
    "PRAGMA index_info("@ + index + ")"@
}

/// The query for the foreign keys of a table.
pub open spec fn foreign_keys_query(dialect: Dialect, table: Seq<char>) -> QuerySpec {
    match dialect {
        Dialect::Sqlite => QuerySpec {
            sql: "PRAGMA foreign_key_list("@ + table + ")"@,
            params: Seq::empty(),
        },
        Dialect::Postgres => QuerySpec {
            sql: "SELECT kcu.column_name, ccu.table_name AS referenced_table_name, ccu.column_name AS referenced_column_name FROM information_schema.referential_constraints rc JOIN information_schema.key_column_usage kcu ON rc.constraint_name = kcu.constraint_name JOIN information_schema.constraint_column_usage ccu ON rc.unique_constraint_name = ccu.constraint_name WHERE kcu.table_schema = 'public' AND kcu.table_name = $1"@,
            params: seq![table],
        },
    }
}

/// The query for the tables whose names start like a backup of `table`.
pub open spec fn backups_query(dialect: Dialect, table: Seq<char>, suffix: Seq<char>) -> QuerySpec {
    match dialect {
        Dialect::Sqlite => QuerySpec {
            sql: "SELECT name FROM sqlite_master WHERE type='table' AND name LIKE '"@
                + backup_prefix(table, suffix) + "%'"@,
            params: Seq::empty(),
        },
        Dialect::Postgres => QuerySpec {
            sql: "SELECT table_name FROM information_schema.tables WHERE table_schema = 'public' AND table_name LIKE $1"@,
            params: seq![backup_prefix(table, suffix) + "%"@],
        },
    }
}

/// The statement that renames a table.
pub open spec fn rename_sql(from: Seq<char>, to: Seq<char>) -> Seq<char> {
    "ALTER TABLE "@ + from + " RENAME TO "@ + to
}

/// The query that counts the rows of a table.
pub open spec fn count_sql(table: Seq<char>) -> Seq<char> {
    "SELECT COUNT(*) FROM "@ + table
}

/// The statement that drops a table if it exists.
pub open spec fn drop_sql(table: Seq<char>) -> Seq<char> {
    "DROP TABLE IF EXISTS "@ + quoted(table)
}

/// What a foreign key of the client/server engine refers to, as text:
/// `table.column`.
pub open spec fn postgres_reference(table: Seq<char>, column: Seq<char>) -> Seq<char> {
    table + "."@ + column
}

/// A query with no parameters.
fn plain_query(sql: String) -> (q: CatalogQuery)
    ensures
        q@ == (QuerySpec { sql: sql@, params: Seq::empty() }),
{
    let q = CatalogQuery { sql, params: Vec::new() };
    assert(views(q.params@) =~= Seq::<Seq<char>>::empty());
    q
}

/// A query with one parameter.
fn query_with(sql: &str, param: String) -> (q: CatalogQuery)
    ensures
        q@ == (QuerySpec { sql: sql@, params: seq![param@] }),
{
    let mut params: Vec<String> = Vec::new();
    params.push(param);
    assert(views(params@) =~= seq![param@]);
    CatalogQuery { sql: sql.to_owned(), params }
}

/// `<before><name><after>`.
fn wrap(before: &str, name: &str, after: &str) -> (s: String)
    ensures
        s@ == before@ + name@ + after@,
{
    let mut s = before.to_owned();
    s.append(name);
    s.append(after);
    s
}

/// The query that returns a row exactly if the table exists.
pub fn table_exists(dialect: Dialect, table: &str) -> (q: CatalogQuery)
    ensures
        q@ == table_exists_query(dialect, table@),
{
    match dialect {
        Dialect::Sqlite => plain_query(
            wrap("SELECT name FROM sqlite_master WHERE type='table' AND name='", table, "'"),
        ),
        Dialect::Postgres => query_with(
            "SELECT table_name FROM information_schema.tables WHERE table_schema = 'public' AND table_name = $1",
            table.to_owned(),
        ),
    }
}

/// The query for the column listing of a table.
pub fn list_columns(dialect: Dialect, table: &str) -> (q: CatalogQuery)
    ensures
        q@ == columns_query(dialect, table@),
{
    match dialect {
        Dialect::Sqlite => plain_query(wrap("PRAGMA table_info(", table, ")")),
        Dialect::Postgres => query_with(
            "SELECT column_name, data_type, is_nullable, ordinal_position, column_default FROM information_schema.columns WHERE table_schema = 'public' AND table_name = $1 ORDER BY ordinal_position",
            table.to_owned(),
        ),
    }
}

/// The query for the constraints of a table.
pub fn list_constraints(dialect: Dialect, table: &str) -> (q: CatalogQuery)
    ensures
        q@ == constraints_query(dialect, table@),
{
    match dialect {
        Dialect::Sqlite => plain_query(wrap("PRAGMA index_list(", table, ")")),
        Dialect::Postgres => query_with(
            "SELECT kcu.column_name, tc.constraint_type FROM information_schema.table_constraints tc JOIN information_schema.key_column_usage kcu ON tc.constraint_name = kcu.constraint_name WHERE tc.table_schema = 'public' AND tc.table_name = $1 AND tc.constraint_type IN ('PRIMARY KEY', 'UNIQUE')",
            table.to_owned(),
        ),
    }
}

/// The embedded engine's query for the columns of an index.
pub fn list_index_columns(index: &str) -> (sql: String)
    ensures
        sql@ == index_columns_query(index@),
{
    wrap("PRAGMA index_info(", index, ")")
}

/// The query for the foreign keys of a table.
pub fn list_foreign_keys(dialect: Dialect, table: &str) -> (q: CatalogQuery)
    ensures
        q@ == foreign_keys_query(dialect, table@),
{
    match dialect {
        Dialect::Sqlite => plain_query(wrap("PRAGMA foreign_key_list(", table, ")")),
        Dialect::Postgres => query_with(
            "SELECT kcu.column_name, ccu.table_name AS referenced_table_name, ccu.column_name AS referenced_column_name FROM information_schema.referential_constraints rc JOIN information_schema.key_column_usage kcu ON rc.constraint_name = kcu.constraint_name JOIN information_schema.constraint_column_usage ccu ON rc.unique_constraint_name = ccu.constraint_name WHERE kcu.table_schema = 'public' AND kcu.table_name = $1",
            table.to_owned(),
        ),
    }
}

/// The query for the tables whose names start like a backup of `table`.
pub fn list_backups(dialect: Dialect, table: &str, suffix: &str) -> (q: CatalogQuery)
    ensures
        q@ == backups_query(dialect, table@, suffix@),
{
    let prefix = backup_table_prefix(table, suffix);
    match dialect {
        Dialect::Sqlite => plain_query(
            wrap(
                "SELECT name FROM sqlite_master WHERE type='table' AND name LIKE '",
                prefix.as_str(),
                "%'",
            ),
        ),
        Dialect::Postgres => {
            let mut pattern = prefix;
            pattern.append("%");
            query_with(
                "SELECT table_name FROM information_schema.tables WHERE table_schema = 'public' AND table_name LIKE $1",
                pattern,
            )
        },
    }
}

/// The statement that renames a table.
pub fn rename_table(from: &str, to: &str) -> (sql: String)
    ensures
        sql@ == rename_sql(from@, to@),
{
    let mut sql = wrap("ALTER TABLE ", from, " RENAME TO ");
    sql.append(to);
    sql
}

/// The query that counts the rows of a table.
pub fn count_rows(table: &str) -> (sql: String)
    ensures
        sql@ == count_sql(table@),
{
    let mut sql = "SELECT COUNT(*) FROM ".to_owned();
    sql.append(table);
    sql
}

/// The statement that drops a table if it exists.
pub fn drop_table(table: &str) -> (sql: String)
    ensures
        sql@ == drop_sql(table@),
{
    let mut sql = "DROP TABLE IF EXISTS ".to_owned();
    sql.append(quote(table).as_str());
    sql
}

/// What a foreign key of the client/server engine refers to, as text.
pub fn reference_text(table: &str, column: &str) -> (s: String)
    ensures
        s@ == postgres_reference(table@, column@),
{
    wrap(table, ".", column)
}

} // verus!
