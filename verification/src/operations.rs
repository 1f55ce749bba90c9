//! The statements for single records: insert, find, update, delete and
//! upsert, as SQL text with placeholders. Running them is the caller's part.
//! Columns come in the order the caller gives them, and the parameters of a
//! statement are the values of its columns in that order.

use crate::error::Error;
use crate::migrations::dialect::Dialect;
use crate::migrations::model::contains_name;
use crate::text::{decimal, joined, lemma_views_push, push_decimal, push_joined, str_eq, views};
use vstd::prelude::*;
use vstd::string::*;

verus! {

/// Builds the statements for single records.
#[derive(Debug, Clone, Copy)]
pub struct CrudOperations;

/// The placeholder of parameter number `index`, counted from 1: a plain `?`
/// in the embedded engine, a numbered `$n` in the client/server engine.
pub open spec fn placeholder(dialect: Dialect, index: nat) -> Seq<char> {
    match dialect {
        Dialect::Sqlite => "?"@,
        Dialect::Postgres => "$"@ + decimal(index),
    }
}

/// The placeholders of the first `n` parameters.
pub open spec fn placeholder_list(dialect: Dialect, n: nat) -> Seq<Seq<char>> {
    Seq::new(n, |i: int| placeholder(dialect, (i + 1) as nat))
}

/// `<table> (<columns>) VALUES (<placeholders>)`: what follows the keywords
/// of an insert.
pub open spec fn insert_body(dialect: Dialect, table: Seq<char>, columns: Seq<Seq<char>>) -> Seq<
    char,
> {
    table + " ("@ + joined(columns, ", "@) + ") VALUES ("@ + joined(
        placeholder_list(dialect, columns.len()),
        ", "@,
    ) + ")"@
}

/// `INSERT INTO <table> (<columns>) VALUES (<placeholders>)`.
pub open spec fn insert_sql(dialect: Dialect, table: Seq<char>, columns: Seq<Seq<char>>) -> Seq<
    char,
> {
    "INSERT INTO "@ + insert_body(dialect, table, columns)
}

/// `SELECT * FROM <table> WHERE <key> = <placeholder> LIMIT 1`.
pub open spec fn find_by_id_sql(dialect: Dialect, table: Seq<char>, key: Seq<char>) -> Seq<char> {
    "SELECT * FROM "@ + table + " WHERE "@ + key + " = "@ + placeholder(dialect, 1) + " LIMIT 1"@
}

/// `DELETE FROM <table> WHERE <key> = <placeholder>`.
pub open spec fn delete_sql(dialect: Dialect, table: Seq<char>, key: Seq<char>) -> Seq<char> {
    "DELETE FROM "@ + table + " WHERE "@ + key + " = "@ + placeholder(dialect, 1)
}

/// The expression by which the engine stamps a changed record.
pub open spec fn stamp(dialect: Dialect) -> Seq<char> {
    match dialect {
        Dialect::Sqlite => "strftime('%Y-%m-%dT%H:%M:%S.000Z', 'now')"@,
        Dialect::Postgres => "NOW()"@,
    }
}

/// Whether an update sets column `name` at all: the key is not set.
pub open spec fn is_set(name: Seq<char>, key: Seq<char>) -> bool {
    name != key
}

/// Whether an update sets column `name` from a parameter: not the key, and
/// not the change-time column, which the engine stamps.
pub open spec fn takes_parameter(name: Seq<char>, key: Seq<char>, stamped: Option<Seq<char>>) -> bool {
    name != key && stamped != Some(name)
}

/// The columns among the first `k` that an update sets from parameters, in
/// order.
pub open spec fn parameter_columns(
    columns: Seq<Seq<char>>,
    key: Seq<char>,
    stamped: Option<Seq<char>>,
    k: nat,
) -> Seq<Seq<char>>
    decreases k,
{
    if k == 0 {
        Seq::empty()
    } else {
        parameter_columns(columns, key, stamped, (k - 1) as nat) + if takes_parameter(
            columns[k - 1],
            key,
            stamped,
        ) {
            seq![columns[k - 1]]
        } else {
            Seq::empty()
        }
    }
}

/// The `SET` clauses of an update for the first `k` columns: every column
/// but the key, the change-time column stamped by the engine, the others
/// from parameters numbered in order.
pub open spec fn set_clauses(
    dialect: Dialect,
    columns: Seq<Seq<char>>,
    key: Seq<char>,
    stamped: Option<Seq<char>>,
    k: nat,
) -> Seq<Seq<char>>
    decreases k,
{
    if k == 0 {
        Seq::empty()
    } else {
        let name = columns[k - 1];
        let before = set_clauses(dialect, columns, key, stamped, (k - 1) as nat);
        if !is_set(name, key) {
            before
        } else if stamped == Some(name) {
            before.push(name + " = "@ + stamp(dialect))
        } else {
            before.push(
                name + " = "@ + placeholder(
                    dialect,
                    parameter_columns(columns, key, stamped, (k - 1) as nat).len() + 1,
                ),
            )
        }
    }
}

/// `UPDATE <table> SET <clauses> WHERE <key> = <placeholder>`, the key's
/// placeholder numbered behind those of the set columns.
pub open spec fn update_sql(
    dialect: Dialect,
    table: Seq<char>,
    columns: Seq<Seq<char>>,
    key: Seq<char>,
    stamped: Option<Seq<char>>,
) -> Seq<char> {
    "UPDATE "@ + table + " SET "@ + joined(
        set_clauses(dialect, columns, key, stamped, columns.len()),
        ", "@,
    ) + " WHERE "@ + key + " = "@ + placeholder(
        dialect,
        parameter_columns(columns, key, stamped, columns.len()).len() + 1,
    )
}

/// The view of an optional string.
pub open spec fn option_view(s: Option<String>) -> Option<Seq<char>> {
    match s {
        Some(s) => Some(s@),
        None => None,
    }
}

/// A statement with the columns whose values are its parameters, in order.
/// In an update the key's value is one more parameter, behind them.
#[derive(Debug)]
pub struct UpdateStatement {
    pub sql: String,
    pub parameter_columns: Vec<String>,
}

/// The message for a record that cannot be updated for want of a key.
pub open spec fn update_without_key() -> Seq<char> {
    "Cannot update record without primary key"@
}

/// The message for a record that cannot be deleted for want of a key.
pub open spec fn delete_without_key() -> Seq<char> {
    "Cannot delete record without primary key"@
}

/// The message for an upsert on a model with no unique columns.
pub open spec fn upsert_without_unique() -> Seq<char> {
    "No unique columns defined with orso_column(unique) for upsert"@
}

impl CrudOperations {
    /// Appends the placeholder of parameter number `index`.
    pub fn push_placeholder(sql: &mut String, dialect: Dialect, index: usize)
        ensures
            final(sql)@ == old(sql)@ + placeholder(dialect, index as nat),
    {
        match dialect {
            Dialect::Sqlite => {
                sql.append("?");
            },
            Dialect::Postgres => {
                sql.append("$");
                push_decimal(sql, index as u64);
                assert(sql@ =~= old(sql)@ + placeholder(dialect, index as nat));
            },
        }
    }

    /// Appends what follows the keywords of an insert.
    fn push_insert_body(sql: &mut String, dialect: Dialect, table: &str, columns: &Vec<String>)
        ensures
            final(sql)@ == old(sql)@ + insert_body(dialect, table@, views(columns@)),
    {
        let mut marks: Vec<String> = Vec::new();
        let mut i: usize = 0;
        while i < columns.len()
            invariant
                i <= columns@.len(),
                views(marks@) == placeholder_list(dialect, i as nat),
            decreases columns@.len() - i,
        {
            let mut mark = String::new();
            CrudOperations::push_placeholder(&mut mark, dialect, i + 1);
            assert(mark@ =~= placeholder(dialect, (i + 1) as nat));
            proof {
                lemma_views_push(marks@, mark);
            }
            marks.push(mark);
            assert(views(marks@) =~= placeholder_list(dialect, (i + 1) as nat));
            i = i + 1;
        }
        sql.append(table);
        sql.append(" (");
        push_joined(sql, columns, ", ");
        sql.append(") VALUES (");
        push_joined(sql, &marks, ", ");
        sql.append(")");
        assert(sql@ =~= old(sql)@ + insert_body(dialect, table@, views(columns@)));
    }

    /// The statement that inserts a record with these columns.
    pub fn insert_statement(dialect: Dialect, table: &str, columns: &Vec<String>) -> (sql: String)
        ensures
            sql@ == insert_sql(dialect, table@, views(columns@)),
    {
        let mut sql = "INSERT INTO ".to_owned();
        CrudOperations::push_insert_body(&mut sql, dialect, table, columns);
        sql
    }

    /// The statement that finds the record with a given key.
    pub fn find_by_id_statement(dialect: Dialect, table: &str, key: &str) -> (sql: String)
        ensures
            sql@ == find_by_id_sql(dialect, table@, key@),
    {
        let mut sql = "SELECT * FROM ".to_owned();
        sql.append(table);
        sql.append(" WHERE ");
        sql.append(key);
        sql.append(" = ");
        CrudOperations::push_placeholder(&mut sql, dialect, 1);
        sql.append(" LIMIT 1");
        sql
    }

    /// The statement that deletes the record with a given key. A record
    /// without a key cannot be deleted.
    pub fn delete_statement(dialect: Dialect, table: &str, key: &str, id: &Option<String>) -> (r:
        Result<String, Error>)
        ensures
            match id {
                Some(_) => r matches Ok(sql) && sql@ == delete_sql(dialect, table@, key@),
                None => r matches Err(Error::Validation(m)) && m@ == delete_without_key(),
            },
    {
        if id.is_none() {
            return Err(Error::Validation("Cannot delete record without primary key".to_owned()));
        }
        let mut sql = "DELETE FROM ".to_owned();
        sql.append(table);
        sql.append(" WHERE ");
        sql.append(key);
        sql.append(" = ");
        CrudOperations::push_placeholder(&mut sql, dialect, 1);
        Ok(sql)
    }

    /// The statement that updates the record with a given key, and the
    /// columns whose values it takes. Every column but the key is set; the
    /// change-time column, where the model has one, is stamped by the engine
    /// and takes no value. A record without a key cannot be updated.
    pub fn update_statement(
        dialect: Dialect,
        table: &str,
        columns: &Vec<String>,
        key: &str,
        updated_at: &Option<String>,
        id: &Option<String>,
    ) -> (r: Result<UpdateStatement, Error>)
        requires
            columns@.len() < usize::MAX,
        ensures
            match id {
                Some(_) => r matches Ok(u) && u.sql@ == update_sql(
                    dialect,
                    table@,
                    views(columns@),
                    key@,
                    option_view(*updated_at),
                ) && views(u.parameter_columns@) == parameter_columns(
                    views(columns@),
                    key@,
                    option_view(*updated_at),
                    columns@.len(),
                ),
                None => r matches Err(Error::Validation(m)) && m@ == update_without_key(),
            },
    {
        if id.is_none() {
            return Err(Error::Validation("Cannot update record without primary key".to_owned()));
        }
        let ghost names = views(columns@);
        let ghost stamped = option_view(*updated_at);
        let mut clauses: Vec<String> = Vec::new();
        let mut taken: Vec<String> = Vec::new();
        let mut i: usize = 0;
        while i < columns.len()
            invariant
                i <= columns@.len(),
                names == views(columns@),
                stamped == option_view(*updated_at),
                views(clauses@) == set_clauses(dialect, names, key@, stamped, i as nat),
                views(taken@) == parameter_columns(names, key@, stamped, i as nat),
                taken@.len() <= i,
                columns@.len() < usize::MAX,
            decreases columns@.len() - i,
        {
            let name = &columns[i];
            assert(names[i as int] == name@);
            if !str_eq(name.as_str(), key) {
                let is_stamped = match updated_at {
                    Some(field) => *field == *name,
                    None => false,
                };
                let mut clause = name.clone();
                clause.append(" = ");
                if is_stamped {
                    match dialect {
                        Dialect::Sqlite => {
                            clause.append("strftime('%Y-%m-%dT%H:%M:%S.000Z', 'now')");
                        },
                        Dialect::Postgres => {
                            clause.append("NOW()");
                        },
                    }
                } else {
                    CrudOperations::push_placeholder(&mut clause, dialect, taken.len() + 1);
                    let column = name.clone();
                    proof {
                        lemma_views_push(taken@, column);
                    }
                    taken.push(column);
                }
                proof {
                    lemma_views_push(clauses@, clause);
                }
                clauses.push(clause);
            }
            proof {
                assert(views(clauses@) =~= set_clauses(dialect, names, key@, stamped, (i + 1) as nat));
                assert(views(taken@) =~= parameter_columns(names, key@, stamped, (i + 1) as nat));
            }
            i = i + 1;
        }
        let mut sql = "UPDATE ".to_owned();
        sql.append(table);
        sql.append(" SET ");
        push_joined(&mut sql, &clauses, ", ");
        sql.append(" WHERE ");
        sql.append(key);
        sql.append(" = ");
        CrudOperations::push_placeholder(&mut sql, dialect, taken.len() + 1);
        Ok(UpdateStatement { sql, parameter_columns: taken })
    }

    /// Whether a model can be upserted at all: it needs a unique column to
    /// find its record by.
    pub fn check_upsert(unique_columns: &Vec<String>) -> (r: Result<(), Error>)
        ensures
            unique_columns@.len() > 0 ==> r is Ok,
            unique_columns@.len() == 0 ==> (r matches Err(Error::Validation(m)) && m@
                == upsert_without_unique()),
    {
        if unique_columns.len() == 0 {
            Err(
                Error::Validation(
                    "No unique columns defined with orso_column(unique) for upsert".to_owned(),
                ),
            )
        } else {
            Ok(())
        }
    }
}

/// `text` with every single quote doubled, as a string literal of SQL
/// takes it.
pub open spec fn quotes_doubled(text: Seq<char>) -> Seq<char>
    decreases text.len(),
{
    if text.len() == 0 {
        Seq::empty()
    } else {
        quotes_doubled(text.drop_last()) + if text.last() == '\'' {
            "''"@
        } else {
            seq![text.last()]
        }
    }
}

/// One `DELETE` for each of the first `k` keys, the key written into the
/// statement as a literal.
pub open spec fn literal_deletes(table: Seq<char>, key: Seq<char>, ids: Seq<Seq<char>>, k: nat) -> Seq<
    Seq<char>,
>
    decreases k,
{
    if k == 0 {
        Seq::empty()
    } else {
        literal_deletes(table, key, ids, (k - 1) as nat).push(
            "DELETE FROM "@ + table + " WHERE "@ + key + " = '"@ + quotes_doubled(ids[k - 1])
                + "'"@,
        )
    }
}

/// The statement that deletes the records with the given keys. The embedded
/// engine gets one transaction of single deletes, the client/server engine
/// one delete over the list of keys.
pub open spec fn batch_delete_sql(dialect: Dialect, table: Seq<char>, key: Seq<char>, ids: Seq<Seq<char>>) -> Seq<
    char,
> {
    match dialect {
        Dialect::Sqlite => joined(
            seq!["BEGIN"@] + literal_deletes(table, key, ids, ids.len()) + seq!["COMMIT"@],
            ";"@,
        ),
        Dialect::Postgres => "DELETE FROM "@ + table + " WHERE "@ + key + " IN ("@ + joined(
            placeholder_list(dialect, ids.len()),
            ", "@,
        ) + ")"@,
    }
}

/// Whether `name` is in `list`.
pub open spec fn among(list: Seq<Seq<char>>, name: Seq<char>) -> bool {
    exists|k: int| 0 <= k < list.len() && #[trigger] list[k] == name
}

/// What an upsert does to the first `k` columns where the record is there
/// already: every column that is not unique is overwritten, the change-time
/// column stamped by the engine.
pub open spec fn conflict_updates(
    dialect: Dialect,
    columns: Seq<Seq<char>>,
    unique: Seq<Seq<char>>,
    stamped: Option<Seq<char>>,
    k: nat,
) -> Seq<Seq<char>>
    decreases k,
{
    if k == 0 {
        Seq::empty()
    } else {
        let name = columns[k - 1];
        let before = conflict_updates(dialect, columns, unique, stamped, (k - 1) as nat);
        if among(unique, name) {
            before
        } else if stamped == Some(name) {
            before.push(name + " = "@ + stamp(dialect))
        } else {
            before.push(name + " = "@ + excluded(dialect) + name)
        }
    }
}

/// How the row that could not be inserted is named in an upsert.
pub open spec fn excluded(dialect: Dialect) -> Seq<char> {
    match dialect {
        Dialect::Sqlite => "excluded."@,
        Dialect::Postgres => "EXCLUDED."@,
    }
}

/// The statement that inserts a record or, where one with the same unique
/// columns is there, overwrites it. Where all columns are unique there is
/// nothing to overwrite, and the insert is skipped.
pub open spec fn upsert_sql(
    dialect: Dialect,
    table: Seq<char>,
    columns: Seq<Seq<char>>,
    unique: Seq<Seq<char>>,
    stamped: Option<Seq<char>>,
) -> Seq<char> {
    let updates = conflict_updates(dialect, columns, unique, stamped, columns.len());
    let insert = insert_sql(dialect, table, columns);
    if updates.len() > 0 {
        insert + " ON CONFLICT ("@ + joined(unique, ", "@) + ") DO UPDATE SET "@ + joined(
            updates,
            ", "@,
        )
    } else {
        match dialect {
            Dialect::Sqlite => "INSERT OR IGNORE INTO "@ + insert_body(dialect, table, columns),
            Dialect::Postgres => insert + " ON CONFLICT ("@ + joined(unique, ", "@)
                + ") DO NOTHING"@,
        }
    }
}

impl CrudOperations {
    /// `text` with every single quote doubled.
    pub fn escape_quotes(text: &str) -> (s: String)
        ensures
            s@ == quotes_doubled(text@),
    {
        let n = text.unicode_len();
        let mut s = String::new();
        let mut i: usize = 0;
        while i < n
            invariant
                i <= n == text@.len(),
                s@ == quotes_doubled(text@.take(i as int)),
            decreases n - i,
        {
            let c = text.get_char(i);
            proof {
                assert(text@.take(i + 1).drop_last() =~= text@.take(i as int));
                assert(text@.take(i + 1).last() == c);
            }
            if c == '\'' {
                s.append("''");
            } else {
                let one = text.substring_char(i, i + 1);
                assert(one@ =~= seq![c]);
                s.append(one);
            }
            i = i + 1;
        }
        assert(text@.take(n as int) =~= text@);
        s
    }

    /// The statement that deletes the records with the given keys.
    pub fn batch_delete_statement(dialect: Dialect, table: &str, key: &str, ids: &Vec<String>) -> (sql:
        String)
        ensures
            sql@ == batch_delete_sql(dialect, table@, key@, views(ids@)),
    {
        match dialect {
            Dialect::Sqlite => {
                let mut parts: Vec<String> = Vec::new();
                parts.push("BEGIN".to_owned());
                assert(views(parts@) =~= seq!["BEGIN"@]);
                let mut k: usize = 0;
                while k < ids.len()
                    invariant
                        k <= ids@.len(),
                        views(parts@) == seq!["BEGIN"@] + literal_deletes(
                            table@,
                            key@,
                            views(ids@),
                            k as nat,
                        ),
                    decreases ids@.len() - k,
                {
                    let mut part = "DELETE FROM ".to_owned();
                    part.append(table);
                    part.append(" WHERE ");
                    part.append(key);
                    part.append(" = '");
                    part.append(CrudOperations::escape_quotes(ids[k].as_str()).as_str());
                    part.append("'");
                    proof {
                        lemma_views_push(parts@, part);
                        assert(views(ids@)[k as int] == ids@[k as int]@);
                    }
                    parts.push(part);
                    assert(views(parts@) =~= seq!["BEGIN"@] + literal_deletes(
                        table@,
                        key@,
                        views(ids@),
                        (k + 1) as nat,
                    ));
                    k = k + 1;
                }
                let ghost before = views(parts@);
                let end = "COMMIT".to_owned();
                proof {
                    lemma_views_push(parts@, end);
                }
                parts.push(end);
                assert(views(parts@) =~= before + seq!["COMMIT"@]);
                let mut sql = String::new();
                push_joined(&mut sql, &parts, ";");
                assert(sql@ =~= batch_delete_sql(dialect, table@, key@, views(ids@)));
                sql
            },
            Dialect::Postgres => {
                let mut marks: Vec<String> = Vec::new();
                let mut i: usize = 0;
                while i < ids.len()
                    invariant
                        i <= ids@.len(),
                        views(marks@) == placeholder_list(dialect, i as nat),
                    decreases ids@.len() - i,
                {
                    let mut mark = String::new();
                    CrudOperations::push_placeholder(&mut mark, dialect, i + 1);
                    assert(mark@ =~= placeholder(dialect, (i + 1) as nat));
                    proof {
                        lemma_views_push(marks@, mark);
                    }
                    marks.push(mark);
                    assert(views(marks@) =~= placeholder_list(dialect, (i + 1) as nat));
                    i = i + 1;
                }
                let mut sql = "DELETE FROM ".to_owned();
                sql.append(table);
                sql.append(" WHERE ");
                sql.append(key);
                sql.append(" IN (");
                push_joined(&mut sql, &marks, ", ");
                sql.append(")");
                sql
            },
        }
    }

    /// The statement that inserts a record or overwrites the one with the
    /// same unique columns.
    pub fn upsert_statement(
        dialect: Dialect,
        table: &str,
        columns: &Vec<String>,
        unique_columns: &Vec<String>,
        updated_at: &Option<String>,
    ) -> (sql: String)
        ensures
            sql@ == upsert_sql(
                dialect,
                table@,
                views(columns@),
                views(unique_columns@),
                option_view(*updated_at),
            ),
    {
        let ghost names = views(columns@);
        let ghost unique = views(unique_columns@);
        let ghost stamped = option_view(*updated_at);
        let mut updates: Vec<String> = Vec::new();
        let mut i: usize = 0;
        while i < columns.len()
            invariant
                i <= columns@.len(),
                names == views(columns@),
                unique == views(unique_columns@),
                stamped == option_view(*updated_at),
                views(updates@) == conflict_updates(dialect, names, unique, stamped, i as nat),
            decreases columns@.len() - i,
        {
            let name = &columns[i];
            assert(names[i as int] == name@);
            let is_unique = contains_name(unique_columns, name);
            proof {
                if is_unique {
                    let k = choose|k: int|
                        0 <= k < unique_columns@.len() && (#[trigger] unique_columns@[k])@ == name@;
                    assert(unique[k] == name@);
                } else {
                    if among(unique, name@) {
                        let k = choose|k: int| 0 <= k < unique.len() && #[trigger] unique[k] == name@;
                        assert(unique_columns@[k]@ == name@);
                    }
                }
            }
            if !is_unique {
                let is_stamped = match updated_at {
                    Some(field) => *field == *name,
                    None => false,
                };
                let mut clause = name.clone();
                clause.append(" = ");
                if is_stamped {
                    match dialect {
                        Dialect::Sqlite => {
                            clause.append("strftime('%Y-%m-%dT%H:%M:%S.000Z', 'now')");
                        },
                        Dialect::Postgres => {
                            clause.append("NOW()");
                        },
                    }
                } else {
                    match dialect {
                        Dialect::Sqlite => {
                            clause.append("excluded.");
                        },
                        Dialect::Postgres => {
                            clause.append("EXCLUDED.");
                        },
                    }
                    clause.append(name.as_str());
                }
                proof {
                    lemma_views_push(updates@, clause);
                }
                updates.push(clause);
            }
            proof {
                assert(views(updates@) =~= conflict_updates(
                    dialect,
                    names,
                    unique,
                    stamped,
                    (i + 1) as nat,
                ));
            }
            i = i + 1;
        }
        if updates.len() > 0 {
            let mut sql = CrudOperations::insert_statement(dialect, table, columns);
            sql.append(" ON CONFLICT (");
            push_joined(&mut sql, unique_columns, ", ");
            sql.append(") DO UPDATE SET ");
            push_joined(&mut sql, &updates, ", ");
            sql
        } else {
            match dialect {
                Dialect::Sqlite => {
                    let mut sql = "INSERT OR IGNORE INTO ".to_owned();
                    CrudOperations::push_insert_body(&mut sql, dialect, table, columns);
                    sql
                },
                Dialect::Postgres => {
                    let mut sql = CrudOperations::insert_statement(dialect, table, columns);
                    sql.append(" ON CONFLICT (");
                    push_joined(&mut sql, unique_columns, ", ");
                    sql.append(") DO NOTHING");
                    sql
                },
            }
        }
    }
}

/// The message for an upsert of a record that has none of the unique
/// columns.
pub open spec fn upsert_without_values() -> Seq<char> {
    "No valid unique column values found for upsert"@
}

/// The unique columns among the first `k` that the record has, in order.
pub open spec fn lookup_columns(unique: Seq<Seq<char>>, present: Seq<Seq<char>>, k: nat) -> Seq<
    Seq<char>,
>
    decreases k,
{
    if k == 0 {
        Seq::empty()
    } else {
        lookup_columns(unique, present, (k - 1) as nat) + if among(present, unique[k - 1]) {
            seq![unique[k - 1]]
        } else {
            Seq::empty()
        }
    }
}

/// One condition for each of the first `k` unique columns that the record
/// has: `<column> = <placeholder>`, the placeholder numbered by the column's
/// place among the unique columns.
pub open spec fn lookup_conditions(
    dialect: Dialect,
    unique: Seq<Seq<char>>,
    present: Seq<Seq<char>>,
    k: nat,
) -> Seq<Seq<char>>
    decreases k,
{
    if k == 0 {
        Seq::empty()
    } else {
        lookup_conditions(dialect, unique, present, (k - 1) as nat) + if among(
            present,
            unique[k - 1],
        ) {
            seq![unique[k - 1] + " = "@ + placeholder(dialect, k)]
        } else {
            Seq::empty()
        }
    }
}

/// `SELECT * FROM <table> WHERE <conditions joined by AND> LIMIT 1`.
pub open spec fn lookup_sql(
    dialect: Dialect,
    table: Seq<char>,
    unique: Seq<Seq<char>>,
    present: Seq<Seq<char>>,
) -> Seq<char> {
    "SELECT * FROM "@ + table + " WHERE "@ + joined(
        lookup_conditions(dialect, unique, present, unique.len()),
        " AND "@,
    ) + " LIMIT 1"@
}

impl CrudOperations {
    /// The statement that finds the record an upsert would overwrite, and
    /// the unique columns whose values are its parameters. The model must
    /// have unique columns, and the record must have a value for one of
    /// them.
    pub fn upsert_lookup_statement(
        dialect: Dialect,
        table: &str,
        unique_columns: &Vec<String>,
        present: &Vec<String>,
    ) -> (r: Result<UpdateStatement, Error>)
        requires
            unique_columns@.len() < usize::MAX,
        ensures
            unique_columns@.len() == 0 ==> (r matches Err(Error::Validation(m)) && m@
                == upsert_without_unique()),
            unique_columns@.len() > 0 && lookup_columns(
                views(unique_columns@),
                views(present@),
                unique_columns@.len(),
            ).len() == 0 ==> (r matches Err(Error::Validation(m)) && m@
                == upsert_without_values()),
            unique_columns@.len() > 0 && lookup_columns(
                views(unique_columns@),
                views(present@),
                unique_columns@.len(),
            ).len() > 0 ==> (r matches Ok(u) && u.sql@ == lookup_sql(
                dialect,
                table@,
                views(unique_columns@),
                views(present@),
            ) && views(u.parameter_columns@) == lookup_columns(
                views(unique_columns@),
                views(present@),
                unique_columns@.len(),
            )),
    {
        if unique_columns.len() == 0 {
            return Err(
                Error::Validation(
                    "No unique columns defined with orso_column(unique) for upsert".to_owned(),
                ),
            );
        }
        let ghost unique = views(unique_columns@);
        let ghost have = views(present@);
        let mut conditions: Vec<String> = Vec::new();
        let mut taken: Vec<String> = Vec::new();
        let mut i: usize = 0;
        while i < unique_columns.len()
            invariant
                i <= unique_columns@.len() < usize::MAX,
                unique == views(unique_columns@),
                have == views(present@),
                views(conditions@) == lookup_conditions(dialect, unique, have, i as nat),
                views(taken@) == lookup_columns(unique, have, i as nat),
            decreases unique_columns@.len() - i,
        {
            let name = &unique_columns[i];
            assert(unique[i as int] == name@);
            let found = contains_name(present, name);
            proof {
                if found {
                    let k = choose|k: int|
                        0 <= k < present@.len() && (#[trigger] present@[k])@ == name@;
                    assert(have[k] == name@);
                } else {
                    if among(have, name@) {
                        let k = choose|k: int| 0 <= k < have.len() && #[trigger] have[k] == name@;
                        assert(present@[k]@ == name@);
                    }
                }
            }
            if found {
                let mut condition = name.clone();
                condition.append(" = ");
                CrudOperations::push_placeholder(&mut condition, dialect, i + 1);
                let column = name.clone();
                proof {
                    lemma_views_push(conditions@, condition);
                    lemma_views_push(taken@, column);
                }
                conditions.push(condition);
                taken.push(column);
            }
            proof {
                assert(views(conditions@) =~= lookup_conditions(
                    dialect,
                    unique,
                    have,
                    (i + 1) as nat,
                ));
                assert(views(taken@) =~= lookup_columns(unique, have, (i + 1) as nat));
            }
            i = i + 1;
        }
        if taken.len() == 0 {
            return Err(
                Error::Validation("No valid unique column values found for upsert".to_owned()),
            );
        }
        let mut sql = "SELECT * FROM ".to_owned();
        sql.append(table);
        sql.append(" WHERE ");
        push_joined(&mut sql, &conditions, " AND ");
        sql.append(" LIMIT 1");
        Ok(UpdateStatement { sql, parameter_columns: taken })
    }
}

} // verus!
