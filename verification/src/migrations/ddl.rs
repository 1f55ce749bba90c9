//! The statements of a migration as text: the table definition, and the one
//! statement that copies the rows of the old table into the new.

use crate::migrations::compare::find_index;
use crate::migrations::dialect::Dialect;
use crate::migrations::schema::{column_specs, find_column, ColumnInfo, ColumnSpec};
use crate::text::{joined, lemma_views_push, push_joined, str_eq, views};
use vstd::prelude::*;
use vstd::string::*;

verus! {

/// A name between double quotes.
pub open spec fn quoted(name: Seq<char>) -> Seq<char> {
    "\""@ + name + "\""@
}

/// The position of the first `.` of a reference, which parts a table from a
/// column.
pub open spec fn first_dot(reference: Seq<char>) -> Option<int> {
    if exists|k: int| 0 <= k < reference.len() && reference[k] == '.' {
        Some(
            choose|k: int|
                0 <= k < reference.len() && reference[k] == '.' && forall|j: int|
                    0 <= j < k ==> reference[j] != '.',
        )
    } else {
        None
    }
}

/// The inline foreign key of a column: a reference `table.column` names
/// both, a reference without a dot names a table and means its `id` column.
pub open spec fn references_clause(reference: Seq<char>) -> Seq<char> {
    match first_dot(reference) {
        Some(k) => " REFERENCES "@ + reference.subrange(0, k) + "("@ + reference.subrange(
            k + 1,
            reference.len() as int,
        ) + ")"@,
        None => " REFERENCES "@ + reference + "(id)"@,
    }
}

/// The default of a column, which the engine computes: a random key for a
/// text primary key, the present moment for another column with a default.
pub open spec fn default_clause(dialect: Dialect, c: ColumnSpec) -> Seq<char> {
    if c.is_primary_key && c.sql_type == "TEXT"@ {
        " DEFAULT "@ + dialect.random_key_default()
    } else if c.has_default {
        " DEFAULT "@ + dialect.now_default()
    } else {
        Seq::empty()
    }
}

/// The definition of one column: quoted name, type, then `NOT NULL`,
/// `PRIMARY KEY`, the default and the foreign key, each where it applies.
pub open spec fn column_def(dialect: Dialect, c: ColumnSpec) -> Seq<char> {
    quoted(c.name) + " "@ + c.sql_type + (if c.nullable {
        Seq::empty()
    } else {
        " NOT NULL"@
    }) + (if c.is_primary_key {
        " PRIMARY KEY"@
    } else {
        Seq::empty()
    }) + default_clause(dialect, c) + (match c.foreign_key_reference {
        Some(reference) => references_clause(reference),
        None => Seq::empty(),
    })
}

/// Whether a column gets a uniqueness constraint of its own: it is unique
/// and not the primary key, which is unique by itself.
pub open spec fn needs_unique_constraint(c: ColumnSpec) -> bool {
    c.is_unique && !c.is_primary_key
}

/// The table-level constraint that makes a column unique.
pub open spec fn unique_constraint(c: ColumnSpec) -> Seq<char> {
    "UNIQUE ("@ + quoted(c.name) + ")"@
}

/// The definitions of all columns, in order.
pub open spec fn column_defs(dialect: Dialect, cols: Seq<ColumnSpec>) -> Seq<Seq<char>> {
    Seq::new(cols.len(), |i: int| column_def(dialect, cols[i]))
}

/// The uniqueness constraints of the first `k` columns, in order.
pub open spec fn unique_constraints(cols: Seq<ColumnSpec>, k: nat) -> Seq<Seq<char>>
    decreases k,
{
    if k == 0 {
        Seq::empty()
    } else {
        unique_constraints(cols, (k - 1) as nat) + if needs_unique_constraint(cols[k - 1]) {
            seq![unique_constraint(cols[k - 1])]
        } else {
            Seq::empty()
        }
    }
}

/// The statement that creates table `table` with columns `cols`, if it does
/// not exist: all column definitions, then all uniqueness constraints.
pub open spec fn create_table_sql(dialect: Dialect, table: Seq<char>, cols: Seq<ColumnSpec>) -> Seq<
    char,
> {
    "CREATE TABLE IF NOT EXISTS "@ + quoted(table) + " (\n  "@ + joined(
        column_defs(dialect, cols) + unique_constraints(cols, cols.len()),
        ",\n  "@,
    ) + "\n)"@
}

/// What a non-nullable column is filled with where the old table has no
/// such column: a literal of the column's type, and never `NULL`. Numbers
/// are zero, a truth value is false, bytes and text are empty, a document is
/// the empty object, a moment is the start of the Unix epoch. A type that is
/// none of the engines' own is filled with the empty string.
pub open spec fn literal_default(sql_type: Seq<char>) -> Seq<char> {
    if sql_type == "INTEGER"@ || sql_type == "BIGINT"@ {
        "0"@
    } else if sql_type == "REAL"@ || sql_type == "DOUBLE PRECISION"@ {
        "0.0"@
    } else if sql_type == "BOOLEAN"@ {
        "FALSE"@
    } else if sql_type == "BLOB"@ {
        "X''"@
    } else if sql_type == "BYTEA"@ {
        "''::bytea"@
    } else if sql_type == "JSONB"@ {
        "'{}'::jsonb"@
    } else if sql_type == "TIMESTAMP WITH TIME ZONE"@ {
        "'1970-01-01T00:00:00Z'::timestamptz"@
    } else {
        "''"@
    }
}

/// No type is filled with `NULL`.
pub proof fn lemma_literal_is_not_null(sql_type: Seq<char>)
    ensures
        literal_default(sql_type) != "NULL"@,
{
    reveal_strlit("NULL");
    reveal_strlit("0");
    reveal_strlit("0.0");
    reveal_strlit("FALSE");
    reveal_strlit("X''");
    reveal_strlit("''::bytea");
    reveal_strlit("'{}'::jsonb");
    reveal_strlit("'1970-01-01T00:00:00Z'::timestamptz");
    reveal_strlit("''");
    assert("NULL"@.len() == 4);
    assert(literal_default(sql_type).len() != 4);
}

/// What the copy selects for column `t` of the new table: the old table's
/// column of that name as it is, or a default where there is none.
pub open spec fn select_item(source: Seq<ColumnSpec>, t: ColumnSpec) -> Seq<char> {
    if find_column(source, t.name) is Some {
        quoted(t.name)
    } else if t.nullable {
        "NULL"@
    } else {
        literal_default(t.sql_type)
    }
}

/// A non-nullable column is never given `NULL`: the copy selects the old
/// table's column of its name, or a literal of its type.
pub proof fn lemma_required_column_is_filled(source: Seq<ColumnSpec>, t: ColumnSpec)
    requires
        !t.nullable,
    ensures
        select_item(source, t) != "NULL"@,
        find_column(source, t.name) is None ==> select_item(source, t) == literal_default(
            t.sql_type,
        ),
{
    lemma_literal_is_not_null(t.sql_type);
    if find_column(source, t.name) is Some {
        reveal_strlit("NULL");
        reveal_strlit("\"");
        assert(quoted(t.name)[0] == '"');
        assert("NULL"@[0] == 'N');
    }
}

/// The quoted names of all columns, in order.
pub open spec fn quoted_names(cols: Seq<ColumnSpec>) -> Seq<Seq<char>> {
    Seq::new(cols.len(), |i: int| quoted(cols[i].name))
}

/// What the copy selects for all columns of the new table, in their order.
pub open spec fn select_items(source: Seq<ColumnSpec>, target: Seq<ColumnSpec>) -> Seq<Seq<char>> {
    Seq::new(target.len(), |i: int| select_item(source, target[i]))
}

/// The one statement that copies all rows of `source_table` into
/// `target_table`, column by column in the order of the new table.
pub open spec fn copy_sql(
    dialect: Dialect,
    source_table: Seq<char>,
    target_table: Seq<char>,
    source: Seq<ColumnSpec>,
    target: Seq<ColumnSpec>,
) -> Seq<char> {
    "INSERT INTO "@ + quoted(target_table) + " ("@ + joined(quoted_names(target), ", "@)
        + ") SELECT "@ + joined(select_items(source, target), ", "@) + " FROM "@ + quoted(
        source_table,
    ) + dialect.copy_order()
}

/// A name between double quotes.
pub fn quote(name: &str) -> (s: String)
    ensures
        s@ == quoted(name@),
{
    let mut s = "\"".to_owned();
    s.append(name);
    s.append("\"");
    s
}

/// The position of the first `.` of a reference.
fn find_dot(reference: &str) -> (found: Option<usize>)
    ensures
        match found {
            Some(k) => first_dot(reference@) == Some(k as int) && k < reference@.len(),
            None => first_dot(reference@) is None,
        },
{
    let n = reference.unicode_len();
    let mut k: usize = 0;
    while k < n
        invariant
            k <= n == reference@.len(),
            forall|j: int| 0 <= j < k ==> reference@[j] != '.',
        decreases n - k,
    {
        if reference.get_char(k) == '.' {
            proof {
                let w = choose|w: int|
                    0 <= w < reference@.len() && reference@[w] == '.' && forall|j: int|
                        0 <= j < w ==> reference@[j] != '.';
                assert(0 <= k < reference@.len() && reference@[k as int] == '.' && forall|j: int|
                    0 <= j < k ==> reference@[j] != '.');
                assert(w == k) by {
                    if w < k {
                        assert(reference@[w] != '.');
                    }
                    if k < w {
                        assert(reference@[k as int] != '.');
                    }
                }
            }
            return Some(k);
        }
        k = k + 1;
    }
    None
}

/// Appends the inline foreign key for `reference`.
fn push_references(out: &mut String, reference: &str)
    ensures
        final(out)@ == old(out)@ + references_clause(reference@),
{
    out.append(" REFERENCES ");
    match find_dot(reference) {
        Some(k) => {
            let n = reference.unicode_len();
            out.append(reference.substring_char(0, k));
            out.append("(");
            out.append(reference.substring_char(k + 1, n));
            out.append(")");
            assert(out@ =~= old(out)@ + references_clause(reference@));
        },
        None => {
            out.append(reference);
            out.append("(id)");
            assert(out@ =~= old(out)@ + references_clause(reference@));
        },
    }
}

/// The definition of one column.
pub fn column_definition(dialect: Dialect, column: &ColumnInfo) -> (s: String)
    ensures
        s@ == column_def(dialect, column@),
{
    let mut s = quote(column.name.as_str());
    s.append(" ");
    s.append(column.sql_type.as_str());
    if !column.nullable {
        s.append(" NOT NULL");
    }
    if column.is_primary_key {
        s.append(" PRIMARY KEY");
    }
    let ghost before_default = s@;
    if column.is_primary_key && str_eq(column.sql_type.as_str(), "TEXT") {
        s.append(" DEFAULT ");
        s.append(dialect.random_key_default_sql());
    } else if column.has_default {
        s.append(" DEFAULT ");
        s.append(dialect.now_default_sql());
    }
    assert(s@ =~= before_default + default_clause(dialect, column@));
    let ghost before_reference = s@;
    match &column.foreign_key_reference {
        Some(reference) => {
            push_references(&mut s, reference.as_str());
        },
        None => {},
    }
    assert(s@ =~= column_def(dialect, column@));
    s
}

/// The statement that creates table `table_name` with the given columns, if
/// it does not exist. Every column is defined in order; every column that is
/// unique and not the primary key gets one uniqueness constraint behind the
/// definitions, and the primary key none besides being the primary key.
pub fn generate_create_table_sql(dialect: Dialect, table_name: &str, columns: &[ColumnInfo]) -> (sql:
    String)
    ensures
        sql@ == create_table_sql(dialect, table_name@, column_specs(columns@)),
{
    let ghost cols = column_specs(columns@);
    let mut defs: Vec<String> = Vec::new();
    let mut constraints: Vec<String> = Vec::new();
    let mut i: usize = 0;
    while i < columns.len()
        invariant
            i <= columns@.len(),
            cols == column_specs(columns@),
            views(defs@) == column_defs(dialect, cols).take(i as int),
            views(constraints@) == unique_constraints(cols, i as nat),
        decreases columns@.len() - i,
    {
        let column = &columns[i];
        assert(cols[i as int] == column@);
        let ghost defs_before = defs@;
        let ghost constraints_before = constraints@;
        let def = column_definition(dialect, column);
        proof {
            lemma_views_push(defs_before, def);
        }
        defs.push(def);
        if column.is_unique && !column.is_primary_key {
            let mut constraint = "UNIQUE (".to_owned();
            constraint.append(quote(column.name.as_str()).as_str());
            constraint.append(")");
            proof {
                lemma_views_push(constraints_before, constraint);
            }
            constraints.push(constraint);
        }
        proof {
            assert(views(defs@) =~= column_defs(dialect, cols).take(i + 1));
            assert(views(constraints@) =~= unique_constraints(cols, (i + 1) as nat));
        }
        i = i + 1;
    }
    proof {
        assert(column_defs(dialect, cols).take(columns@.len() as int) =~= column_defs(
            dialect,
            cols,
        ));
    }
    let ghost all_defs = views(defs@);
    let ghost all_constraints = views(constraints@);
    defs.append(&mut constraints);
    assert(views(defs@) =~= all_defs + all_constraints);
    let mut sql = "CREATE TABLE IF NOT EXISTS ".to_owned();
    sql.append(quote(table_name).as_str());
    sql.append(" (\n  ");
    push_joined(&mut sql, &defs, ",\n  ");
    sql.append("\n)");
    sql
}

/// The literal that fills a non-nullable column which the old table lacks.
fn literal_default_sql(sql_type: &str) -> (s: &'static str)
    ensures
        s@ == literal_default(sql_type@),
{
    if str_eq(sql_type, "INTEGER") || str_eq(sql_type, "BIGINT") {
        "0"
    } else if str_eq(sql_type, "REAL") || str_eq(sql_type, "DOUBLE PRECISION") {
        "0.0"
    } else if str_eq(sql_type, "BOOLEAN") {
        "FALSE"
    } else if str_eq(sql_type, "BLOB") {
        "X''"
    } else if str_eq(sql_type, "BYTEA") {
        "''::bytea"
    } else if str_eq(sql_type, "JSONB") {
        "'{}'::jsonb"
    } else if str_eq(sql_type, "TIMESTAMP WITH TIME ZONE") {
        "'1970-01-01T00:00:00Z'::timestamptz"
    } else {
        "''"
    }
}

/// The one statement that copies the rows of `source_table` into
/// `target_table`. For every column of the new table, in its order: the old
/// table's column of the same name is selected as it is, whatever it holds;
/// where the old table has no such column, `NULL` is selected for a nullable
/// column and a literal of the column's type for a non-nullable one.
pub fn generate_data_migration_sql(
    dialect: Dialect,
    source_table: &str,
    target_table: &str,
    source_columns: &[ColumnInfo],
    target_columns: &[ColumnInfo],
) -> (sql: String)
    ensures
        sql@ == copy_sql(
            dialect,
            source_table@,
            target_table@,
            column_specs(source_columns@),
            column_specs(target_columns@),
        ),
{
    let ghost source = column_specs(source_columns@);
    let ghost target = column_specs(target_columns@);
    let mut names: Vec<String> = Vec::new();
    let mut selects: Vec<String> = Vec::new();
    let mut i: usize = 0;
    while i < target_columns.len()
        invariant
            i <= target_columns@.len(),
            source == column_specs(source_columns@),
            target == column_specs(target_columns@),
            views(names@) == quoted_names(target).take(i as int),
            views(selects@) == select_items(source, target).take(i as int),
        decreases target_columns@.len() - i,
    {
        let column = &target_columns[i];
        assert(target[i as int] == column@);
        let ghost names_before = names@;
        let ghost selects_before = selects@;
        let name = quote(column.name.as_str());
        proof {
            lemma_views_push(names_before, name);
        }
        names.push(name);
        let item = if find_index(source_columns, &column.name).is_some() {
            quote(column.name.as_str())
        } else if column.nullable {
            "NULL".to_owned()
        } else {
            literal_default_sql(column.sql_type.as_str()).to_owned()
        };
        proof {
            lemma_views_push(selects_before, item);
        }
        selects.push(item);
        proof {
            assert(views(names@) =~= quoted_names(target).take(i + 1));
            assert(views(selects@) =~= select_items(source, target).take(i + 1));
        }
        i = i + 1;
    }
    proof {
        assert(quoted_names(target).take(target.len() as int) =~= quoted_names(target));
        assert(select_items(source, target).take(target.len() as int) =~= select_items(
            source,
            target,
        ));
    }
    let mut sql = "INSERT INTO ".to_owned();
    sql.append(quote(target_table).as_str());
    sql.append(" (");
    push_joined(&mut sql, &names, ", ");
    sql.append(") SELECT ");
    push_joined(&mut sql, &selects, ", ");
    sql.append(" FROM ");
    sql.append(quote(source_table).as_str());
    sql.append(dialect.copy_order_sql());
    sql
}

} // verus!
