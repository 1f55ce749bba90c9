//! The schema introspector's part that needs no database: what the catalog's
//! rows mean, and how the column listing, the constraints and the foreign
//! keys are put together into the columns of the live table.

use crate::migrations::dialect::Dialect;
use crate::migrations::schema::{column_specs, ColumnInfo, ColumnSpec};
use crate::text::{str_eq, to_upper, uppercase};
use vstd::prelude::*;
use vstd::string::*;

verus! {

/// One row of the embedded engine's column listing.
#[derive(Debug)]
pub struct SqliteColumnRow {
    /// Ordinal of the column, from 0.
    pub cid: i32,
    pub name: String,
    /// The column's type as declared.
    pub declared_type: String,
    /// Nonzero where the column is `NOT NULL`.
    pub not_null: i32,
    pub default_value: Option<String>,
    /// Nonzero where the column belongs to the primary key.
    pub pk: i32,
}

/// One row of the client/server engine's column listing.
#[derive(Debug)]
pub struct PostgresColumnRow {
    pub name: String,
    pub data_type: String,
    /// `YES` where the column may be null.
    pub is_nullable: String,
    /// Ordinal of the column, from 1.
    pub ordinal_position: i32,
    pub column_default: Option<String>,
}

/// A constraint on one column: `PRIMARY KEY` or `UNIQUE`. Other kinds are of
/// no account.
#[derive(Debug)]
pub struct ConstraintRow {
    pub column: String,
    pub kind: String,
}

/// A foreign key of one column: what it refers to.
#[derive(Debug)]
pub struct ForeignKeyRow {
    pub column: String,
    pub reference: String,
}

/// A constraint as a mathematical value.
pub struct ConstraintSpec {
    pub column: Seq<char>,
    pub kind: Seq<char>,
}

/// A foreign key as a mathematical value.
pub struct ForeignKeySpec {
    pub column: Seq<char>,
    pub reference: Seq<char>,
}

impl View for ConstraintRow {
    type V = ConstraintSpec;

    open spec fn view(&self) -> ConstraintSpec {
        ConstraintSpec { column: self.column@, kind: self.kind@ }
    }
}

impl View for ForeignKeyRow {
    type V = ForeignKeySpec;

    open spec fn view(&self) -> ForeignKeySpec {
        ForeignKeySpec { column: self.column@, reference: self.reference@ }
    }
}

impl ConstraintRow {
    /// The constraint that a unique index of the embedded engine puts on one
    /// of its columns.
    pub fn unique(column: String) -> (row: Self)
        ensures
            row@ == (ConstraintSpec { column: column@, kind: "UNIQUE"@ }),
    {
        ConstraintRow { column, kind: "UNIQUE".to_owned() }
    }
}

/// A list of constraints as mathematical values.
pub open spec fn constraint_specs(rows: Seq<ConstraintRow>) -> Seq<ConstraintSpec> {
    Seq::new(rows.len(), |i: int| rows[i]@)
}

/// A list of foreign keys as mathematical values.
pub open spec fn foreign_key_specs(rows: Seq<ForeignKeyRow>) -> Seq<ForeignKeySpec> {
    Seq::new(rows.len(), |i: int| rows[i]@)
}

/// The column that a row of the embedded engine's listing describes, its
/// type given in upper case. A column of the opaque binary type is guessed to
/// be compressed. Uniqueness and foreign keys are not in the listing.
pub open spec fn sqlite_column(
    cid: int,
    name: Seq<char>,
    sql_type: Seq<char>,
    not_null: int,
    has_default: bool,
    pk: int,
) -> ColumnSpec {
    ColumnSpec {
        name,
        sql_type,
        nullable: not_null == 0,
        position: cid,
        is_unique: false,
        is_primary_key: pk != 0,
        foreign_key_reference: None,
        has_default,
        is_compressed: sql_type == Dialect::Sqlite.blob_type(),
    }
}

/// One less, but no less than the least 32-bit number.
pub open spec fn from_zero(ordinal: int) -> int {
    if ordinal == i32::MIN {
        ordinal
    } else {
        ordinal - 1
    }
}

/// The column that a row of the client/server engine's listing describes,
/// its type given in upper case. Ordinals are brought to start at 0. The
/// primary key, uniqueness and foreign keys are not in the listing.
pub open spec fn postgres_column(
    name: Seq<char>,
    sql_type: Seq<char>,
    is_nullable: Seq<char>,
    ordinal_position: int,
    has_default: bool,
) -> ColumnSpec {
    ColumnSpec {
        name,
        sql_type,
        nullable: is_nullable == "YES"@,
        position: from_zero(ordinal_position),
        is_unique: false,
        is_primary_key: false,
        foreign_key_reference: None,
        has_default,
        is_compressed: sql_type == Dialect::Postgres.blob_type(),
    }
}

/// The column that a row of the embedded engine's listing describes, its
/// type taken in upper case.
pub fn column_from_sqlite_row(row: &SqliteColumnRow) -> (c: ColumnInfo)
    ensures
        c@ == sqlite_column(
            row.cid as int,
            row.name@,
            uppercase(row.declared_type@),
            row.not_null as int,
            row.default_value is Some,
            row.pk as int,
        ),
{
    sqlite_column_of(row, to_upper(row.declared_type.as_str()))
}

/// The column that a row of the embedded engine's listing describes, with
/// `sql_type` for its type.
pub fn sqlite_column_of(row: &SqliteColumnRow, sql_type: String) -> (c: ColumnInfo)
    ensures
        c@ == sqlite_column(
            row.cid as int,
            row.name@,
            sql_type@,
            row.not_null as int,
            row.default_value is Some,
            row.pk as int,
        ),
{
    let is_compressed = str_eq(sql_type.as_str(), "BLOB");
    ColumnInfo {
        name: row.name.clone(),
        sql_type,
        nullable: row.not_null == 0,
        position: row.cid,
        is_unique: false,
        is_primary_key: row.pk != 0,
        foreign_key_reference: None,
        has_default: row.default_value.is_some(),
        is_compressed,
    }
}

/// The column that a row of the client/server engine's listing describes,
/// its type taken in upper case.
pub fn column_from_postgres_row(row: &PostgresColumnRow) -> (c: ColumnInfo)
    ensures
        c@ == postgres_column(
            row.name@,
            uppercase(row.data_type@),
            row.is_nullable@,
            row.ordinal_position as int,
            row.column_default is Some,
        ),
{
    postgres_column_of(row, to_upper(row.data_type.as_str()))
}

/// The column that a row of the client/server engine's listing describes,
/// with `sql_type` for its type.
pub fn postgres_column_of(row: &PostgresColumnRow, sql_type: String) -> (c: ColumnInfo)
    ensures
        c@ == postgres_column(
            row.name@,
            sql_type@,
            row.is_nullable@,
            row.ordinal_position as int,
            row.column_default is Some,
        ),
{
    let is_compressed = str_eq(sql_type.as_str(), "BYTEA");
    ColumnInfo {
        name: row.name.clone(),
        sql_type,
        nullable: str_eq(row.is_nullable.as_str(), "YES"),
        position: if row.ordinal_position == i32::MIN {
            row.ordinal_position
        } else {
            row.ordinal_position - 1
        },
        is_unique: false,
        is_primary_key: false,
        foreign_key_reference: None,
        has_default: row.column_default.is_some(),
        is_compressed,
    }
}

/// Whether an index of the embedded engine is a unique one, by the flag in
/// the index listing.
pub fn is_unique_index(flag: i32) -> (unique: bool)
    ensures
        unique == (flag != 0),
{
    flag != 0
}

/// Whether a constraint of kind `kind` is on the column named `name`.
pub open spec fn constrained(constraints: Seq<ConstraintSpec>, name: Seq<char>, kind: Seq<char>) -> bool {
    exists|k: int|
        0 <= k < constraints.len() && (#[trigger] constraints[k]).column == name
            && constraints[k].kind == kind
}

/// What the column named `name` refers to: by its last foreign key among the
/// first `k`, should there be several.
pub open spec fn reference_of(keys: Seq<ForeignKeySpec>, name: Seq<char>, k: nat) -> Option<
    Seq<char>,
>
    decreases k,
{
    if k == 0 {
        None
    } else if keys[k - 1].column == name {
        Some(keys[k - 1].reference)
    } else {
        reference_of(keys, name, (k - 1) as nat)
    }
}

/// A listed column with what the constraints and foreign keys say of it: a
/// primary key makes it the primary key and unique, a unique constraint makes
/// it unique, a foreign key gives its reference.
pub open spec fn with_constraints(
    c: ColumnSpec,
    constraints: Seq<ConstraintSpec>,
    keys: Seq<ForeignKeySpec>,
) -> ColumnSpec {
    ColumnSpec {
        is_unique: c.is_unique || constrained(constraints, c.name, "UNIQUE"@) || constrained(
            constraints,
            c.name,
            "PRIMARY KEY"@,
        ),
        is_primary_key: c.is_primary_key || constrained(constraints, c.name, "PRIMARY KEY"@),
        foreign_key_reference: match reference_of(keys, c.name, keys.len()) {
            Some(reference) => Some(reference),
            None => c.foreign_key_reference,
        },
        ..c
    }
}

/// `sorted` with `x` put behind the last column whose position is not
/// greater.
pub open spec fn insert_by_position(sorted: Seq<ColumnSpec>, x: ColumnSpec) -> Seq<ColumnSpec>
    decreases sorted.len(),
{
    if sorted.len() == 0 {
        seq![x]
    } else if sorted.last().position <= x.position {
        sorted.push(x)
    } else {
        insert_by_position(sorted.drop_last(), x).push(sorted.last())
    }
}

/// The columns by ascending position. Columns of one position keep the order
/// they came in.
pub open spec fn by_position(cols: Seq<ColumnSpec>) -> Seq<ColumnSpec>
    decreases cols.len(),
{
    if cols.len() == 0 {
        Seq::empty()
    } else {
        insert_by_position(by_position(cols.drop_last()), cols.last())
    }
}

/// The columns of the live table: the listed columns by position, each with
/// what the constraints and foreign keys say of it.
pub open spec fn table_schema(
    listed: Seq<ColumnSpec>,
    constraints: Seq<ConstraintSpec>,
    keys: Seq<ForeignKeySpec>,
) -> Seq<ColumnSpec> {
    Seq::new(
        listed.len(),
        |i: int| with_constraints(by_position(listed)[i], constraints, keys),
    )
}

/// Sorting keeps the number of columns.
pub proof fn lemma_by_position_len(cols: Seq<ColumnSpec>)
    ensures
        by_position(cols).len() == cols.len(),
    decreases cols.len(),
{
    if cols.len() > 0 {
        lemma_by_position_len(cols.drop_last());
        lemma_insert_by_position_len(by_position(cols.drop_last()), cols.last());
    }
}

proof fn lemma_insert_by_position_len(sorted: Seq<ColumnSpec>, x: ColumnSpec)
    ensures
        insert_by_position(sorted, x).len() == sorted.len() + 1,
    decreases sorted.len(),
{
    if sorted.len() > 0 && sorted.last().position > x.position {
        lemma_insert_by_position_len(sorted.drop_last(), x);
    }
}

proof fn lemma_insert_by_position_at(sorted: Seq<ColumnSpec>, x: ColumnSpec, p: int)
    requires
        0 <= p <= sorted.len(),
        forall|j: int| p <= j < sorted.len() ==> (#[trigger] sorted[j]).position > x.position,
        p > 0 ==> sorted[p - 1].position <= x.position,
    ensures
        insert_by_position(sorted, x) == sorted.insert(p, x),
    decreases sorted.len(),
{
    if sorted.len() == 0 {
        assert(sorted.insert(p, x) =~= seq![x]);
    } else if p == sorted.len() {
        assert(sorted.insert(p, x) =~= sorted.push(x));
    } else {
        let front = sorted.drop_last();
        assert(sorted.last().position > x.position);
        assert forall|j: int| p <= j < front.len() implies (#[trigger] front[j]).position
            > x.position by {
            assert(front[j] == sorted[j]);
        }
        if p > 0 {
            assert(front[p - 1] == sorted[p - 1]);
        }
        lemma_insert_by_position_at(front, x, p);
        assert(front.insert(p, x).push(sorted.last()) =~= sorted.insert(p, x));
    }
}

/// The columns by ascending position; columns of one position keep their
/// order.
pub fn sort_by_position(columns: &[ColumnInfo]) -> (sorted: Vec<ColumnInfo>)
    ensures
        column_specs(sorted@) == by_position(column_specs(columns@)),
{
    let ghost input = column_specs(columns@);
    let mut sorted: Vec<ColumnInfo> = Vec::new();
    let mut done: usize = 0;
    while done < columns.len()
        invariant
            done <= columns@.len(),
            input == column_specs(columns@),
            column_specs(sorted@) == by_position(input.take(done as int)),
        decreases columns@.len() - done,
    {
        let ghost before = column_specs(sorted@);
        let item = columns[done].clone();
        assert(item@ == input[done as int]);
        let mut p: usize = sorted.len();
        while p > 0 && sorted[p - 1].position > item.position
            invariant
                p <= sorted@.len(),
                column_specs(sorted@) == before,
                forall|j: int|
                    p <= j < sorted@.len() ==> (#[trigger] before[j]).position > item@.position,
            decreases p,
        {
            proof {
                assert(before[p - 1] == sorted@[p - 1]@);
            }
            p = p - 1;
        }
        proof {
            if p > 0 {
                assert(before[p - 1] == sorted@[p - 1]@);
            }
            lemma_insert_by_position_at(before, item@, p as int);
            assert(input.take(done + 1).drop_last() =~= input.take(done as int));
            assert(input.take(done + 1).last() == input[done as int]);
        }
        let ghost shown = item@;
        sorted.insert(p, item);
        proof {
            assert(column_specs(sorted@) =~= before.insert(p as int, shown));
        }
        done = done + 1;
    }
    proof {
        assert(input.take(done as int) =~= input);
    }
    sorted
}

/// Whether a constraint of kind `kind` is on the column named `name`.
fn has_constraint(constraints: &[ConstraintRow], name: &String, kind: &str) -> (found: bool)
    ensures
        found == constrained(constraint_specs(constraints@), name@, kind@),
{
    let ghost specs = constraint_specs(constraints@);
    let mut k: usize = 0;
    while k < constraints.len()
        invariant
            k <= constraints@.len(),
            specs == constraint_specs(constraints@),
            forall|j: int|
                0 <= j < k ==> !((#[trigger] specs[j]).column == name@ && specs[j].kind == kind@),
        decreases constraints@.len() - k,
    {
        assert(specs[k as int] == constraints@[k as int]@);
        if constraints[k].column == *name && str_eq(constraints[k].kind.as_str(), kind) {
            return true;
        }
        k = k + 1;
    }
    false
}

/// What the column named `name` refers to, by its last foreign key.
fn find_reference(keys: &[ForeignKeyRow], name: &String) -> (found: Option<String>)
    ensures
        match found {
            Some(reference) => reference_of(foreign_key_specs(keys@), name@, keys@.len())
                == Some(reference@),
            None => reference_of(foreign_key_specs(keys@), name@, keys@.len()) is None,
        },
{
    let ghost specs = foreign_key_specs(keys@);
    let mut k: usize = keys.len();
    while k > 0
        invariant
            k <= keys@.len(),
            specs == foreign_key_specs(keys@),
            reference_of(specs, name@, keys@.len()) == reference_of(specs, name@, k as nat),
        decreases k,
    {
        assert(specs[k - 1] == keys@[k - 1]@);
        if keys[k - 1].column == *name {
            return Some(keys[k - 1].reference.clone());
        }
        k = k - 1;
    }
    None
}

/// The columns of the live table, from the catalog's three listings. The
/// listed columns are ordered by position; a column named by a primary key
/// constraint becomes the primary key and unique, one named by a unique
/// constraint unique, and one named by a foreign key gets its reference. A
/// table that is not there has no rows in any listing, and no columns.
pub fn get_current_table_schema(
    listed: &[ColumnInfo],
    constraints: &[ConstraintRow],
    foreign_keys: &[ForeignKeyRow],
) -> (columns: Vec<ColumnInfo>)
    ensures
        column_specs(columns@) == table_schema(
            column_specs(listed@),
            constraint_specs(constraints@),
            foreign_key_specs(foreign_keys@),
        ),
{
    let ghost cons = constraint_specs(constraints@);
    let ghost keys = foreign_key_specs(foreign_keys@);
    let sorted = sort_by_position(listed);
    let ghost ordered = column_specs(sorted@);
    proof {
        lemma_by_position_len(column_specs(listed@));
    }
    let mut columns: Vec<ColumnInfo> = Vec::new();
    let mut i: usize = 0;
    while i < sorted.len()
        invariant
            i <= sorted@.len(),
            ordered == column_specs(sorted@),
            cons == constraint_specs(constraints@),
            keys == foreign_key_specs(foreign_keys@),
            columns@.len() == i,
            forall|j: int|
                0 <= j < i ==> (#[trigger] columns@[j])@ == with_constraints(ordered[j], cons, keys),
        decreases sorted@.len() - i,
    {
        let c = &sorted[i];
        assert(ordered[i as int] == c@);
        let key = has_constraint(constraints, &c.name, "PRIMARY KEY");
        let unique = has_constraint(constraints, &c.name, "UNIQUE");
        let reference = match find_reference(foreign_keys, &c.name) {
            Some(reference) => Some(reference),
            None => match &c.foreign_key_reference {
                Some(own) => Some(own.clone()),
                None => None,
            },
        };
        columns.push(
            ColumnInfo {
                name: c.name.clone(),
                sql_type: c.sql_type.clone(),
                nullable: c.nullable,
                position: c.position,
                is_unique: c.is_unique || unique || key,
                is_primary_key: c.is_primary_key || key,
                foreign_key_reference: reference,
                has_default: c.has_default,
                is_compressed: c.is_compressed,
            },
        );
        i = i + 1;
    }
    assert(column_specs(columns@) =~= table_schema(column_specs(listed@), cons, keys));
    columns
}

} // verus!
