//! The schema comparator: a pure function from the live table's columns and
//! the model's columns to the list of their differences.

use crate::migrations::schema::{
    change_if, column_diff, column_specs, count_diff, expected_diffs, extra_diffs, field_diffs,
    find_column, mismatch, render, render_all, schema_diff, Change, ChangeKind, ColumnInfo,
    ColumnSpec, SchemaComparison,
};
use crate::text::{
    bool_text, decimal, push_bool, push_decimal, push_signed_decimal, signed_decimal, views,
};
use vstd::prelude::*;
use vstd::string::*;

verus! {

/// The index of the column named `name`: the last one, should several share
/// the name.
pub fn find_index(cols: &[ColumnInfo], name: &String) -> (found: Option<usize>)
    ensures
        match found {
            Some(j) => j < cols@.len() && find_column(column_specs(cols@), name@) == Some(
                j as int,
            ),
            None => find_column(column_specs(cols@), name@) is None,
        },
{
    let ghost specs = column_specs(cols@);
    let mut i: usize = cols.len();
    proof {
        assert(specs.take(i as int) =~= specs);
    }
    while i > 0
        invariant
            i <= cols@.len(),
            specs == column_specs(cols@),
            find_column(specs, name@) == find_column(specs.take(i as int), name@),
        decreases i,
    {
        i = i - 1;
        proof {
            assert(specs.take(i + 1).last() == cols@[i as int]@);
            assert(specs.take(i + 1).drop_last() =~= specs.take(i as int));
        }
        if cols[i].name == *name {
            return Some(i);
        }
    }
    None
}

/// `<label> for <column>: <current> vs <expected>`.
fn mismatch_message(label: &str, column: &str, current: &str, expected: &str) -> (s: String)
    ensures
        s@ == label@ + " for "@ + column@ + ": "@ + current@ + " vs "@ + expected@,
{
    let mut s = label.to_owned();
    s.append(" for ");
    s.append(column);
    s.append(": ");
    s.append(current);
    s.append(" vs ");
    s.append(expected);
    s
}

/// `true` or `false`, owned.
fn bool_string(b: bool) -> (s: String)
    ensures
        s@ == bool_text(b),
{
    let mut s = String::new();
    push_bool(&mut s, b);
    assert(s@ =~= bool_text(b));
    s
}

/// The decimal numeral of `n`, owned.
fn number_string(n: i64) -> (s: String)
    ensures
        s@ == signed_decimal(n as int),
{
    let mut s = String::new();
    push_signed_decimal(&mut s, n);
    assert(s@ =~= signed_decimal(n as int));
    s
}

/// Rendering goes through concatenation.
pub proof fn lemma_render_concat(a: Seq<Change>, b: Seq<Change>)
    ensures
        render_all(a + b) == render_all(a) + render_all(b),
{
    assert(render_all(a + b) =~= render_all(a) + render_all(b));
}

/// One more part behind what was rendered so far.
proof fn lemma_render_extend(
    start: Seq<Seq<char>>,
    done: Seq<Change>,
    part: Seq<Change>,
    before: Seq<Seq<char>>,
    after: Seq<Seq<char>>,
)
    requires
        before == start + render_all(done),
        after == before + render_all(part),
    ensures
        after == start + render_all(done + part),
{
    lemma_render_concat(done, part);
    assert(after =~= start + render_all(done + part));
}

/// Whether a kind of change is a mismatch of one field of a column.
pub open spec fn is_field_kind(kind: ChangeKind) -> bool {
    kind == ChangeKind::Type || kind == ChangeKind::Nullability || kind == ChangeKind::Position
        || kind == ChangeKind::Unique || kind == ChangeKind::PrimaryKey || kind
        == ChangeKind::Compression
}

/// How the message of a field mismatch begins.
fn mismatch_label(kind: ChangeKind) -> (label: &'static str)
    requires
        is_field_kind(kind),
    ensures
        forall|change: Change|
            change.kind == kind ==> #[trigger] render(change) == mismatch(label@, change),
{
    match kind {
        ChangeKind::Type => "Type mismatch",
        ChangeKind::Nullability => "Nullability mismatch",
        ChangeKind::Position => "Position mismatch",
        ChangeKind::Unique => "Unique constraint mismatch",
        ChangeKind::PrimaryKey => "Primary key mismatch",
        _ => "Compression mismatch",
    }
}

/// Appends the message of a field mismatch, where there is one.
#[verifier::spinoff_prover]
fn push_mismatch(
    changes: &mut Vec<String>,
    differs: bool,
    kind: ChangeKind,
    column: &str,
    current: &str,
    expected: &str,
)
    requires
        is_field_kind(kind),
    ensures
        views(final(changes)@) == views(old(changes)@) + render_all(
            change_if(
                differs,
                Change { kind, column: column@, current: current@, expected: expected@ },
            ),
        ),
{
    let ghost change = Change { kind, column: column@, current: current@, expected: expected@ };
    if differs {
        let message = mismatch_message(mismatch_label(kind), column, current, expected);
        assert(message@ == render(change));
        proof {
            crate::text::lemma_views_push(changes@, message);
        }
        changes.push(message);
        assert(render_all(seq![change]) =~= seq![render(change)]);
        assert(views(changes@) =~= views(old(changes)@) + render_all(seq![change]));
    } else {
        assert(render_all(Seq::<Change>::empty()) =~= Seq::<Seq<char>>::empty());
        assert(views(changes@) =~= views(old(changes)@) + render_all(Seq::<Change>::empty()));
    }
}

/// Appends the messages of the differences between a live column and the
/// model's column of the same name.
#[verifier::spinoff_prover]
fn push_field_changes(changes: &mut Vec<String>, c: &ColumnInfo, e: &ColumnInfo)
    ensures
        views(final(changes)@) == views(old(changes)@) + render_all(field_diffs(c@, e@)),
{
    let ghost start = views(changes@);
    let name = e.name.as_str();
    push_mismatch(
        changes,
        c.sql_type != e.sql_type,
        ChangeKind::Type,
        name,
        c.sql_type.as_str(),
        e.sql_type.as_str(),
    );
    let ghost v1 = views(changes@);
    push_mismatch(
        changes,
        c.nullable != e.nullable,
        ChangeKind::Nullability,
        name,
        bool_string(c.nullable).as_str(),
        bool_string(e.nullable).as_str(),
    );
    let ghost v2 = views(changes@);
    push_mismatch(
        changes,
        c.position != e.position,
        ChangeKind::Position,
        name,
        number_string(c.position as i64).as_str(),
        number_string(e.position as i64).as_str(),
    );
    let ghost v3 = views(changes@);
    push_mismatch(
        changes,
        c.is_unique != e.is_unique,
        ChangeKind::Unique,
        name,
        bool_string(c.is_unique).as_str(),
        bool_string(e.is_unique).as_str(),
    );
    let ghost v4 = views(changes@);
    push_mismatch(
        changes,
        c.is_primary_key != e.is_primary_key,
        ChangeKind::PrimaryKey,
        name,
        bool_string(c.is_primary_key).as_str(),
        bool_string(e.is_primary_key).as_str(),
    );
    let ghost v5 = views(changes@);
    push_mismatch(
        changes,
        c.is_compressed != e.is_compressed,
        ChangeKind::Compression,
        name,
        bool_string(c.is_compressed).as_str(),
        bool_string(e.is_compressed).as_str(),
    );
    proof {
        let v6 = views(changes@);
        lemma_field_diffs_rendered(start, c@, e@, v1, v2, v3, v4, v5, v6);
    }
}

/// The six steps of `push_field_changes` add up to the field differences.
proof fn lemma_field_diffs_rendered(
    start: Seq<Seq<char>>,
    c: ColumnSpec,
    e: ColumnSpec,
    v1: Seq<Seq<char>>,
    v2: Seq<Seq<char>>,
    v3: Seq<Seq<char>>,
    v4: Seq<Seq<char>>,
    v5: Seq<Seq<char>>,
    v6: Seq<Seq<char>>,
)
    requires
        v1 == start + render_all(
            change_if(
                c.sql_type != e.sql_type,
                Change {
                    kind: ChangeKind::Type,
                    column: e.name,
                    current: c.sql_type,
                    expected: e.sql_type,
                },
            ),
        ),
        v2 == v1 + render_all(
            change_if(
                c.nullable != e.nullable,
                Change {
                    kind: ChangeKind::Nullability,
                    column: e.name,
                    current: bool_text(c.nullable),
                    expected: bool_text(e.nullable),
                },
            ),
        ),
        v3 == v2 + render_all(
            change_if(
                c.position != e.position,
                Change {
                    kind: ChangeKind::Position,
                    column: e.name,
                    current: signed_decimal(c.position),
                    expected: signed_decimal(e.position),
                },
            ),
        ),
        v4 == v3 + render_all(
            change_if(
                c.is_unique != e.is_unique,
                Change {
                    kind: ChangeKind::Unique,
                    column: e.name,
                    current: bool_text(c.is_unique),
                    expected: bool_text(e.is_unique),
                },
            ),
        ),
        v5 == v4 + render_all(
            change_if(
                c.is_primary_key != e.is_primary_key,
                Change {
                    kind: ChangeKind::PrimaryKey,
                    column: e.name,
                    current: bool_text(c.is_primary_key),
                    expected: bool_text(e.is_primary_key),
                },
            ),
        ),
        v6 == v5 + render_all(
            change_if(
                c.is_compressed != e.is_compressed,
                Change {
                    kind: ChangeKind::Compression,
                    column: e.name,
                    current: bool_text(c.is_compressed),
                    expected: bool_text(e.is_compressed),
                },
            ),
        ),
    ensures
        v6 == start + render_all(field_diffs(c, e)),
{
    let d_type = change_if(
        c.sql_type != e.sql_type,
        Change {
            kind: ChangeKind::Type,
            column: e.name,
            current: c.sql_type,
            expected: e.sql_type,
        },
    );
    let d_null = change_if(
        c.nullable != e.nullable,
        Change {
            kind: ChangeKind::Nullability,
            column: e.name,
            current: bool_text(c.nullable),
            expected: bool_text(e.nullable),
        },
    );
    let d_place = change_if(
        c.position != e.position,
        Change {
            kind: ChangeKind::Position,
            column: e.name,
            current: signed_decimal(c.position),
            expected: signed_decimal(e.position),
        },
    );
    let d_unique = change_if(
        c.is_unique != e.is_unique,
        Change {
            kind: ChangeKind::Unique,
            column: e.name,
            current: bool_text(c.is_unique),
            expected: bool_text(e.is_unique),
        },
    );
    let d_key = change_if(
        c.is_primary_key != e.is_primary_key,
        Change {
            kind: ChangeKind::PrimaryKey,
            column: e.name,
            current: bool_text(c.is_primary_key),
            expected: bool_text(e.is_primary_key),
        },
    );
    let d_packed = change_if(
        c.is_compressed != e.is_compressed,
        Change {
            kind: ChangeKind::Compression,
            column: e.name,
            current: bool_text(c.is_compressed),
            expected: bool_text(e.is_compressed),
        },
    );
    assert(render_all(Seq::<Change>::empty()) =~= Seq::<Seq<char>>::empty());
    assert(start =~= start + render_all(Seq::<Change>::empty()));
    assert(Seq::<Change>::empty() + d_type =~= d_type);
    lemma_render_extend(start, Seq::empty(), d_type, start, v1);
    lemma_render_extend(start, d_type, d_null, v1, v2);
    lemma_render_extend(start, d_type + d_null, d_place, v2, v3);
    lemma_render_extend(start, d_type + d_null + d_place, d_unique, v3, v4);
    lemma_render_extend(start, d_type + d_null + d_place + d_unique, d_key, v4, v5);
    lemma_render_extend(start, d_type + d_null + d_place + d_unique + d_key, d_packed, v5, v6);
    assert(field_diffs(c, e) == d_type + d_null + d_place + d_unique + d_key + d_packed);
}

/// Owned copies of a list of columns.
pub fn copy_columns(cols: &[ColumnInfo]) -> (out: Vec<ColumnInfo>)
    ensures
        column_specs(out@) == column_specs(cols@),
{
    let mut out: Vec<ColumnInfo> = Vec::new();
    let mut i: usize = 0;
    while i < cols.len()
        invariant
            i <= cols@.len(),
            out@.len() == i,
            forall|j: int| 0 <= j < i ==> (#[trigger] out@[j])@ == cols@[j]@,
        decreases cols@.len() - i,
    {
        out.push(cols[i].clone());
        i = i + 1;
    }
    assert(column_specs(out@) =~= column_specs(cols@));
    out
}

/// Compares the live table's columns with the model's. Every difference gives
/// one message: the column counts, then for each column of the model either
/// that it is missing or each field that differs, then each live column that
/// the model does not name. A migration is needed exactly where there is a
/// message. The inputs are handed back untouched.
pub fn compare_schemas(current: &[ColumnInfo], expected: &[ColumnInfo]) -> (r: SchemaComparison)
    ensures
        views(r.changes@) == render_all(
            schema_diff(column_specs(current@), column_specs(expected@)),
        ),
        r.needs_migration == (schema_diff(column_specs(current@), column_specs(expected@)).len()
            > 0),
        column_specs(r.current_columns@) == column_specs(current@),
        column_specs(r.expected_columns@) == column_specs(expected@),
{
    let ghost cur = column_specs(current@);
    let ghost exp = column_specs(expected@);
    let mut changes: Vec<String> = Vec::new();
    if current.len() != expected.len() {
        let mut message = "Column count differs: ".to_owned();
        push_decimal(&mut message, current.len() as u64);
        message.append(" vs ");
        push_decimal(&mut message, expected.len() as u64);
        changes.push(message);
    }
    assert(views(changes@) =~= render_all(count_diff(cur, exp)));
    let mut k: usize = 0;
    while k < expected.len()
        invariant
            k <= expected@.len(),
            cur == column_specs(current@),
            exp == column_specs(expected@),
            views(changes@) == render_all(count_diff(cur, exp) + expected_diffs(cur, exp, k as nat)),
        decreases expected@.len() - k,
    {
        let e = &expected[k];
        let ghost before = views(changes@);
        match find_index(current, &e.name) {
            Some(j) => {
                push_field_changes(&mut changes, &current[j], e);
            },
            None => {
                let mut message = "Missing column: ".to_owned();
                message.append(e.name.as_str());
                changes.push(message);
            },
        }
        proof {
            assert(exp[k as int] == e@);
            assert(views(changes@) =~= before + render_all(column_diff(cur, e@)));
            assert(render_all(
                count_diff(cur, exp) + expected_diffs(cur, exp, (k + 1) as nat),
            ) =~= render_all(count_diff(cur, exp) + expected_diffs(cur, exp, k as nat))
                + render_all(column_diff(cur, e@)));
        }
        k = k + 1;
    }
    let mut m: usize = 0;
    while m < current.len()
        invariant
            m <= current@.len(),
            cur == column_specs(current@),
            exp == column_specs(expected@),
            views(changes@) == render_all(
                count_diff(cur, exp) + expected_diffs(cur, exp, exp.len()) + extra_diffs(
                    cur,
                    exp,
                    m as nat,
                ),
            ),
        decreases current@.len() - m,
    {
        let c = &current[m];
        let ghost before = views(changes@);
        let ghost step = change_if(
            find_column(exp, c@.name) is None,
            Change {
                kind: ChangeKind::Extra,
                column: c@.name,
                current: Seq::empty(),
                expected: Seq::empty(),
            },
        );
        if find_index(expected, &c.name).is_none() {
            let mut message = "Extra column: ".to_owned();
            message.append(c.name.as_str());
            changes.push(message);
        }
        proof {
            assert(cur[m as int] == c@);
            assert(views(changes@) =~= before + render_all(step));
            assert(render_all(
                count_diff(cur, exp) + expected_diffs(cur, exp, exp.len()) + extra_diffs(
                    cur,
                    exp,
                    (m + 1) as nat,
                ),
            ) =~= render_all(
                count_diff(cur, exp) + expected_diffs(cur, exp, exp.len()) + extra_diffs(
                    cur,
                    exp,
                    m as nat,
                ),
            ) + render_all(step));
        }
        m = m + 1;
    }
    let needs_migration = changes.len() > 0;
    SchemaComparison {
        needs_migration,
        changes,
        current_columns: copy_columns(current),
        expected_columns: copy_columns(expected),
    }
}

} // verus!
