//! What holds of the comparator's change list for every pair of tables.

use crate::migrations::schema::{
    change_if, column_diff, count_diff, expected_diffs, extra_diffs, field_diffs, find_column,
    lemma_find_column, lemma_find_own, names_unique, render, render_all, schema_diff, Change,
    ChangeKind, ColumnSpec,
};
use vstd::prelude::*;

verus! {

/// A table compared with itself gives no change, so no migration is needed:
/// for every table whose column names are unique.
pub proof fn lemma_same_schema_no_change(s: Seq<ColumnSpec>)
    requires
        names_unique(s),
    ensures
        schema_diff(s, s) == Seq::<Change>::empty(),
{
    lemma_same_expected(s, s.len());
    lemma_same_extra(s, s.len());
    assert(schema_diff(s, s) =~= Seq::<Change>::empty());
}

proof fn lemma_same_expected(s: Seq<ColumnSpec>, k: nat)
    requires
        names_unique(s),
        k <= s.len(),
    ensures
        expected_diffs(s, s, k) == Seq::<Change>::empty(),
    decreases k,
{
    if k > 0 {
        lemma_same_expected(s, (k - 1) as nat);
        lemma_find_own(s, k - 1);
        assert(field_diffs(s[k - 1], s[k - 1]) =~= Seq::<Change>::empty());
        assert(expected_diffs(s, s, k) =~= Seq::<Change>::empty());
    }
}

proof fn lemma_same_extra(s: Seq<ColumnSpec>, k: nat)
    requires
        names_unique(s),
        k <= s.len(),
    ensures
        extra_diffs(s, s, k) == Seq::<Change>::empty(),
    decreases k,
{
    if k > 0 {
        lemma_same_extra(s, (k - 1) as nat);
        lemma_find_own(s, k - 1);
        assert(extra_diffs(s, s, k) =~= Seq::<Change>::empty());
    }
}

proof fn lemma_one_expected(current: Seq<ColumnSpec>, k: int, e: ColumnSpec, n: nat)
    requires
        names_unique(current),
        0 <= k < current.len(),
        e.name == current[k].name,
        n <= current.len(),
    ensures
        expected_diffs(current, current.update(k, e), n) == if n <= k {
            Seq::<Change>::empty()
        } else {
            field_diffs(current[k], e)
        },
    decreases n,
{
    if n > 0 {
        let expected = current.update(k, e);
        lemma_one_expected(current, k, e, (n - 1) as nat);
        lemma_find_own(current, n - 1);
        assert(expected[n - 1].name == current[n - 1].name);
        if n - 1 == k {
            assert(column_diff(current, expected[n - 1]) == field_diffs(current[k], e));
            assert(expected_diffs(current, expected, n) =~= field_diffs(current[k], e));
        } else {
            assert(expected[n - 1] == current[n - 1]);
            assert(field_diffs(current[n - 1], current[n - 1]) =~= Seq::<Change>::empty());
            assert(expected_diffs(current, expected, n) =~= expected_diffs(
                current,
                expected,
                (n - 1) as nat,
            ));
        }
    }
}

proof fn lemma_one_extra(current: Seq<ColumnSpec>, k: int, e: ColumnSpec, n: nat)
    requires
        names_unique(current),
        0 <= k < current.len(),
        e.name == current[k].name,
        n <= current.len(),
    ensures
        extra_diffs(current, current.update(k, e), n) == Seq::<Change>::empty(),
    decreases n,
{
    if n > 0 {
        let expected = current.update(k, e);
        lemma_one_extra(current, k, e, (n - 1) as nat);
        assert(names_unique(expected)) by {
            assert forall|i: int, j: int|
                0 <= i < expected.len() && 0 <= j < expected.len() && i != j implies (
            #[trigger] expected[i]).name != (#[trigger] expected[j]).name by {
                assert(expected[i].name == current[i].name);
                assert(expected[j].name == current[j].name);
            }
        }
        lemma_find_own(expected, n - 1);
        assert(expected[n - 1].name == current[n - 1].name);
        assert(extra_diffs(current, expected, n) =~= Seq::<Change>::empty());
    }
}

/// Where the model is the live table but for one column, which keeps its
/// name, the changes are that column's field differences and nothing else:
/// for every table whose column names are unique.
pub proof fn lemma_one_column_differs(current: Seq<ColumnSpec>, k: int, e: ColumnSpec)
    requires
        names_unique(current),
        0 <= k < current.len(),
        e.name == current[k].name,
    ensures
        schema_diff(current, current.update(k, e)) == field_diffs(current[k], e),
{
    lemma_one_expected(current, k, e, current.len());
    lemma_one_extra(current, k, e, current.len());
    assert(schema_diff(current, current.update(k, e)) =~= field_diffs(current[k], e));
}

/// A column that gains uniqueness is one change. Where the model is the live
/// table but for one column that the model makes unique, the change list
/// holds exactly one change, the uniqueness of that column from false to
/// true, and so one message: for every table whose column names are unique
/// and every column of it.
pub proof fn lemma_gained_unique_is_one_change(current: Seq<ColumnSpec>, k: int)
    requires
        names_unique(current),
        0 <= k < current.len(),
        !current[k].is_unique,
    ensures
        ({
            let expected = current.update(k, ColumnSpec { is_unique: true, ..current[k] });
            &&& schema_diff(current, expected) == seq![
                Change {
                    kind: ChangeKind::Unique,
                    column: current[k].name,
                    current: "false"@,
                    expected: "true"@,
                },
            ]
            &&& render_all(schema_diff(current, expected)) == seq![
                "Unique constraint mismatch"@ + " for "@ + current[k].name + ": "@ + "false"@
                    + " vs "@ + "true"@,
            ]
        }),
{
    let e = ColumnSpec { is_unique: true, ..current[k] };
    let change = Change {
        kind: ChangeKind::Unique,
        column: current[k].name,
        current: "false"@,
        expected: "true"@,
    };
    lemma_one_column_differs(current, k, e);
    assert(field_diffs(current[k], e) =~= seq![change]);
    assert(render_all(seq![change]) =~= seq![render(change)]);
}

/// Whether a table has a column of that name.
pub open spec fn has_column(cols: Seq<ColumnSpec>, name: Seq<char>) -> bool {
    find_column(cols, name) is Some
}

/// The column of that name.
pub open spec fn column_named(cols: Seq<ColumnSpec>, name: Seq<char>) -> ColumnSpec {
    cols[find_column(cols, name)->Some_0]
}

/// Whether the live table and the model differ in the way `kind` names, for
/// the column named `column`. The column count is a matter of no column, and
/// goes under the empty name.
pub open spec fn differs(
    current: Seq<ColumnSpec>,
    expected: Seq<ColumnSpec>,
    kind: ChangeKind,
    column: Seq<char>,
) -> bool {
    let both = has_column(current, column) && has_column(expected, column);
    let c = column_named(current, column);
    let e = column_named(expected, column);
    match kind {
        ChangeKind::ColumnCount => column.len() == 0 && current.len() != expected.len(),
        ChangeKind::Missing => has_column(expected, column) && !has_column(current, column),
        ChangeKind::Extra => has_column(current, column) && !has_column(expected, column),
        ChangeKind::Type => both && c.sql_type != e.sql_type,
        ChangeKind::Nullability => both && c.nullable != e.nullable,
        ChangeKind::Position => both && c.position != e.position,
        ChangeKind::Unique => both && c.is_unique != e.is_unique,
        ChangeKind::PrimaryKey => both && c.is_primary_key != e.is_primary_key,
        ChangeKind::Compression => both && c.is_compressed != e.is_compressed,
    }
}

/// How many changes of a list are of `kind` and about `column`.
pub open spec fn reports(changes: Seq<Change>, kind: ChangeKind, column: Seq<char>) -> nat
    decreases changes.len(),
{
    if changes.len() == 0 {
        0
    } else {
        reports(changes.drop_last(), kind, column) + if changes.last().kind == kind
            && changes.last().column == column {
            1nat
        } else {
            0nat
        }
    }
}

/// Reports add up over concatenation.
pub proof fn lemma_reports_concat(a: Seq<Change>, b: Seq<Change>, kind: ChangeKind, column: Seq<char>)
    ensures
        reports(a + b, kind, column) == reports(a, kind, column) + reports(b, kind, column),
    decreases b.len(),
{
    if b.len() == 0 {
        assert(a + b =~= a);
    } else {
        assert((a + b).drop_last() =~= a + b.drop_last());
        assert((a + b).last() == b.last());
        lemma_reports_concat(a, b.drop_last(), kind, column);
    }
}

/// A list of at most one change reports it once, if it is the one asked for.
proof fn lemma_reports_change_if(cond: bool, change: Change, kind: ChangeKind, column: Seq<char>)
    ensures
        reports(change_if(cond, change), kind, column) == if cond && change.kind == kind
            && change.column == column {
            1nat
        } else {
            0nat
        },
{
    if cond {
        assert(seq![change].drop_last() =~= Seq::<Change>::empty());
        assert(seq![change].last() == change);
        assert(reports(Seq::<Change>::empty(), kind, column) == 0);
    }
}

/// The field differences of two columns report each differing field once,
/// under the model column's name.
proof fn lemma_reports_fields(c: ColumnSpec, e: ColumnSpec, kind: ChangeKind, column: Seq<char>)
    ensures
        reports(field_diffs(c, e), kind, column) == if e.name == column && match kind {
            ChangeKind::Type => c.sql_type != e.sql_type,
            ChangeKind::Nullability => c.nullable != e.nullable,
            ChangeKind::Position => c.position != e.position,
            ChangeKind::Unique => c.is_unique != e.is_unique,
            ChangeKind::PrimaryKey => c.is_primary_key != e.is_primary_key,
            ChangeKind::Compression => c.is_compressed != e.is_compressed,
            _ => false,
        } {
            1nat
        } else {
            0nat
        },
{
    let t = Change {
        kind: ChangeKind::Type,
        column: e.name,
        current: c.sql_type,
        expected: e.sql_type,
    };
    let n = Change {
        kind: ChangeKind::Nullability,
        column: e.name,
        current: crate::text::bool_text(c.nullable),
        expected: crate::text::bool_text(e.nullable),
    };
    let p = Change {
        kind: ChangeKind::Position,
        column: e.name,
        current: crate::text::signed_decimal(c.position),
        expected: crate::text::signed_decimal(e.position),
    };
    let u = Change {
        kind: ChangeKind::Unique,
        column: e.name,
        current: crate::text::bool_text(c.is_unique),
        expected: crate::text::bool_text(e.is_unique),
    };
    let k = Change {
        kind: ChangeKind::PrimaryKey,
        column: e.name,
        current: crate::text::bool_text(c.is_primary_key),
        expected: crate::text::bool_text(e.is_primary_key),
    };
    let z = Change {
        kind: ChangeKind::Compression,
        column: e.name,
        current: crate::text::bool_text(c.is_compressed),
        expected: crate::text::bool_text(e.is_compressed),
    };
    let d_type = change_if(c.sql_type != e.sql_type, t);
    let d_null = change_if(c.nullable != e.nullable, n);
    let d_place = change_if(c.position != e.position, p);
    let d_unique = change_if(c.is_unique != e.is_unique, u);
    let d_key = change_if(c.is_primary_key != e.is_primary_key, k);
    let d_packed = change_if(c.is_compressed != e.is_compressed, z);
    assert(field_diffs(c, e) == d_type + d_null + d_place + d_unique + d_key + d_packed);
    lemma_reports_change_if(c.sql_type != e.sql_type, t, kind, column);
    lemma_reports_change_if(c.nullable != e.nullable, n, kind, column);
    lemma_reports_change_if(c.position != e.position, p, kind, column);
    lemma_reports_change_if(c.is_unique != e.is_unique, u, kind, column);
    lemma_reports_change_if(c.is_primary_key != e.is_primary_key, k, kind, column);
    lemma_reports_change_if(c.is_compressed != e.is_compressed, z, kind, column);
    lemma_reports_concat(d_type, d_null, kind, column);
    lemma_reports_concat(d_type + d_null, d_place, kind, column);
    lemma_reports_concat(d_type + d_null + d_place, d_unique, kind, column);
    lemma_reports_concat(d_type + d_null + d_place + d_unique, d_key, kind, column);
    lemma_reports_concat(d_type + d_null + d_place + d_unique + d_key, d_packed, kind, column);
}

/// What one column of the model reports.
proof fn lemma_reports_column(
    current: Seq<ColumnSpec>,
    e: ColumnSpec,
    kind: ChangeKind,
    column: Seq<char>,
)
    ensures
        reports(column_diff(current, e), kind, column) == if e.name == column && match kind {
            ChangeKind::Missing => find_column(current, e.name) is None,
            ChangeKind::Type => find_column(current, e.name) is Some && column_named(
                current,
                e.name,
            ).sql_type != e.sql_type,
            ChangeKind::Nullability => find_column(current, e.name) is Some && column_named(
                current,
                e.name,
            ).nullable != e.nullable,
            ChangeKind::Position => find_column(current, e.name) is Some && column_named(
                current,
                e.name,
            ).position != e.position,
            ChangeKind::Unique => find_column(current, e.name) is Some && column_named(
                current,
                e.name,
            ).is_unique != e.is_unique,
            ChangeKind::PrimaryKey => find_column(current, e.name) is Some && column_named(
                current,
                e.name,
            ).is_primary_key != e.is_primary_key,
            ChangeKind::Compression => find_column(current, e.name) is Some && column_named(
                current,
                e.name,
            ).is_compressed != e.is_compressed,
            _ => false,
        } {
            1nat
        } else {
            0nat
        },
{
    match find_column(current, e.name) {
        None => {
            let m = Change {
                kind: ChangeKind::Missing,
                column: e.name,
                current: Seq::empty(),
                expected: Seq::empty(),
            };
            assert(column_diff(current, e) == change_if(true, m));
            lemma_reports_change_if(true, m, kind, column);
        },
        Some(j) => {
            lemma_reports_fields(current[j], e, kind, column);
        },
    }
}

/// What the first `k` columns of the model report about `column`: what the
/// column of that name among them reports, if there is one.
proof fn lemma_reports_expected(
    current: Seq<ColumnSpec>,
    expected: Seq<ColumnSpec>,
    k: nat,
    kind: ChangeKind,
    column: Seq<char>,
)
    requires
        names_unique(expected),
        k <= expected.len(),
    ensures
        reports(expected_diffs(current, expected, k), kind, column) == match find_column(
            expected.take(k as int),
            column,
        ) {
            Some(i) => reports(column_diff(current, expected[i]), kind, column),
            None => 0,
        },
    decreases k,
{
    if k > 0 {
        let front = expected.take(k as int);
        let e = expected[k - 1];
        lemma_reports_expected(current, expected, (k - 1) as nat, kind, column);
        lemma_reports_concat(
            expected_diffs(current, expected, (k - 1) as nat),
            column_diff(current, e),
            kind,
            column,
        );
        lemma_reports_column(current, e, kind, column);
        assert(front.last() == e);
        assert(front.drop_last() =~= expected.take(k - 1));
        if e.name == column {
            lemma_find_column(expected.take(k - 1), column);
            if let Some(i) = find_column(expected.take(k - 1), column) {
                assert(expected.take(k - 1)[i] == expected[i]);
                assert(false);
            }
        } else {
            if let Some(i) = find_column(expected.take(k - 1), column) {
                lemma_find_column(expected.take(k - 1), column);
                assert(expected.take(k - 1)[i] == expected[i]);
            }
        }
    } else {
        assert(expected.take(0).len() == 0);
    }
}

/// What the first `k` live columns report as extra.
proof fn lemma_reports_extra(
    current: Seq<ColumnSpec>,
    expected: Seq<ColumnSpec>,
    k: nat,
    kind: ChangeKind,
    column: Seq<char>,
)
    requires
        names_unique(current),
        k <= current.len(),
    ensures
        reports(extra_diffs(current, expected, k), kind, column) == if kind == ChangeKind::Extra
            && find_column(current.take(k as int), column) is Some && find_column(expected, column)
            is None {
            1nat
        } else {
            0nat
        },
    decreases k,
{
    if k > 0 {
        let front = current.take(k as int);
        let c = current[k - 1];
        let x = Change {
            kind: ChangeKind::Extra,
            column: c.name,
            current: Seq::empty(),
            expected: Seq::empty(),
        };
        lemma_reports_extra(current, expected, (k - 1) as nat, kind, column);
        lemma_reports_concat(
            extra_diffs(current, expected, (k - 1) as nat),
            change_if(find_column(expected, c.name) is None, x),
            kind,
            column,
        );
        lemma_reports_change_if(find_column(expected, c.name) is None, x, kind, column);
        assert(front.last() == c);
        assert(front.drop_last() =~= current.take(k - 1));
        if c.name == column {
            lemma_find_column(current.take(k - 1), column);
            if let Some(i) = find_column(current.take(k - 1), column) {
                assert(current.take(k - 1)[i] == current[i]);
                assert(false);
            }
        }
    } else {
        assert(current.take(0).len() == 0);
    }
}

/// Every difference is reported exactly once, and nothing else is reported:
/// for every kind of change and every column name, the change list holds one
/// change of that kind about that column where the tables differ so, and
/// none where they do not. This holds for all tables whose column names are
/// unique.
pub proof fn lemma_each_difference_once(
    current: Seq<ColumnSpec>,
    expected: Seq<ColumnSpec>,
    kind: ChangeKind,
    column: Seq<char>,
)
    requires
        names_unique(current),
        names_unique(expected),
    ensures
        reports(schema_diff(current, expected), kind, column) == if differs(
            current,
            expected,
            kind,
            column,
        ) {
            1nat
        } else {
            0nat
        },
{
    let count = count_diff(current, expected);
    let exp = expected_diffs(current, expected, expected.len());
    let extra = extra_diffs(current, expected, current.len());
    lemma_reports_concat(count, exp, kind, column);
    lemma_reports_concat(count + exp, extra, kind, column);
    let cc = Change {
        kind: ChangeKind::ColumnCount,
        column: Seq::empty(),
        current: crate::text::decimal(current.len()),
        expected: crate::text::decimal(expected.len()),
    };
    lemma_reports_change_if(current.len() != expected.len(), cc, kind, column);
    assert(column.len() == 0 <==> column == Seq::<char>::empty()) by {
        if column.len() == 0 {
            assert(column =~= Seq::<char>::empty());
        }
    }
    lemma_reports_expected(current, expected, expected.len(), kind, column);
    lemma_reports_extra(current, expected, current.len(), kind, column);
    assert(expected.take(expected.len() as int) =~= expected);
    assert(current.take(current.len() as int) =~= current);
    if let Some(i) = find_column(expected, column) {
        lemma_find_column(expected, column);
        lemma_reports_column(current, expected[i], kind, column);
    }
}

} // verus!
