//! What holds of every run of the executor: which commands it hands out, in
//! which order, for each of the three ways a migration can go.

use crate::migrations::ddl::{copy_sql, create_table_sql};
use crate::migrations::dialect::Dialect;
use crate::migrations::diff_facts::lemma_same_schema_no_change;
use crate::migrations::executor::{
    backup_of, created, matched, migrated, next, next_drop, rows_of, temp_of, CommandSpec,
    MigrationSpec, ReplySpec, Stage,
};
use crate::migrations::retention::{backups_among, sweep};
use crate::migrations::schema::{names_unique, render_all, schema_diff, ColumnSpec};
use crate::migrations::statements::{
    backups_query, count_sql, drop_sql, foreign_keys_on, rename_sql,
};
use vstd::prelude::*;

verus! {

/// The commands that the executor hands out on a run of replies, in order.
pub open spec fn commands(m: MigrationSpec, replies: Seq<ReplySpec>) -> Seq<CommandSpec>
    decreases replies.len(),
{
    if replies.len() == 0 {
        Seq::empty()
    } else {
        seq![next(m, replies[0]).1] + commands(next(m, replies[0]).0, replies.drop_first())
    }
}

/// The state of the executor after a run of replies.
pub open spec fn state_after(m: MigrationSpec, replies: Seq<ReplySpec>) -> MigrationSpec
    decreases replies.len(),
{
    if replies.len() == 0 {
        m
    } else {
        state_after(next(m, replies[0]).0, replies.drop_first())
    }
}

/// A run is split at any point: the commands of the first part, then those
/// of the rest from the state the first part leaves.
pub proof fn lemma_commands_split(m: MigrationSpec, first: Seq<ReplySpec>, rest: Seq<ReplySpec>)
    ensures
        commands(m, first + rest) == commands(m, first) + commands(state_after(m, first), rest),
        state_after(m, first + rest) == state_after(state_after(m, first), rest),
    decreases first.len(),
{
    if first.len() == 0 {
        assert(first + rest =~= rest);
        assert(commands(m, first) + commands(m, rest) =~= commands(m, rest));
    } else {
        assert((first + rest).drop_first() =~= first.drop_first() + rest);
        assert((first + rest)[0] == first[0]);
        lemma_commands_split(next(m, first[0]).0, first.drop_first(), rest);
        assert(commands(m, first + rest) =~= commands(m, first) + commands(
            state_after(m, first),
            rest,
        ));
    }
}

/// The replies of a run in which there is no table.
pub open spec fn replies_without_table(dialect: Dialect) -> Seq<ReplySpec> {
    match dialect {
        Dialect::Sqlite => seq![ReplySpec::Exists(false), ReplySpec::Done, ReplySpec::Done],
        Dialect::Postgres => seq![ReplySpec::Exists(false), ReplySpec::Done],
    }
}

/// Where there is no table, it is created from the model's columns and the
/// run ends with `TableCreated`. The embedded engine is first told to
/// enforce foreign keys.
pub proof fn lemma_missing_table_is_created(m: MigrationSpec)
    requires
        m.stage == Stage::CheckingExists,
    ensures
        commands(m, replies_without_table(m.dialect)) == match m.dialect {
            Dialect::Sqlite => seq![
                CommandSpec::Execute(foreign_keys_on()),
                CommandSpec::Execute(create_table_sql(m.dialect, m.table, m.expected)),
                CommandSpec::Finish(created(m)),
            ],
            Dialect::Postgres => seq![
                CommandSpec::Execute(create_table_sql(m.dialect, m.table, m.expected)),
                CommandSpec::Finish(created(m)),
            ],
        },
        state_after(m, replies_without_table(m.dialect)).stage == Stage::Finished,
{
    let replies = replies_without_table(m.dialect);
    reveal_with_fuel(commands, 4);
    reveal_with_fuel(state_after, 4);
    match m.dialect {
        Dialect::Sqlite => {
            let r1 = replies.drop_first();
            let r2 = r1.drop_first();
            assert(r1[0] == ReplySpec::Done && r2[0] == ReplySpec::Done);
            assert(r2.drop_first().len() == 0);
            assert(commands(m, replies) =~= seq![
                CommandSpec::Execute(foreign_keys_on()),
                CommandSpec::Execute(create_table_sql(m.dialect, m.table, m.expected)),
                CommandSpec::Finish(created(m)),
            ]);
        },
        Dialect::Postgres => {
            let r1 = replies.drop_first();
            assert(r1[0] == ReplySpec::Done);
            assert(r1.drop_first().len() == 0);
            assert(commands(m, replies) =~= seq![
                CommandSpec::Execute(create_table_sql(m.dialect, m.table, m.expected)),
                CommandSpec::Finish(created(m)),
            ]);
        },
    }
}

/// Where the live table does not differ from the model, the run ends with
/// `SchemaMatched` after the schema was read: no statement is run, so no
/// table is made, renamed or dropped.
pub proof fn lemma_matching_table_is_left_alone(m: MigrationSpec, current: Seq<ColumnSpec>)
    requires
        m.stage == Stage::CheckingExists,
        schema_diff(current, m.expected).len() == 0,
    ensures
        commands(m, seq![ReplySpec::Exists(true), ReplySpec::Schema(current)]) == seq![
            CommandSpec::ReadSchema(m.table),
            CommandSpec::Finish(matched()),
        ],
        state_after(m, seq![ReplySpec::Exists(true), ReplySpec::Schema(current)]).stage
            == Stage::Finished,
{
    let replies = seq![ReplySpec::Exists(true), ReplySpec::Schema(current)];
    reveal_with_fuel(commands, 3);
    reveal_with_fuel(state_after, 3);
    let r1 = replies.drop_first();
    assert(r1[0] == ReplySpec::Schema(current));
    assert(r1.drop_first().len() == 0);
    assert(commands(m, replies) =~= seq![
        CommandSpec::ReadSchema(m.table),
        CommandSpec::Finish(matched()),
    ]);
}

/// A second migration finds nothing to do: where the live table has exactly
/// the columns that the model asks for, the run ends with `SchemaMatched`
/// and runs no statement. This holds for every model with unique column
/// names.
pub proof fn lemma_migrated_table_is_left_alone(m: MigrationSpec)
    requires
        m.stage == Stage::CheckingExists,
        names_unique(m.expected),
    ensures
        commands(m, seq![ReplySpec::Exists(true), ReplySpec::Schema(m.expected)]) == seq![
            CommandSpec::ReadSchema(m.table),
            CommandSpec::Finish(matched()),
        ],
{
    lemma_same_schema_no_change(m.expected);
    lemma_matching_table_is_left_alone(m, m.expected);
}

/// The replies of a rebuild up to the sweep: the table exists, its columns,
/// the time, four statements done, the row count, the candidate backups and
/// the time of the sweep.
pub open spec fn rebuild_replies(
    current: Seq<ColumnSpec>,
    seconds: nat,
    count: int,
    names: Seq<Seq<char>>,
    now: nat,
) -> Seq<ReplySpec> {
    seq![
        ReplySpec::Exists(true),
        ReplySpec::Schema(current),
        ReplySpec::Clock(seconds),
        ReplySpec::Done,
        ReplySpec::Done,
        ReplySpec::Done,
        ReplySpec::Done,
        ReplySpec::Count(count),
        ReplySpec::Names(names),
        ReplySpec::Clock(now),
    ]
}

/// The state in which a rebuild starts to sweep.
pub open spec fn swept(
    m: MigrationSpec,
    current: Seq<ColumnSpec>,
    seconds: nat,
    count: int,
    names: Seq<Seq<char>>,
    now: nat,
) -> MigrationSpec {
    MigrationSpec {
        stage: Stage::ReadingSweepClock,
        current,
        changes: render_all(schema_diff(current, m.expected)),
        timestamp: seconds,
        rows: rows_of(count),
        candidates: names,
        drops: sweep(backups_among(names, m.suffix, names.len()), now, m.keep, m.days),
        dropped: 0,
        ..m
    }
}

/// Where the live table differs from the model, the table is rebuilt by
/// these steps in this order, none left out and nothing between them: the
/// schema is read, the clock is read, the new table is created under the
/// temporary name, the rows are copied by one statement, the old table is
/// renamed to the backup, the new table is renamed to the table's name, the
/// rows are counted, the backups are listed, the clock is read again, and
/// the sweep begins. The old table is renamed; no statement drops it.
pub proof fn lemma_rebuild_steps(
    m: MigrationSpec,
    current: Seq<ColumnSpec>,
    seconds: nat,
    count: int,
    names: Seq<Seq<char>>,
    now: nat,
)
    requires
        m.stage == Stage::CheckingExists,
        schema_diff(current, m.expected).len() > 0,
    ensures
        ({
            let at = MigrationSpec { timestamp: seconds, ..m };
            let plan = swept(m, current, seconds, count, names, now);
            commands(m, rebuild_replies(current, seconds, count, names, now)) == seq![
                CommandSpec::ReadSchema(m.table),
                CommandSpec::ReadClock,
                CommandSpec::Execute(create_table_sql(m.dialect, temp_of(at), m.expected)),
                CommandSpec::Execute(
                    copy_sql(m.dialect, m.table, temp_of(at), current, m.expected),
                ),
                CommandSpec::Execute(rename_sql(m.table, backup_of(at))),
                CommandSpec::Execute(rename_sql(temp_of(at), m.table)),
                CommandSpec::CountRows(count_sql(m.table)),
                CommandSpec::ListBackups(backups_query(m.dialect, m.table, m.suffix)),
                CommandSpec::ReadClock,
                next_drop(plan).1,
            ] && state_after(m, rebuild_replies(current, seconds, count, names, now))
                == next_drop(plan).0
        }),
{
    let replies = rebuild_replies(current, seconds, count, names, now);
    let at = MigrationSpec { timestamp: seconds, ..m };
    let plan = swept(m, current, seconds, count, names, now);
    let changes = render_all(schema_diff(current, m.expected));
    let s1 = MigrationSpec { stage: Stage::ReadingSchema, ..m };
    let s2 = MigrationSpec { stage: Stage::ReadingClock, current, changes, ..m };
    let s3 = MigrationSpec { stage: Stage::CreatingTemp, timestamp: seconds, ..s2 };
    let s4 = MigrationSpec { stage: Stage::Copying, ..s3 };
    let s5 = MigrationSpec { stage: Stage::RenamingToBackup, ..s3 };
    let s6 = MigrationSpec { stage: Stage::RenamingToTable, ..s3 };
    let s7 = MigrationSpec { stage: Stage::Counting, ..s3 };
    let s8 = MigrationSpec { stage: Stage::ListingBackups, rows: rows_of(count), ..s3 };
    let s9 = MigrationSpec { stage: Stage::ReadingSweepClock, candidates: names, ..s8 };
    let r0 = replies;
    let r1 = r0.drop_first();
    let r2 = r1.drop_first();
    let r3 = r2.drop_first();
    let r4 = r3.drop_first();
    let r5 = r4.drop_first();
    let r6 = r5.drop_first();
    let r7 = r6.drop_first();
    let r8 = r7.drop_first();
    let r9 = r8.drop_first();
    let r10 = r9.drop_first();
    assert(r10.len() == 0);
    assert(next(m, r0[0]).0 == s1);
    assert(next(s1, r1[0]).0 == s2);
    assert(next(s2, r2[0]).0 == s3);
    assert(next(s3, r3[0]).0 == s4);
    assert(next(s4, r4[0]).0 == s5);
    assert(next(s5, r5[0]).0 == s6);
    assert(next(s6, r6[0]).0 == s7);
    assert(next(s7, r7[0]).0 == s8);
    assert(next(s8, r8[0]).0 == s9);
    assert(next(s9, r9[0]) == next_drop(plan));
    assert(temp_of(s3) == temp_of(at) && backup_of(s3) == backup_of(at));
    assert(commands(next_drop(plan).0, r10) =~= Seq::<CommandSpec>::empty());
    assert(commands(s9, r9) =~= seq![next_drop(plan).1]);
    assert(commands(s8, r8) =~= seq![CommandSpec::ReadClock] + commands(s9, r9));
    assert(commands(s7, r7) =~= seq![
        CommandSpec::ListBackups(backups_query(m.dialect, m.table, m.suffix)),
    ] + commands(s8, r8));
    assert(commands(s6, r6) =~= seq![CommandSpec::CountRows(count_sql(m.table))] + commands(
        s7,
        r7,
    ));
    assert(commands(s5, r5) =~= seq![CommandSpec::Execute(rename_sql(temp_of(at), m.table))]
        + commands(s6, r6));
    assert(commands(s4, r4) =~= seq![CommandSpec::Execute(rename_sql(m.table, backup_of(at)))]
        + commands(s5, r5));
    assert(commands(s3, r3) =~= seq![
        CommandSpec::Execute(copy_sql(m.dialect, m.table, temp_of(at), current, m.expected)),
    ] + commands(s4, r4));
    assert(commands(s2, r2) =~= seq![
        CommandSpec::Execute(create_table_sql(m.dialect, temp_of(at), m.expected)),
    ] + commands(s3, r3));
    assert(commands(s1, r1) =~= seq![CommandSpec::ReadClock] + commands(s2, r2));
    assert(commands(m, r0) =~= seq![CommandSpec::ReadSchema(m.table)] + commands(s1, r1));
    assert(state_after(next_drop(plan).0, r10) == next_drop(plan).0);
    assert(state_after(s9, r9) == next_drop(plan).0);
    assert(state_after(s8, r8) == next_drop(plan).0);
    assert(state_after(s7, r7) == next_drop(plan).0);
    assert(state_after(s6, r6) == next_drop(plan).0);
    assert(state_after(s5, r5) == next_drop(plan).0);
    assert(state_after(s4, r4) == next_drop(plan).0);
    assert(state_after(s3, r3) == next_drop(plan).0);
    assert(state_after(s2, r2) == next_drop(plan).0);
    assert(state_after(s1, r1) == next_drop(plan).0);
}

/// `n` times that a statement ran.
pub open spec fn done_times(n: nat) -> Seq<ReplySpec> {
    Seq::new(n, |i: int| ReplySpec::Done)
}

/// The drop statements for the planned drops from number `from` on.
pub open spec fn drop_commands(drops: Seq<Seq<char>>, from: nat) -> Seq<CommandSpec>
    decreases drops.len() - from,
{
    if from >= drops.len() {
        Seq::empty()
    } else {
        seq![CommandSpec::Execute(drop_sql(drops[from as int]))] + drop_commands(drops, from + 1)
    }
}

/// The sweep drops the planned backups one by one in their order, and the
/// run ends with `DataMigrated` once the last drop is done: from a state in
/// which `k` of the planned drops were handed out and the last of them is
/// under way.
pub proof fn lemma_sweep_steps(m: MigrationSpec)
    requires
        m.stage == Stage::Dropping,
        m.dropped <= m.drops.len(),
    ensures
        commands(m, done_times((m.drops.len() - m.dropped + 1) as nat)) == drop_commands(
            m.drops,
            m.dropped,
        ) + seq![CommandSpec::Finish(migrated(m))],
        state_after(m, done_times((m.drops.len() - m.dropped + 1) as nat)).stage
            == Stage::Finished,
    decreases m.drops.len() - m.dropped,
{
    let n = (m.drops.len() - m.dropped + 1) as nat;
    let replies = done_times(n);
    assert(replies[0] == ReplySpec::Done);
    if m.dropped < m.drops.len() {
        let after = MigrationSpec { dropped: m.dropped + 1, ..m };
        assert(next(m, replies[0]).0 == after);
        assert(replies.drop_first() =~= done_times((n - 1) as nat));
        lemma_sweep_steps(after);
        assert(migrated(after) == migrated(m));
        let first = CommandSpec::Execute(drop_sql(m.drops[m.dropped as int]));
        let end = seq![CommandSpec::Finish(migrated(m))];
        assert(next(m, replies[0]).1 == first);
        assert(commands(m, replies) == seq![first] + commands(after, replies.drop_first()));
        assert(commands(after, replies.drop_first()) == drop_commands(m.drops, m.dropped + 1)
            + end);
        assert(drop_commands(m.drops, m.dropped) == seq![first] + drop_commands(
            m.drops,
            m.dropped + 1,
        ));
        assert(seq![first] + (drop_commands(m.drops, m.dropped + 1) + end) =~= (seq![first]
            + drop_commands(m.drops, m.dropped + 1)) + end);
    } else {
        assert(replies.drop_first().len() == 0);
        assert(next(m, replies[0]).1 == CommandSpec::Finish(migrated(m)));
        assert(commands(next(m, replies[0]).0, replies.drop_first()) =~= Seq::<
            CommandSpec,
        >::empty());
        assert(drop_commands(m.drops, m.dropped) =~= Seq::<CommandSpec>::empty());
        assert(commands(m, replies) =~= drop_commands(m.drops, m.dropped) + seq![
            CommandSpec::Finish(migrated(m)),
        ]);
        assert(state_after(next(m, replies[0]).0, replies.drop_first()) == next(m, replies[0]).0);
    }
}

/// The whole run of a rebuild, from the first reply to the outcome: the
/// steps of the rebuild, then one drop for each backup that the sweep
/// planned, in the plan's order, then `DataMigrated` with the backup's name,
/// the row count and the comparator's messages.
pub proof fn lemma_rebuild_run(
    m: MigrationSpec,
    current: Seq<ColumnSpec>,
    seconds: nat,
    count: int,
    names: Seq<Seq<char>>,
    now: nat,
)
    requires
        m.stage == Stage::CheckingExists,
        schema_diff(current, m.expected).len() > 0,
    ensures
        ({
            let at = MigrationSpec { timestamp: seconds, ..m };
            let plan = swept(m, current, seconds, count, names, now);
            commands(
                m,
                rebuild_replies(current, seconds, count, names, now) + done_times(plan.drops.len()),
            ) == seq![
                CommandSpec::ReadSchema(m.table),
                CommandSpec::ReadClock,
                CommandSpec::Execute(create_table_sql(m.dialect, temp_of(at), m.expected)),
                CommandSpec::Execute(
                    copy_sql(m.dialect, m.table, temp_of(at), current, m.expected),
                ),
                CommandSpec::Execute(rename_sql(m.table, backup_of(at))),
                CommandSpec::Execute(rename_sql(temp_of(at), m.table)),
                CommandSpec::CountRows(count_sql(m.table)),
                CommandSpec::ListBackups(backups_query(m.dialect, m.table, m.suffix)),
                CommandSpec::ReadClock,
            ] + drop_commands(plan.drops, 0) + seq![CommandSpec::Finish(migrated(plan))]
        }),
{
    let at = MigrationSpec { timestamp: seconds, ..m };
    let plan = swept(m, current, seconds, count, names, now);
    let first = rebuild_replies(current, seconds, count, names, now);
    let rest = done_times(plan.drops.len());
    let nine = seq![
        CommandSpec::ReadSchema(m.table),
        CommandSpec::ReadClock,
        CommandSpec::Execute(create_table_sql(m.dialect, temp_of(at), m.expected)),
        CommandSpec::Execute(copy_sql(m.dialect, m.table, temp_of(at), current, m.expected)),
        CommandSpec::Execute(rename_sql(m.table, backup_of(at))),
        CommandSpec::Execute(rename_sql(temp_of(at), m.table)),
        CommandSpec::CountRows(count_sql(m.table)),
        CommandSpec::ListBackups(backups_query(m.dialect, m.table, m.suffix)),
        CommandSpec::ReadClock,
    ];
    let end = seq![CommandSpec::Finish(migrated(plan))];
    lemma_rebuild_steps(m, current, seconds, count, names, now);
    lemma_commands_split(m, first, rest);
    let state = next_drop(plan).0;
    assert(commands(m, first) =~= nine + seq![next_drop(plan).1]);
    if plan.drops.len() == 0 {
        assert(rest.len() == 0);
        assert(commands(state, rest) =~= Seq::<CommandSpec>::empty());
        assert(drop_commands(plan.drops, 0) =~= Seq::<CommandSpec>::empty());
        assert(commands(m, first + rest) =~= nine + drop_commands(plan.drops, 0) + end);
    } else {
        assert(state.stage == Stage::Dropping && state.dropped == 1);
        lemma_sweep_steps(state);
        assert(migrated(state) == migrated(plan));
        assert(rest =~= done_times((state.drops.len() - state.dropped + 1) as nat));
        let head = CommandSpec::Execute(drop_sql(plan.drops[0]));
        assert(next_drop(plan).1 == head);
        assert(drop_commands(plan.drops, 0) == seq![head] + drop_commands(plan.drops, 1));
        assert(commands(m, first + rest) =~= nine + drop_commands(plan.drops, 0) + end);
    }
}

} // verus!
