//! The backup retention sweeper: which of a table's backups go.
//!
//! A backup of table `t` is named `t_<suffix>_<seconds>`, the seconds being
//! the Unix time of the migration that made it. After a migration the
//! backups are ranked from the newest, and a backup is dropped where its rank
//! is not below the configured count, or where it is older than the
//! configured number of days. Each condition counts on its own.

use crate::migrations::config::MigrationConfig;
use crate::scan::{find, find_from, parse_u64, read_u64, to_chars};
use crate::text::{lemma_views_push, push_decimal, decimal, views};
use vstd::prelude::*;
use vstd::string::*;

verus! {

/// Seconds in a day.
pub const SECONDS_PER_DAY: u64 = 86400;

/// A backup table and the time in its name.
#[derive(Debug, Clone)]
pub struct MigrationTableInfo {
    pub name: String,
    pub timestamp: u64,
}

/// A backup table as a mathematical value.
pub struct BackupSpec {
    pub name: Seq<char>,
    pub timestamp: nat,
}

impl View for MigrationTableInfo {
    type V = BackupSpec;

    open spec fn view(&self) -> BackupSpec {
        BackupSpec { name: self.name@, timestamp: self.timestamp as nat }
    }
}

/// A list of backups as mathematical values.
pub open spec fn backup_specs(list: Seq<MigrationTableInfo>) -> Seq<BackupSpec> {
    Seq::new(list.len(), |i: int| list[i]@)
}

/// `_<suffix>_`: what stands between a table's name and a backup's time.
pub open spec fn suffix_pattern(suffix: Seq<char>) -> Seq<char> {
    "_"@ + suffix + "_"@
}

/// `<table>_<suffix>_`: what every backup of `table` starts with.
pub open spec fn backup_prefix(table: Seq<char>, suffix: Seq<char>) -> Seq<char> {
    table + "_"@ + suffix + "_"@
}

/// `<table>_<suffix>_<seconds>`: the name of the backup that a migration at
/// `seconds` makes of `table`.
pub open spec fn backup_name(table: Seq<char>, suffix: Seq<char>, seconds: nat) -> Seq<char> {
    backup_prefix(table, suffix) + decimal(seconds)
}

/// `<table>_temp_<seconds>`: the name under which a migration at `seconds`
/// builds the new table.
pub open spec fn temp_name(table: Seq<char>, seconds: nat) -> Seq<char> {
    table + "_temp_"@ + decimal(seconds)
}

/// The part of a table name where a backup's time stands: what follows the
/// first `_<suffix>_`, up to the next one if there is one.
pub open spec fn time_part(name: Seq<char>, suffix: Seq<char>) -> Option<Seq<char>> {
    let pattern = suffix_pattern(suffix);
    match find_from(name, pattern, 0) {
        None => None,
        Some(i) => {
            let start = i + pattern.len();
            match find_from(name, pattern, start) {
                None => Some(name.subrange(start, name.len() as int)),
                Some(j) => Some(name.subrange(start, j)),
            }
        },
    }
}

/// The time in a backup's name; `None` for a name that is no backup's.
pub open spec fn backup_time(name: Seq<char>, suffix: Seq<char>) -> Option<u64> {
    match time_part(name, suffix) {
        None => None,
        Some(part) => parse_u64(part),
    }
}

/// The backups among the first `k` names, in the order of the names.
pub open spec fn backups_among(names: Seq<Seq<char>>, suffix: Seq<char>, k: nat) -> Seq<BackupSpec>
    decreases k,
{
    if k == 0 {
        Seq::empty()
    } else {
        let name = names[k - 1];
        backups_among(names, suffix, (k - 1) as nat) + match backup_time(name, suffix) {
            Some(t) => seq![BackupSpec { name, timestamp: t as nat }],
            None => Seq::empty(),
        }
    }
}

/// `sorted` with `x` put behind the last backup that is not older than `x`.
pub open spec fn insert_by_time(sorted: Seq<BackupSpec>, x: BackupSpec) -> Seq<BackupSpec>
    decreases sorted.len(),
{
    if sorted.len() == 0 {
        seq![x]
    } else if sorted.last().timestamp >= x.timestamp {
        sorted.push(x)
    } else {
        insert_by_time(sorted.drop_last(), x).push(sorted.last())
    }
}

/// The backups from the newest to the oldest. Backups of one time keep the
/// order they came in.
pub open spec fn newest_first(list: Seq<BackupSpec>) -> Seq<BackupSpec>
    decreases list.len(),
{
    if list.len() == 0 {
        Seq::empty()
    } else {
        insert_by_time(newest_first(list.drop_last()), list.last())
    }
}

/// Whether a backup made at `timestamp` is older at `now` than `days` whole
/// days. A backup from the future has no age.
pub open spec fn too_old(now: nat, timestamp: nat, days: nat) -> bool {
    now >= timestamp && (now - timestamp) / (SECONDS_PER_DAY as int) > days
}

/// Whether the backup of rank `rank` goes: its rank is beyond the count to
/// keep, or it is too old.
pub open spec fn goes(ranked: Seq<BackupSpec>, rank: int, now: nat, keep: nat, days: nat) -> bool {
    rank >= keep || too_old(now, ranked[rank].timestamp, days)
}

/// The names of the backups among the first `k` ranks that go, in rank
/// order.
pub open spec fn dropped(ranked: Seq<BackupSpec>, k: nat, now: nat, keep: nat, days: nat) -> Seq<
    Seq<char>,
>
    decreases k,
{
    if k == 0 {
        Seq::empty()
    } else {
        dropped(ranked, (k - 1) as nat, now, keep, days) + if goes(ranked, k - 1, now, keep, days) {
            seq![ranked[k - 1].name]
        } else {
            Seq::empty()
        }
    }
}

/// The backups to drop, of all backups of a table in whatever order: they are
/// ranked from the newest, and those that go are named in rank order.
pub open spec fn sweep(backups: Seq<BackupSpec>, now: nat, keep: nat, days: nat) -> Seq<Seq<char>> {
    dropped(newest_first(backups), backups.len(), now, keep, days)
}

/// `<table>_<suffix>_`.
pub fn backup_table_prefix(table: &str, suffix: &str) -> (s: String)
    ensures
        s@ == backup_prefix(table@, suffix@),
{
    let mut s = table.to_owned();
    s.append("_");
    s.append(suffix);
    s.append("_");
    s
}

/// The name of the backup that a migration at `seconds` makes of `table`.
pub fn backup_table_name(table: &str, suffix: &str, seconds: u64) -> (s: String)
    ensures
        s@ == backup_name(table@, suffix@, seconds as nat),
{
    let mut s = backup_table_prefix(table, suffix);
    push_decimal(&mut s, seconds);
    s
}

/// The name under which a migration at `seconds` builds the new table.
pub fn temp_table_name(table: &str, seconds: u64) -> (s: String)
    ensures
        s@ == temp_name(table@, seconds as nat),
{
    let mut s = table.to_owned();
    s.append("_temp_");
    push_decimal(&mut s, seconds);
    s
}

/// The time in a backup's name; `None` for a name that is no backup's.
pub fn parse_backup_timestamp(name: &str, suffix: &str) -> (t: Option<u64>)
    ensures
        t == backup_time(name@, suffix@),
{
    let text = to_chars(name);
    let length = text.len();
    let mut pattern_text = "_".to_owned();
    pattern_text.append(suffix);
    pattern_text.append("_");
    let pattern = to_chars(pattern_text.as_str());
    match find(&text, &pattern, 0) {
        None => None,
        Some(i) => {
            let start = i + pattern.len();
            let end = match find(&text, &pattern, start) {
                None => length,
                Some(j) => {
                    proof {
                        crate::scan::lemma_find_from(text@, pattern@, start as int);
                    }
                    j
                },
            };
            read_u64(&text, start, end)
        },
    }
}

/// The backups among `names`, in the order of the names: every name with a
/// time behind `_<suffix>_`.
pub fn get_all_migration_tables(names: &Vec<String>, suffix: &str) -> (tables: Vec<
    MigrationTableInfo,
>)
    ensures
        backup_specs(tables@) == backups_among(views(names@), suffix@, names@.len()),
{
    let mut tables: Vec<MigrationTableInfo> = Vec::new();
    let mut k: usize = 0;
    while k < names.len()
        invariant
            k <= names@.len(),
            backup_specs(tables@) == backups_among(views(names@), suffix@, k as nat),
        decreases names@.len() - k,
    {
        let ghost before = backup_specs(tables@);
        match parse_backup_timestamp(names[k].as_str(), suffix) {
            Some(timestamp) => {
                tables.push(MigrationTableInfo { name: names[k].clone(), timestamp });
                assert(backup_specs(tables@) =~= before + seq![
                    BackupSpec { name: names@[k as int]@, timestamp: timestamp as nat },
                ]);
            },
            None => {
                assert(backup_specs(tables@) =~= before + Seq::<BackupSpec>::empty());
            },
        }
        assert(views(names@)[k as int] == names@[k as int]@);
        k = k + 1;
    }
    tables
}

/// Where `insert_by_time` puts `x`: behind the first `p` backups, where all
/// behind them are older than `x` and the one before is not.
proof fn lemma_insert_position(sorted: Seq<BackupSpec>, x: BackupSpec, p: int)
    requires
        0 <= p <= sorted.len(),
        forall|j: int| p <= j < sorted.len() ==> (#[trigger] sorted[j]).timestamp < x.timestamp,
        p > 0 ==> sorted[p - 1].timestamp >= x.timestamp,
    ensures
        insert_by_time(sorted, x) == sorted.insert(p, x),
    decreases sorted.len(),
{
    if sorted.len() == 0 {
        assert(sorted.insert(p, x) =~= seq![x]);
    } else if p == sorted.len() {
        assert(sorted.insert(p, x) =~= sorted.push(x));
    } else {
        let front = sorted.drop_last();
        assert(sorted.last().timestamp < x.timestamp);
        assert forall|j: int| p <= j < front.len() implies (#[trigger] front[j]).timestamp
            < x.timestamp by {
            assert(front[j] == sorted[j]);
        }
        if p > 0 {
            assert(front[p - 1] == sorted[p - 1]);
        }
        lemma_insert_position(front, x, p);
        assert(front.insert(p, x).push(sorted.last()) =~= sorted.insert(p, x));
    }
}

/// Ranks backups from the newest to the oldest. Backups of one time keep the
/// order they came in.
pub fn sort_newest_first(list: Vec<MigrationTableInfo>) -> (ranked: Vec<MigrationTableInfo>)
    ensures
        backup_specs(ranked@) == newest_first(backup_specs(list@)),
{
    let ghost input = backup_specs(list@);
    let mut ranked: Vec<MigrationTableInfo> = Vec::new();
    let mut done: usize = 0;
    while done < list.len()
        invariant
            done <= list@.len(),
            input == backup_specs(list@),
            backup_specs(ranked@) == newest_first(input.take(done as int)),
        decreases list@.len() - done,
    {
        let ghost ranked_before = backup_specs(ranked@);
        let item = MigrationTableInfo {
            name: list[done].name.clone(),
            timestamp: list[done].timestamp,
        };
        assert(item@ == input[done as int]);
        let mut p: usize = ranked.len();
        while p > 0 && ranked[p - 1].timestamp < item.timestamp
            invariant
                p <= ranked@.len(),
                backup_specs(ranked@) == ranked_before,
                forall|j: int|
                    p <= j < ranked@.len() ==> (#[trigger] ranked_before[j]).timestamp
                        < item@.timestamp,
            decreases p,
        {
            proof {
                assert(ranked_before[p - 1] == ranked@[p - 1]@);
            }
            p = p - 1;
        }
        proof {
            if p > 0 {
                assert(ranked_before[p - 1] == ranked@[p - 1]@);
            }
            lemma_insert_position(ranked_before, item@, p as int);
            assert(input.take(done + 1).drop_last() =~= input.take(done as int));
            assert(input.take(done + 1).last() == input[done as int]);
        }
        let ghost shown = item@;
        ranked.insert(p, item);
        proof {
            assert(backup_specs(ranked@) =~= ranked_before.insert(p as int, shown));
        }
        done = done + 1;
    }
    proof {
        assert(input.take(done as int) =~= input);
    }
    ranked
}

/// The backups to drop after a migration at `current_time`, of all backups
/// of a table: ranked from the newest, a backup goes where its rank is not
/// below the configured count or it is older than the configured days. The
/// names come in rank order.
pub fn check_backups_retention(
    tables: Vec<MigrationTableInfo>,
    current_time: u64,
    config: &MigrationConfig,
) -> (drops: Vec<String>)
    ensures
        views(drops@) == sweep(
            backup_specs(tables@),
            current_time as nat,
            config.spec_max_backups() as nat,
            config.spec_retention_days() as nat,
        ),
{
    let ghost input = backup_specs(tables@);
    let ghost count = tables@.len();
    let ranked = sort_newest_first(tables);
    proof {
        lemma_newest_first_len(input);
    }
    let keep = config.max_backups() as usize;
    let days = config.retention_days() as u64;
    let mut drops: Vec<String> = Vec::new();
    let mut index: usize = 0;
    while index < ranked.len()
        invariant
            index <= ranked@.len(),
            keep == config.spec_max_backups(),
            days == config.spec_retention_days(),
            views(drops@) == dropped(
                backup_specs(ranked@),
                index as nat,
                current_time as nat,
                keep as nat,
                days as nat,
            ),
        decreases ranked@.len() - index,
    {
        let table = &ranked[index];
        assert(backup_specs(ranked@)[index as int] == table@);
        let old = current_time >= table.timestamp && (current_time - table.timestamp)
            / SECONDS_PER_DAY > days;
        let ghost before = drops@;
        if index >= keep || old {
            let name = table.name.clone();
            proof {
                lemma_views_push(before, name);
            }
            drops.push(name);
        }
        index = index + 1;
    }
    drops
}

/// Ranking neither adds nor loses a backup.
pub proof fn lemma_newest_first_len(list: Seq<BackupSpec>)
    ensures
        newest_first(list).len() == list.len(),
    decreases list.len(),
{
    if list.len() > 0 {
        lemma_newest_first_len(list.drop_last());
        lemma_insert_len(newest_first(list.drop_last()), list.last());
    }
}

/// Inserting adds one backup.
pub proof fn lemma_insert_len(sorted: Seq<BackupSpec>, x: BackupSpec)
    ensures
        insert_by_time(sorted, x).len() == sorted.len() + 1,
    decreases sorted.len(),
{
    if sorted.len() > 0 && sorted.last().timestamp < x.timestamp {
        lemma_insert_len(sorted.drop_last(), x);
    }
}

} // verus!
