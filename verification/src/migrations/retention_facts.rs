//! What holds of the sweeper for every list of backups.

use crate::migrations::retention::{
    backups_among, dropped, goes, insert_by_time, lemma_insert_len, lemma_newest_first_len,
    newest_first, sweep, too_old, BackupSpec,
};
use vstd::multiset::Multiset;
use vstd::prelude::*;
use vstd::seq_lib::{to_multiset_build, to_multiset_len};

verus! {

/// From the newest to the oldest.
pub open spec fn ordered_by_time(list: Seq<BackupSpec>) -> bool {
    forall|i: int, j: int|
        0 <= i <= j < list.len() ==> (#[trigger] list[i]).timestamp >= (
        #[trigger] list[j]).timestamp
}

/// The names of a list of backups.
pub open spec fn names(list: Seq<BackupSpec>) -> Seq<Seq<char>> {
    Seq::new(list.len(), |i: int| list[i].name)
}

/// Inserting a backup into a list of backups that are all at least as new as
/// some time, where the backup is too, gives a list of such backups.
proof fn lemma_insert_bounded(sorted: Seq<BackupSpec>, x: BackupSpec, least: nat)
    requires
        x.timestamp >= least,
        forall|k: int| 0 <= k < sorted.len() ==> (#[trigger] sorted[k]).timestamp >= least,
    ensures
        forall|i: int|
            0 <= i < insert_by_time(sorted, x).len() ==> (#[trigger] insert_by_time(
                sorted,
                x,
            )[i]).timestamp >= least,
    decreases sorted.len(),
{
    let out = insert_by_time(sorted, x);
    if sorted.len() == 0 {
    } else if sorted.last().timestamp >= x.timestamp {
        assert forall|i: int| 0 <= i < out.len() implies (#[trigger] out[i]).timestamp
            >= least by {
            if i < sorted.len() {
                assert(out[i] == sorted[i]);
            }
        }
    } else {
        let front = sorted.drop_last();
        assert forall|k: int| 0 <= k < front.len() implies (#[trigger] front[k]).timestamp
            >= least by {
            assert(front[k] == sorted[k]);
        }
        lemma_insert_bounded(front, x, least);
        lemma_insert_len(front, x);
        let mid = insert_by_time(front, x);
        assert forall|i: int| 0 <= i < out.len() implies (#[trigger] out[i]).timestamp
            >= least by {
            if i < mid.len() {
                assert(out[i] == mid[i]);
            } else {
                assert(out[i] == sorted[sorted.len() - 1]);
            }
        }
    }
}

proof fn lemma_insert_ordered(sorted: Seq<BackupSpec>, x: BackupSpec)
    requires
        ordered_by_time(sorted),
    ensures
        ordered_by_time(insert_by_time(sorted, x)),
    decreases sorted.len(),
{
    let out = insert_by_time(sorted, x);
    if sorted.len() == 0 {
    } else if sorted.last().timestamp >= x.timestamp {
        assert forall|i: int, j: int| 0 <= i <= j < out.len() implies (#[trigger] out[i]).timestamp
            >= (#[trigger] out[j]).timestamp by {
            if j == sorted.len() {
                if i < sorted.len() {
                    assert(out[i] == sorted[i]);
                    assert(sorted[i].timestamp >= sorted[sorted.len() - 1].timestamp);
                }
            } else {
                assert(out[i] == sorted[i] && out[j] == sorted[j]);
            }
        }
    } else {
        let front = sorted.drop_last();
        let last = sorted.last();
        assert(ordered_by_time(front)) by {
            assert forall|i: int, j: int| 0 <= i <= j < front.len() implies (
            #[trigger] front[i]).timestamp >= (#[trigger] front[j]).timestamp by {
                assert(front[i] == sorted[i] && front[j] == sorted[j]);
            }
        }
        lemma_insert_ordered(front, x);
        lemma_insert_len(front, x);
        assert forall|k: int| 0 <= k < front.len() implies (#[trigger] front[k]).timestamp
            >= last.timestamp by {
            assert(front[k] == sorted[k]);
            assert(sorted[k].timestamp >= sorted[sorted.len() - 1].timestamp);
        }
        lemma_insert_bounded(front, x, last.timestamp);
        let mid = insert_by_time(front, x);
        assert forall|i: int, j: int| 0 <= i <= j < out.len() implies (#[trigger] out[i]).timestamp
            >= (#[trigger] out[j]).timestamp by {
            if j == mid.len() {
                if i < mid.len() {
                    assert(out[i] == mid[i]);
                }
            } else {
                assert(out[i] == mid[i] && out[j] == mid[j]);
            }
        }
    }
}

/// The ranking goes from the newest backup to the oldest.
pub proof fn lemma_ranking_ordered(list: Seq<BackupSpec>)
    ensures
        ordered_by_time(newest_first(list)),
    decreases list.len(),
{
    if list.len() > 0 {
        lemma_ranking_ordered(list.drop_last());
        lemma_insert_ordered(newest_first(list.drop_last()), list.last());
    }
}

proof fn lemma_insert_permutes(sorted: Seq<BackupSpec>, x: BackupSpec)
    ensures
        insert_by_time(sorted, x).to_multiset() == sorted.to_multiset().insert(x),
    decreases sorted.len(),
{
    if sorted.len() == 0 {
        assert(seq![x] =~= sorted.push(x));
        to_multiset_build(sorted, x);
    } else if sorted.last().timestamp >= x.timestamp {
        to_multiset_build(sorted, x);
    } else {
        let front = sorted.drop_last();
        lemma_insert_permutes(front, x);
        to_multiset_build(insert_by_time(front, x), sorted.last());
        to_multiset_build(front, sorted.last());
        assert(front.push(sorted.last()) =~= sorted);
        assert(front.to_multiset().insert(x).insert(sorted.last()) =~= front.to_multiset().insert(
            sorted.last(),
        ).insert(x));
    }
}

/// The ranking holds the same backups as the list it was made of, each as
/// often.
pub proof fn lemma_ranking_permutes(list: Seq<BackupSpec>)
    ensures
        newest_first(list).to_multiset() == list.to_multiset(),
    decreases list.len(),
{
    if list.len() == 0 {
        assert(newest_first(list) =~= list);
    } else {
        lemma_ranking_permutes(list.drop_last());
        lemma_insert_permutes(newest_first(list.drop_last()), list.last());
        to_multiset_build(list.drop_last(), list.last());
        assert(list.drop_last().push(list.last()) =~= list);
    }
}

/// Where no backup is too old, the backups that go are those of the ranks
/// from the count to keep on, and no others.
pub proof fn lemma_dropped_by_rank(ranked: Seq<BackupSpec>, k: nat, now: nat, keep: nat, days: nat)
    requires
        k <= ranked.len(),
        forall|i: int| 0 <= i < ranked.len() ==> !too_old(now, (#[trigger] ranked[i]).timestamp, days),
    ensures
        dropped(ranked, k, now, keep, days) == if k <= keep {
            Seq::<Seq<char>>::empty()
        } else {
            names(ranked.subrange(keep as int, k as int))
        },
    decreases k,
{
    if k > 0 {
        lemma_dropped_by_rank(ranked, (k - 1) as nat, now, keep, days);
        if k <= keep {
        } else if k - 1 == keep {
            assert(dropped(ranked, k, now, keep, days) =~= names(
                ranked.subrange(keep as int, k as int),
            ));
        } else {
            assert(dropped(ranked, k, now, keep, days) =~= names(
                ranked.subrange(keep as int, k as int),
            ));
        }
    }
}

/// A backup that goes is among the dropped.
pub proof fn lemma_dropped_contains(
    ranked: Seq<BackupSpec>,
    k: nat,
    rank: int,
    now: nat,
    keep: nat,
    days: nat,
)
    requires
        k <= ranked.len(),
        0 <= rank < k,
        goes(ranked, rank, now, keep, days),
    ensures
        dropped(ranked, k, now, keep, days).contains(ranked[rank].name),
    decreases k,
{
    let all = dropped(ranked, k, now, keep, days);
    let front = dropped(ranked, (k - 1) as nat, now, keep, days);
    if rank == k - 1 {
        assert(all[all.len() - 1] == ranked[rank].name);
    } else {
        lemma_dropped_contains(ranked, (k - 1) as nat, rank, now, keep, days);
        let i = choose|i: int| 0 <= i < front.len() && front[i] == ranked[rank].name;
        assert(all[i] == ranked[rank].name);
    }
}

/// With more backups than are to be kept, and none of them too old, exactly
/// the surplus goes: the backups from rank `keep` on, which are the oldest.
/// No backup that stays is older than one that goes.
pub proof fn lemma_surplus_goes(backups: Seq<BackupSpec>, now: nat, keep: nat, days: nat)
    requires
        backups.len() > keep,
        forall|i: int| 0 <= i < backups.len() ==> !too_old(now, (#[trigger] backups[i]).timestamp, days),
    ensures
        sweep(backups, now, keep, days).len() == backups.len() - keep,
        sweep(backups, now, keep, days) == names(
            newest_first(backups).subrange(keep as int, backups.len() as int),
        ),
        forall|i: int, j: int|
            0 <= i < keep && keep <= j < backups.len() ==> (#[trigger] newest_first(
                backups,
            )[i]).timestamp >= (#[trigger] newest_first(backups)[j]).timestamp,
{
    let ranked = newest_first(backups);
    lemma_newest_first_len(backups);
    lemma_ranking_ordered(backups);
    lemma_ranking_permutes(backups);
    assert forall|i: int| 0 <= i < ranked.len() implies !too_old(
        now,
        (#[trigger] ranked[i]).timestamp,
        days,
    ) by {
        let b = ranked[i];
        assert(ranked.contains(b));
        ranked.to_multiset_ensures();
        backups.to_multiset_ensures();
        assert(ranked.to_multiset().count(b) > 0);
        assert(backups.to_multiset().count(b) > 0);
        assert(backups.contains(b));
        let k = choose|k: int| 0 <= k < backups.len() && backups[k] == b;
        assert(!too_old(now, backups[k].timestamp, days));
    }
    lemma_dropped_by_rank(ranked, backups.len(), now, keep, days);
}

/// A backup that is too old goes, whatever its rank and however few backups
/// there are.
pub proof fn lemma_old_backup_goes(
    backups: Seq<BackupSpec>,
    i: int,
    now: nat,
    keep: nat,
    days: nat,
)
    requires
        0 <= i < backups.len(),
        too_old(now, backups[i].timestamp, days),
    ensures
        sweep(backups, now, keep, days).contains(backups[i].name),
{
    let ranked = newest_first(backups);
    let b = backups[i];
    lemma_newest_first_len(backups);
    lemma_ranking_permutes(backups);
    assert(backups.contains(b));
    ranked.to_multiset_ensures();
    backups.to_multiset_ensures();
    assert(backups.to_multiset().count(b) > 0);
    assert(ranked.to_multiset().count(b) > 0);
    assert(ranked.contains(b));
    let rank = choose|rank: int| 0 <= rank < ranked.len() && ranked[rank] == b;
    lemma_dropped_contains(ranked, backups.len(), rank, now, keep, days);
}

/// Every name among the dropped is the name of a ranked backup that goes.
pub proof fn lemma_dropped_go(ranked: Seq<BackupSpec>, k: nat, now: nat, keep: nat, days: nat, x: int)
    requires
        k <= ranked.len(),
        0 <= x < dropped(ranked, k, now, keep, days).len(),
    ensures
        exists|rank: int|
            0 <= rank < k && goes(ranked, rank, now, keep, days) && (#[trigger] ranked[rank]).name
                == dropped(ranked, k, now, keep, days)[x],
    decreases k,
{
    if k > 0 {
        let front = dropped(ranked, (k - 1) as nat, now, keep, days);
        if x < front.len() {
            lemma_dropped_go(ranked, (k - 1) as nat, now, keep, days, x);
            let rank = choose|rank: int|
                0 <= rank < k - 1 && goes(ranked, rank, now, keep, days) && (
                #[trigger] ranked[rank]).name == front[x];
            assert(0 <= rank < k && goes(ranked, rank, now, keep, days) && ranked[rank].name
                == dropped(ranked, k, now, keep, days)[x]);
        } else {
            assert(goes(ranked, k - 1, now, keep, days) && ranked[k - 1].name == dropped(
                ranked,
                k,
                now,
                keep,
                days,
            )[x]);
        }
    }
}

/// The newest backup stays. Where at least one backup is kept, a backup that
/// is newer than all others and not too old is not among the dropped, as
/// long as no other backup bears its name.
pub proof fn lemma_newest_backup_stays(
    backups: Seq<BackupSpec>,
    i: int,
    now: nat,
    keep: nat,
    days: nat,
)
    requires
        0 <= i < backups.len(),
        keep >= 1,
        !too_old(now, backups[i].timestamp, days),
        forall|j: int|
            0 <= j < backups.len() && j != i ==> (#[trigger] backups[j]).timestamp
                < backups[i].timestamp && backups[j].name != backups[i].name,
    ensures
        !sweep(backups, now, keep, days).contains(backups[i].name),
{
    let ranked = newest_first(backups);
    let b = backups[i];
    let out = sweep(backups, now, keep, days);
    lemma_newest_first_len(backups);
    lemma_ranking_ordered(backups);
    lemma_ranking_permutes(backups);
    ranked.to_multiset_ensures();
    backups.to_multiset_ensures();
    if out.contains(b.name) {
        let x = choose|x: int| 0 <= x < out.len() && out[x] == b.name;
        lemma_dropped_go(ranked, backups.len(), now, keep, days, x);
        let rank = choose|rank: int|
            0 <= rank < backups.len() && goes(ranked, rank, now, keep, days) && (
            #[trigger] ranked[rank]).name == out[x];
        let r = ranked[rank];
        assert(ranked.contains(r));
        assert(ranked.to_multiset().count(r) > 0);
        assert(backups.to_multiset().count(r) > 0);
        assert(backups.contains(r));
        let j = choose|j: int| 0 <= j < backups.len() && backups[j] == r;
        assert(j == i);
        assert(r == b);
        // The backup is of rank 0: whatever is of rank 0 is no older, and is
        // one of the backups, so it is this one.
        let top = ranked[0];
        assert(ranked.contains(top));
        assert(ranked.to_multiset().count(top) > 0);
        assert(backups.to_multiset().count(top) > 0);
        assert(backups.contains(top));
        let t = choose|t: int| 0 <= t < backups.len() && backups[t] == top;
        assert(ranked[0].timestamp >= ranked[rank].timestamp);
        assert(t == i);
        if rank > 0 {
            lemma_twice_in_ranking(backups, ranked, 0, rank);
        }
        assert(rank == 0);
        assert(false);
    }
}

/// A backup that stands at two ranks stands at two places of the list.
proof fn lemma_twice_in_ranking(backups: Seq<BackupSpec>, ranked: Seq<BackupSpec>, a: int, b: int)
    requires
        ranked.to_multiset() == backups.to_multiset(),
        0 <= a < b < ranked.len(),
        ranked[a] == ranked[b],
    ensures
        exists|i: int, j: int|
            0 <= i < j < backups.len() && #[trigger] backups[i] == ranked[a] && #[trigger] backups[j]
                == ranked[a],
{
    let v = ranked[a];
    lemma_count_two(ranked, a, b);
    lemma_two_places(backups, v);
}

/// A value at two places counts at least twice.
proof fn lemma_count_two(s: Seq<BackupSpec>, a: int, b: int)
    requires
        0 <= a < b < s.len(),
        s[a] == s[b],
    ensures
        s.to_multiset().count(s[a]) >= 2,
    decreases s.len(),
{
    let v = s[a];
    let front = s.drop_last();
    to_multiset_build(front, s.last());
    assert(front.push(s.last()) =~= s);
    if b == s.len() - 1 {
        front.to_multiset_ensures();
        assert(front[a] == v);
        assert(front.contains(v));
        assert(front.to_multiset().count(v) > 0);
    } else {
        assert(front[a] == s[a] && front[b] == s[b]);
        lemma_count_two(front, a, b);
    }
}

/// A value that counts at least twice stands at two places.
proof fn lemma_two_places(s: Seq<BackupSpec>, v: BackupSpec)
    requires
        s.to_multiset().count(v) >= 2,
    ensures
        exists|i: int, j: int| 0 <= i < j < s.len() && #[trigger] s[i] == v && #[trigger] s[j] == v,
    decreases s.len(),
{
    if s.len() == 0 {
        s.to_multiset_ensures();
        to_multiset_len(s);
        assert(s.to_multiset().len() == 0);
        assert(s.to_multiset() =~= Multiset::<BackupSpec>::empty());
    } else {
        let front = s.drop_last();
        to_multiset_build(front, s.last());
        assert(front.push(s.last()) =~= s);
        if s.last() == v {
            assert(front.to_multiset().count(v) >= 1);
            front.to_multiset_ensures();
            assert(front.contains(v));
            let i = choose|i: int| 0 <= i < front.len() && front[i] == v;
            assert(s[i] == v && s[s.len() - 1] == v);
        } else {
            lemma_two_places(front, v);
            let (i, j) = choose|i: int, j: int|
                0 <= i < j < front.len() && #[trigger] front[i] == v && #[trigger] front[j] == v;
            assert(s[i] == v && s[j] == v);
        }
    }
}

/// Only listed names are dropped: every name among the dropped is the name
/// of one of the backups.
pub proof fn lemma_dropped_are_listed(backups: Seq<BackupSpec>, now: nat, keep: nat, days: nat, x: int)
    requires
        0 <= x < sweep(backups, now, keep, days).len(),
    ensures
        exists|j: int|
            0 <= j < backups.len() && (#[trigger] backups[j]).name == sweep(
                backups,
                now,
                keep,
                days,
            )[x],
{
    let ranked = newest_first(backups);
    lemma_newest_first_len(backups);
    lemma_ranking_permutes(backups);
    lemma_dropped_go(ranked, backups.len(), now, keep, days, x);
    let rank = choose|rank: int|
        0 <= rank < backups.len() && goes(ranked, rank, now, keep, days) && (
        #[trigger] ranked[rank]).name == sweep(backups, now, keep, days)[x];
    let r = ranked[rank];
    ranked.to_multiset_ensures();
    backups.to_multiset_ensures();
    assert(ranked.contains(r));
    assert(ranked.to_multiset().count(r) > 0);
    assert(backups.to_multiset().count(r) > 0);
    assert(backups.contains(r));
    let j = choose|j: int| 0 <= j < backups.len() && backups[j] == r;
    assert(backups[j].name == sweep(backups, now, keep, days)[x]);
}

/// Every backup among the names is one of the names.
pub proof fn lemma_backups_are_names(names: Seq<Seq<char>>, suffix: Seq<char>, k: nat, j: int)
    requires
        k <= names.len(),
        0 <= j < backups_among(names, suffix, k).len(),
    ensures
        exists|i: int| 0 <= i < k && #[trigger] names[i] == backups_among(names, suffix, k)[j].name,
    decreases k,
{
    if k > 0 {
        let front = backups_among(names, suffix, (k - 1) as nat);
        if j < front.len() {
            lemma_backups_are_names(names, suffix, (k - 1) as nat, j);
            let i = choose|i: int| 0 <= i < k - 1 && #[trigger] names[i] == front[j].name;
            assert(names[i] == backups_among(names, suffix, k)[j].name);
        } else {
            assert(names[k - 1] == backups_among(names, suffix, k)[j].name);
        }
    }
}

/// A table that is not among the listed names is not dropped.
pub proof fn lemma_unlisted_table_stays(
    names: Seq<Seq<char>>,
    suffix: Seq<char>,
    now: nat,
    keep: nat,
    days: nat,
    table: Seq<char>,
)
    requires
        forall|i: int| 0 <= i < names.len() ==> #[trigger] names[i] != table,
    ensures
        !sweep(backups_among(names, suffix, names.len()), now, keep, days).contains(table),
{
    let backups = backups_among(names, suffix, names.len());
    let out = sweep(backups, now, keep, days);
    if out.contains(table) {
        let x = choose|x: int| 0 <= x < out.len() && out[x] == table;
        lemma_dropped_are_listed(backups, now, keep, days, x);
        let j = choose|j: int| 0 <= j < backups.len() && (#[trigger] backups[j]).name == out[x];
        lemma_backups_are_names(names, suffix, names.len(), j);
        let i = choose|i: int| 0 <= i < names.len() && #[trigger] names[i] == backups[j].name;
        assert(names[i] == table);
    }
}

} // verus!
