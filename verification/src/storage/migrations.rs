//! The numbered schema migrations and which of them a database still needs.
//! A database records the last migration it ran in `PRAGMA user_version`.
use vstd::prelude::*;
use crate::text::{append_str, decimal, decimal_string};

verus! {

/// One schema migration: its version number, a short name for error
/// messages, and the SQL it runs.
pub struct Migration {
    pub version: u32,
    pub name: String,
    pub sql: String,
}

/// The schema every database starts from: the articles (publish time, save
/// time and note time as seconds since the epoch) and the reserved
/// skip-weight table.
pub const INIT_SQL: &'static str = "CREATE TABLE IF NOT EXISTS articles (
    id        INTEGER PRIMARY KEY,
    title     TEXT NOT NULL,
    url       TEXT NOT NULL UNIQUE,
    source    TEXT NOT NULL,
    topic     TEXT NOT NULL,
    timestamp INTEGER NOT NULL,
    read      BOOLEAN NOT NULL DEFAULT 0,
    skipped   BOOLEAN NOT NULL DEFAULT 0,
    saved     BOOLEAN NOT NULL DEFAULT 0,
    note      TEXT NULL,
    saved_at  INTEGER NULL,
    noted_at  INTEGER NULL
);
CREATE TABLE IF NOT EXISTS skip_weights (
    keyword TEXT PRIMARY KEY,
    weight  INTEGER NOT NULL DEFAULT 0
);";

/// The full migration history, oldest first.
pub fn migrations() -> (res: Vec<Migration>)
    ensures
        res@.len() == 1,
        res@[0].version == 1,
        res@[0].name@ == "001_init"@,
        res@[0].sql@ == INIT_SQL@,
        ascending(res@),
{
    let mut out: Vec<Migration> = Vec::new();
    out.push(Migration { version: 1, name: "001_init".to_owned(), sql: INIT_SQL.to_owned() });
    out
}

/// Positions, in list order, of the migrations newer than `current`.
pub open spec fn pending(current: u32, list: Seq<Migration>) -> Seq<usize>
    decreases list.len(),
{
    if list.len() == 0 {
        Seq::empty()
    } else if list.last().version > current {
        pending(current, list.drop_last()).push((list.len() - 1) as usize)
    } else {
        pending(current, list.drop_last())
    }
}

/// Positions, in list order, of exactly the migrations newer than
/// `current_version` -- the ones a database at that version still needs.
pub fn pending_migrations(current_version: u32, list: &Vec<Migration>) -> (res: Vec<usize>)
    ensures
        res@ == pending(current_version, list@),
        forall|k: int| 0 <= k < res@.len() ==> (#[trigger] res@[k]) < list@.len()
            && list@[res@[k] as int].version > current_version,
        forall|k: int, l: int| 0 <= k < l < res@.len() ==> res@[k] < res@[l],
        forall|j: int|
            0 <= j < list@.len() && (#[trigger] list@[j]).version > current_version ==> res@.contains(
                j as usize,
            ),
{
    let mut out: Vec<usize> = Vec::new();
    let mut i: usize = 0;
    while i < list.len()
        invariant
            i <= list@.len(),
            out@ == pending(current_version, list@.take(i as int)),
            forall|k: int| 0 <= k < out@.len() ==> (#[trigger] out@[k]) < i
                && list@[out@[k] as int].version > current_version,
            forall|k: int, l: int| 0 <= k < l < out@.len() ==> out@[k] < out@[l],
            forall|j: int|
                0 <= j < i && (#[trigger] list@[j]).version > current_version ==> out@.contains(
                    j as usize,
                ),
        decreases list.len() - i,
    {
        assert(list@.take(i + 1).drop_last() =~= list@.take(i as int));
        if list[i].version > current_version {
            let ghost before = out@;
            out.push(i);
            assert forall|j: int|
                0 <= j < i + 1 && (#[trigger] list@[j]).version > current_version implies out@.contains(
                j as usize,
            ) by {
                if j < i {
                    let w = choose|w: int| 0 <= w < before.len() && before[w] == j as usize;
                    assert(out@[w] == j as usize);
                } else {
                    assert(out@[before.len() as int] == i);
                }
            }
        }
        i += 1;
    }
    assert(list@.take(list@.len() as int) =~= list@);
    out
}

/// `PRAGMA user_version = <version>`.
pub open spec fn user_version_text(version: u32) -> Seq<char> {
    "PRAGMA user_version = "@ + decimal(version as nat)
}

/// The statement recording that the database is at `version`.
pub fn user_version_statement(version: u32) -> (res: String)
    ensures
        res@ == user_version_text(version),
{
    let mut out = String::new();
    append_str(&mut out, "PRAGMA user_version = ");
    let n = decimal_string(version as u128);
    append_str(&mut out, n.as_str());
    out
}

/// Every migration is newer than the one before it.
pub open spec fn ascending(list: Seq<Migration>) -> bool {
    forall|i: int, j: int| 0 <= i < j < list.len() ==> list[i].version < list[j].version
}

/// The version a database at `current` records after running the
/// migrations at positions `done`, in order, each recorded as it completes.
pub open spec fn version_after(current: u32, list: Seq<Migration>, done: Seq<usize>) -> u32 {
    if done.len() == 0 {
        current
    } else {
        list[done.last() as int].version
    }
}

/// How many migrations, from the front, are no newer than `current` (all
/// of them once one is, the versions ascending).
pub open spec fn older(current: u32, list: Seq<Migration>) -> int
    decreases list.len(),
{
    if list.len() == 0 {
        0
    } else if list.last().version <= current {
        list.len() as int
    } else {
        older(current, list.drop_last())
    }
}

/// The positions `from` up to (not including) `to`.
pub open spec fn positions(from: int, to: int) -> Seq<usize> {
    Seq::new((to - from) as nat, |i: int| (from + i) as usize)
}

/// With ascending versions, the migrations no newer than `current` come
/// first and the pending ones are all the rest.
proof fn lemma_pending_is_a_tail(current: u32, list: Seq<Migration>)
    requires
        ascending(list),
        list.len() <= usize::MAX,
    ensures
        0 <= older(current, list) <= list.len(),
        forall|j: int| 0 <= j < older(current, list) ==> (#[trigger] list[j]).version <= current,
        forall|j: int| older(current, list) <= j < list.len() ==> (#[trigger] list[j]).version > current,
        pending(current, list) == positions(older(current, list), list.len() as int),
    decreases list.len(),
{
    if list.len() > 0 {
        let front = list.drop_last();
        assert forall|i: int, j: int| 0 <= i < j < front.len() implies front[i].version < front[j].version by {
            assert(front[i] == list[i] && front[j] == list[j]);
        }
        lemma_pending_is_a_tail(current, front);
        let n = list.len() as int;
        if list.last().version <= current {
            assert forall|j: int| 0 <= j < n implies (#[trigger] list[j]).version <= current by {
                if j < n - 1 {
                    assert(list[j].version < list[n - 1].version);
                }
            }
            assert(older(current, front) == n - 1) by {
                if n - 1 > 0 {
                    assert(front.last().version < list.last().version);
                }
            }
            assert(pending(current, front) =~= positions(n, n)) by {
                assert(positions(older(current, front), n - 1).len() == 0);
            }
        } else {
            assert forall|j: int| 0 <= j < older(current, list) implies (#[trigger] list[j]).version <= current by {
                assert(list[j] == front[j]);
            }
            assert forall|j: int| older(current, list) <= j < n implies (#[trigger] list[j]).version > current by {
                if j < n - 1 {
                    assert(list[j] == front[j]);
                }
            }
            assert(positions(older(current, front), n - 1).push((n - 1) as usize) =~= positions(
                older(current, list),
                n,
            ));
        }
    }
}

/// Running the pending migrations in order, recording each version as it
/// completes, and stopping after any `k` of them (all of them, or the ones
/// before a failure) leaves a database from which exactly the rest are
/// pending. After all of them it is at the newest version, or still at its
/// own when that is newer, and nothing is pending: a second run does
/// nothing.
pub proof fn lemma_migrations_resume(current: u32, list: Seq<Migration>, k: int)
    requires
        ascending(list),
        list.len() <= usize::MAX,
        0 <= k <= pending(current, list).len(),
    ensures
        pending(version_after(current, list, pending(current, list).take(k)), list) == pending(
            current,
            list,
        ).skip(k),
        k == pending(current, list).len() ==> pending(
            version_after(current, list, pending(current, list)),
            list,
        ).len() == 0,
        k == pending(current, list).len() && list.len() > 0 ==> version_after(
            current,
            list,
            pending(current, list),
        ) == (if list.last().version > current {
            list.last().version
        } else {
            current
        }),
{
    let n = list.len() as int;
    lemma_pending_is_a_tail(current, list);
    let o = older(current, list);
    let p = pending(current, list);
    assert(p == positions(o, n));
    assert(p.take(p.len() as int) =~= p);
    if k == 0 {
        assert(p.take(0).len() == 0);
        assert(p.skip(0) =~= p);
    } else {
        let m = o + k - 1;
        assert(p.take(k).last() == m as usize);
        let v = list[m].version;
        assert(version_after(current, list, p.take(k)) == v);
        lemma_pending_is_a_tail(v, list);
        let o2 = older(v, list);
        assert(o2 == m + 1) by {
            if o2 <= m {
                assert(list[m].version > v);
            } else if o2 > m + 1 {
                assert(list[m + 1].version <= v);
                assert(list[m].version < list[m + 1].version);
            }
        }
        assert(positions(o2, n) =~= p.skip(k));
    }
    if k == p.len() && n > 0 {
        if p.len() > 0 {
            assert(p.last() == (n - 1) as usize);
            assert(list.last().version > current);
        } else {
            assert(o == n);
            assert(list[n - 1].version <= current);
        }
    }
}

} // verus!
