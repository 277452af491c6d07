//! What the typed layer makes of an engine that keeps its word.
//!
//! The engine is asked through plain requests, and nothing in this library
//! can see into it. What it is expected to do is little: a table is a map
//! from key bytes to data bytes, a put adds or replaces a row, a delete
//! removes one, a lookup reads one, and a cursor at the last position stands
//! on the greatest key. This module writes those expectations down for single
//! replies and proves what the typed operations then give.

use vstd::prelude::*;
use crate::index_table::{next_id, key_of};
use crate::lmdb::{CursorOpFlags, Reply, get_result, ne_bytes, lemma_ne_bytes_round_trip};
use crate::scheduler::{Event, Outcome, Phase, next};
use crate::lmdb::error::{ErrnoCodes, SUCCESS, NOT_FOUND, del_outcome, put_outcome};

verus! {

/// The reply `a` to a lookup of `key` is true to a table that holds `rows`.
pub open spec fn lookup_true_to<'env>(
    rows: Map<Seq<u8>, Seq<u8>>,
    key: Seq<u8>,
    a: Reply<'env>,
) -> bool {
    if rows.contains_key(key) {
        a.code == SUCCESS && a.data@ == rows[key]
    } else {
        a.code == NOT_FOUND
    }
}

/// The reply `a` to a put of `data` under `key` is true to a table that held
/// `rows` and holds `after`.
pub open spec fn put_true_to<'env>(
    rows: Map<Seq<u8>, Seq<u8>>,
    key: Seq<u8>,
    data: Seq<u8>,
    a: Reply<'env>,
    after: Map<Seq<u8>, Seq<u8>>,
) -> bool {
    if a.code == SUCCESS {
        after == rows.insert(key, data)
    } else {
        after == rows
    }
}

/// The reply `a` to a delete of `key` is true to a table that held `rows` and
/// holds `after`.
pub open spec fn delete_true_to<'env>(
    rows: Map<Seq<u8>, Seq<u8>>,
    key: Seq<u8>,
    a: Reply<'env>,
    after: Map<Seq<u8>, Seq<u8>>,
) -> bool {
    if rows.contains_key(key) {
        a.code == SUCCESS && after == rows.remove(key)
    } else {
        a.code == NOT_FOUND && after == rows
    }
}

/// The row `row` that a cursor reported at the last position is true to a
/// table whose identifiers in use are `ids`.
pub open spec fn last_true_to<V>(ids: Set<u64>, row: Option<(u64, V)>) -> bool {
    match row {
        Some((k, _)) => ids.contains(k) && forall|j: u64| #[trigger] ids.contains(j) ==> j <= k,
        None => forall|j: u64| !#[trigger] ids.contains(j),
    }
}

/// A lookup of a key that the table does not hold finds nothing.
pub proof fn lemma_get_of_absent_key<'env>(
    rows: Map<Seq<u8>, Seq<u8>>,
    key: Seq<u8>,
    a: Reply<'env>,
    errno: ErrnoCodes,
)
    requires
        !rows.contains_key(key),
        lookup_true_to(rows, key, a),
    ensures
        get_result(a, errno) == Ok::<Option<&'env [u8]>, crate::lmdb::Error>(None),
{
}

/// After a put under a key has succeeded, a lookup of that key finds the
/// bytes that were put.
pub proof fn lemma_get_after_put<'env>(
    rows: Map<Seq<u8>, Seq<u8>>,
    key: Seq<u8>,
    data: Seq<u8>,
    p: Reply<'env>,
    after: Map<Seq<u8>, Seq<u8>>,
    g: Reply<'env>,
    errno: ErrnoCodes,
)
    requires
        put_true_to(rows, key, data, p, after),
        put_outcome(p.code, errno) is Ok,
        lookup_true_to(after, key, g),
    ensures
        get_result(g, errno) matches Ok(Some(found)) && found@ == data,
{
}

/// A put under one identifier leaves what a lookup of another identifier
/// finds as it was.
pub proof fn lemma_put_leaves_other_identifiers<'env>(
    rows: Map<Seq<u8>, Seq<u8>>,
    id: u64,
    other: u64,
    data: Seq<u8>,
    p: Reply<'env>,
    after: Map<Seq<u8>, Seq<u8>>,
    g: Reply<'env>,
)
    requires
        id != other,
        put_true_to(rows, ne_bytes(id), data, p, after),
        lookup_true_to(after, ne_bytes(other), g),
    ensures
        lookup_true_to(rows, ne_bytes(other), g),
{
    lemma_ne_bytes_round_trip(id);
    lemma_ne_bytes_round_trip(other);
    assert(ne_bytes(id) != ne_bytes(other));
}

/// A delete says `true` exactly where the table held a row under the key,
/// and a second delete of the same key says `false`.
pub proof fn lemma_delete_tells_presence<'env>(
    rows: Map<Seq<u8>, Seq<u8>>,
    key: Seq<u8>,
    a: Reply<'env>,
    after: Map<Seq<u8>, Seq<u8>>,
    again: Reply<'env>,
    at_last: Map<Seq<u8>, Seq<u8>>,
    errno: ErrnoCodes,
)
    requires
        delete_true_to(rows, key, a, after),
        delete_true_to(after, key, again, at_last),
    ensures
        del_outcome(a.code, errno) == Ok::<bool, crate::lmdb::Error>(rows.contains_key(key)),
        del_outcome(again.code, errno) == Ok::<bool, crate::lmdb::Error>(false),
        at_last == after,
{
}

/// Where the identifiers in use are `0` to `n - 1`, the identifier that an
/// append takes is `n`, and after it the identifiers in use are `0` to `n`.
pub proof fn lemma_append_takes_the_count<V>(n: nat, ids: Set<u64>, row: Option<(u64, V)>)
    requires
        n <= u64::MAX,
        forall|k: u64| #[trigger] ids.contains(k) <==> k < n,
        last_true_to(ids, row),
    ensures
        next_id(key_of(row)) == Some(n as u64),
        forall|k: u64| #[trigger] ids.insert(n as u64).contains(k) <==> k < n + 1,
{
    match row {
        Some((k, _)) => {
            assert(k < n);
            if k + 1 < n {
                assert(ids.contains((k + 1) as u64));
            }
        },
        None => {
            if n > 0 {
                assert(ids.contains(0u64));
            }
        },
    }
}

/// What a transaction that begins now will see, given what was durable when
/// a write transaction began, what that transaction has written, and how it
/// ended: after a commit that the engine answered with success, what was
/// written; otherwise what was durable before.
pub open spec fn seen_afterwards(
    durable: Map<Seq<u8>, Seq<u8>>,
    written: Map<Seq<u8>, Seq<u8>>,
    commit_code: Option<i32>,
) -> Map<Seq<u8>, Seq<u8>> {
    match commit_code {
        Some(code) => if code == SUCCESS {
            written
        } else {
            durable
        },
        None => durable,
    }
}

/// A job's writes are seen afterwards exactly where the scheduler ended the
/// job as committed. A job that failed, or whose commit failed, leaves what
/// was durable before.
pub proof fn lemma_only_committed_writes_are_seen(
    durable: Map<Seq<u8>, Seq<u8>>,
    written: Map<Seq<u8>, Seq<u8>>,
    txn: usize,
    success: bool,
    commit_code: i32,
    errno: ErrnoCodes,
)
    ensures
        ({
            let (phase, action) = next(Phase::Running { txn }, Event::JobDone { success });
            let answer = if crate::lmdb::error::txn_commit_outcome(commit_code, errno) is Ok {
                Event::Committed
            } else {
                Event::CommitFailed(crate::lmdb::error::txn_commit_outcome(commit_code, errno)->Err_0)
            };
            let end = if success {
                next(phase, answer).0
            } else {
                next(phase, Event::Aborted).0
            };
            let asked = if action is Commit {
                Some(commit_code)
            } else {
                None
            };
            &&& action is Commit <==> success
            &&& end == Phase::Finished(Outcome::Committed) ==> seen_afterwards(
                durable,
                written,
                asked,
            ) == written
            &&& end != Phase::Finished(Outcome::Committed) ==> seen_afterwards(
                durable,
                written,
                asked,
            ) == durable
        }),
{
}

/// A row: its key and its data.
pub type Row = (Seq<u8>, Seq<u8>);

/// The row that a cursor stands on after the move `op` from the row `at`, or
/// from nowhere, in a table of `len` rows of which the row `bound` is the
/// first whose key is not below the key that the move was given. A cursor
/// that stands nowhere goes to the first row by a step forward and to the
/// last row by a step back. A move that finds no row leaves nothing to
/// report.
pub open spec fn cursor_after(len: int, at: Option<int>, op: CursorOpFlags, bound: int) -> Option<
    int,
> {
    match op {
        CursorOpFlags::Next => match at {
            None => if len > 0 {
                Some(0int)
            } else {
                None
            },
            Some(i) => if i + 1 < len {
                Some(i + 1)
            } else {
                None
            },
        },
        CursorOpFlags::Prev => match at {
            None => if len > 0 {
                Some(len - 1)
            } else {
                None
            },
            Some(i) => if i > 0 {
                Some(i - 1)
            } else {
                None
            },
        },
        CursorOpFlags::SetRange => if bound < len {
            Some(bound)
        } else {
            None
        },
        _ => None,
    }
}

/// The rows that a walk gives, at most `fuel` of them: the row that waits as
/// its first, where there is one, and then the rows that the cursor reports
/// step by step in the direction `op`, until a step finds none. Every row is
/// taken to be a pair of valid values.
pub open spec fn walk(rows: Seq<Row>, at: Option<int>, first: Option<Row>, op: CursorOpFlags, fuel: nat) -> Seq<Row>
    decreases fuel,
{
    if fuel == 0 {
        Seq::empty()
    } else {
        match first {
            Some(row) => seq![row] + walk(rows, at, None, op, (fuel - 1) as nat),
            None => match cursor_after(rows.len() as int, at, op, 0) {
                Some(i) => seq![rows[i]] + walk(rows, Some(i), None, op, (fuel - 1) as nat),
                None => Seq::empty(),
            },
        }
    }
}

/// The cursor position before the row `i`: nowhere before the first row.
pub open spec fn before(i: int) -> Option<int> {
    if i == 0 {
        None
    } else {
        Some(i - 1)
    }
}

/// The cursor position after the row `i - 1`: nowhere after the last row.
pub open spec fn past(len: int, i: int) -> Option<int> {
    if i == len {
        None
    } else {
        Some(i)
    }
}

/// A forward walk that has passed `i` rows gives the rows from `i` on.
pub proof fn lemma_forward_walk(rows: Seq<Row>, i: int, fuel: nat)
    requires
        0 <= i <= rows.len(),
        fuel > rows.len() - i,
    ensures
        walk(rows, before(i), None, CursorOpFlags::Next, fuel) == rows.skip(i),
    decreases rows.len() - i,
{
    if i < rows.len() {
        lemma_forward_walk(rows, i + 1, (fuel - 1) as nat);
        assert(rows.skip(i) =~= seq![rows[i]] + rows.skip(i + 1));
    } else {
        assert(rows.skip(i) =~= Seq::<Row>::empty());
    }
}

/// A backward walk from above the row `i - 1` gives the rows below `i`, the
/// greatest first.
pub proof fn lemma_backward_walk(rows: Seq<Row>, i: int, fuel: nat)
    requires
        0 <= i <= rows.len(),
        fuel > i,
    ensures
        walk(rows, past(rows.len() as int, i), None, CursorOpFlags::Prev, fuel) == rows.take(
            i,
        ).reverse(),
    decreases i,
{
    if i > 0 {
        lemma_backward_walk(rows, i - 1, (fuel - 1) as nat);
        assert(rows.take(i).reverse() =~= seq![rows[i - 1]] + rows.take(i - 1).reverse());
    } else {
        assert(rows.take(i).reverse() =~= Seq::<Row>::empty());
    }
}

/// Over a table whose rows, in the order of their encoded keys, are `rows`:
/// `iter` gives them in that order and `iter_rev` in the reverse order.
/// Where `bound` is the first row whose key is not below a key `k`,
/// `iter_from(k)` gives the rows from `bound` on, which is what `iter` gives
/// without the rows before it, and `iter_rev_from(k)` gives the rows before
/// `bound`, the greatest first.
pub proof fn lemma_walks_follow_the_keys(rows: Seq<Row>, bound: int)
    requires
        0 <= bound < rows.len(),
    ensures
        walk(rows, None, None, CursorOpFlags::Next, rows.len() + 1) == rows,
        walk(rows, None, None, CursorOpFlags::Prev, rows.len() + 1) == rows.reverse(),
        cursor_after(rows.len() as int, None, CursorOpFlags::SetRange, bound) == Some(bound),
        walk(rows, Some(bound), Some(rows[bound]), CursorOpFlags::Next, rows.len() + 1)
            == rows.skip(bound),
        walk(rows, Some(bound), None, CursorOpFlags::Prev, rows.len() + 1) == rows.take(
            bound,
        ).reverse(),
{
    lemma_forward_walk(rows, 0, rows.len() + 1);
    assert(rows.skip(0) =~= rows);
    lemma_backward_walk(rows, rows.len() as int, rows.len() + 1);
    assert(rows.take(rows.len() as int) =~= rows);
    lemma_forward_walk(rows, bound + 1, rows.len());
    assert(rows.skip(bound) =~= seq![rows[bound]] + rows.skip(bound + 1));
    lemma_backward_walk(rows, bound, rows.len() + 1);
}

} // verus!
