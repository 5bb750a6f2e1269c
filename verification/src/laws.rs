use crate::connection::StatementLog;
use crate::error::Error;
use crate::error::triggers_compensating_rollback;
use crate::manager::begin_transition;
use crate::manager::commit_transition;
use crate::manager::rollback_transition;
use crate::sql::begin_stmt;
use crate::sql::dec_rep;
use crate::sql::digit_char;
use crate::sql::rollback_stmt;
use crate::sql::savepoint_name;
use vstd::prelude::*;

verus! {

/// `depths` and `entries` describe a run of successful `begin` calls on one
/// manager and its channel, started outside any transaction: `depths[k]` is
/// the depth in force before the k-th call and `entries[k]` is the statement
/// that call issued, with the channel's (successful) answer.
pub open spec fn successful_begin_run(depths: Seq<nat>, entries: StatementLog) -> bool {
    &&& depths.len() == entries.len() + 1
    &&& depths[0] == 0
    &&& forall|k: int|
        0 <= k < entries.len() ==> entries[k].1 is Ok && begin_transition(
            depths[k],
            entries.take(k),
            depths[k + 1],
            entries.take(k + 1),
            entries[k].1,
        )
}

proof fn lemma_begin_run_prefix(depths: Seq<nat>, entries: StatementLog, k: int)
    requires
        successful_begin_run(depths, entries),
        0 <= k <= entries.len(),
    ensures
        depths[k] == k,
        forall|j: int| 0 <= j < k ==> entries[j].0 == begin_stmt(j as nat),
    decreases k,
{
    if k > 0 {
        lemma_begin_run_prefix(depths, entries, k - 1);
        let l0 = entries.take(k - 1);
        let l1 = entries.take(k);
        assert(begin_transition(depths[k - 1], l0, depths[k], l1, entries[k - 1].1));
        assert(l1[k - 1] == entries[k - 1]);
        assert(l1 == l0.push((begin_stmt(depths[k - 1]), entries[k - 1].1)));
        assert(entries[k - 1].0 == begin_stmt((k - 1) as nat));
    }
}

/// After any sequence of N successful `begin` calls on a fresh manager, the
/// depth equals N; the k-th call (counting from zero) was made at depth k and
/// issued the begin statement for depth k, so each call after the first
/// issued a savepoint statement whose name encodes the depth at its time of
/// issue — one less than the depth the call produced.
pub proof fn lemma_begin_run(depths: Seq<nat>, entries: StatementLog)
    requires
        successful_begin_run(depths, entries),
    ensures
        depths.last() == entries.len(),
        forall|k: int| 0 <= k <= entries.len() ==> depths[k] == k,
        forall|k: int| 0 <= k < entries.len() ==> entries[k].0 == begin_stmt(k as nat),
        forall|k: int|
            1 <= k < entries.len() ==> entries[k].0 == "SAVEPOINT "@ + savepoint_name(k as nat),
{
    assert forall|k: int| 0 <= k <= entries.len() implies depths[k] == k by {
        lemma_begin_run_prefix(depths, entries, k);
    }
    lemma_begin_run_prefix(depths, entries, entries.len() as int);
}

/// `commit` is inverse in depth effect to `begin`: when both calls succeed,
/// the depth after begin-then-commit equals the depth before the begin.
pub proof fn lemma_begin_commit_inverse(
    d0: nat,
    l0: StatementLog,
    d1: nat,
    l1: StatementLog,
    d2: nat,
    l2: StatementLog,
    rb: Result<(), Error>,
    rc: Result<(), Error>,
)
    requires
        begin_transition(d0, l0, d1, l1, rb),
        rb is Ok,
        commit_transition(d1, l1, d2, l2, rc),
        rc is Ok,
    ensures
        d2 == d0,
{
    if d1 <= 1 {
        let cr = l2[l1.len() as int].1;
        if cr is Err {
            assert(rc is Err);
        }
    }
}

/// `rollback` is inverse in depth effect to `begin`: when both calls succeed,
/// the depth after begin-then-rollback equals the depth before the begin.
pub proof fn lemma_begin_rollback_inverse(
    d0: nat,
    l0: StatementLog,
    d1: nat,
    l1: StatementLog,
    d2: nat,
    l2: StatementLog,
    rb: Result<(), Error>,
    rr: Result<(), Error>,
)
    requires
        begin_transition(d0, l0, d1, l1, rb),
        rb is Ok,
        rollback_transition(d1, l1, d2, l2, rr),
        rr is Ok,
    ensures
        d2 == d0,
{
}

proof fn lemma_digit_char_injective(a: nat, b: nat)
    requires
        a < 10,
        b < 10,
        digit_char(a) == digit_char(b),
    ensures
        a == b,
{
}

proof fn lemma_dec_rep_len(n: nat)
    ensures
        dec_rep(n).len() >= 1,
        n >= 10 ==> dec_rep(n).len() >= 2,
    decreases n,
{
    if n >= 10 {
        lemma_dec_rep_len(n / 10);
    }
}

proof fn lemma_dec_rep_injective(a: nat, b: nat)
    requires
        dec_rep(a) == dec_rep(b),
    ensures
        a == b,
    decreases a + b,
{
    lemma_dec_rep_len(a);
    lemma_dec_rep_len(b);
    if a < 10 && b < 10 {
        assert(dec_rep(a) == seq![digit_char(a)]);
        assert(dec_rep(b) == seq![digit_char(b)]);
        assert(seq![digit_char(a)][0] == digit_char(a));
        assert(seq![digit_char(b)][0] == digit_char(b));
        lemma_digit_char_injective(a, b);
    } else if a >= 10 && b >= 10 {
        assert(dec_rep(a) == dec_rep(a / 10).push(digit_char(a % 10)));
        assert(dec_rep(b) == dec_rep(b / 10).push(digit_char(b % 10)));
        assert(dec_rep(a).last() == digit_char(a % 10));
        assert(dec_rep(b).last() == digit_char(b % 10));
        lemma_digit_char_injective(a % 10, b % 10);
        assert(dec_rep(a / 10).push(digit_char(a % 10)).drop_last() =~= dec_rep(a / 10));
        assert(dec_rep(b / 10).push(digit_char(b % 10)).drop_last() =~= dec_rep(b / 10));
        lemma_dec_rep_injective(a / 10, b / 10);
    } else {
        assert(dec_rep(a).len() != dec_rep(b).len());
    }
}

/// Savepoint names are collision-free within one connection's lifetime:
/// depth alone determines the name, and distinct depths give distinct names,
/// so two open savepoints — which never share a depth — never share a name.
pub proof fn lemma_savepoint_names_distinct(a: nat, b: nat)
    requires
        savepoint_name(a) == savepoint_name(b),
    ensures
        a == b,
{
    let p = "diesel_savepoint_"@;
    assert((p + dec_rep(a)).len() == (p + dec_rep(b)).len());
    assert(dec_rep(a).len() == dec_rep(b).len());
    assert forall|i: int| 0 <= i < dec_rep(a).len() implies dec_rep(a)[i] == dec_rep(b)[i] by {
        assert(dec_rep(a)[i] == (p + dec_rep(a))[p.len() + i]);
        assert(dec_rep(b)[i] == (p + dec_rep(b))[p.len() + i]);
    }
    assert(dec_rep(a) =~= dec_rep(b));
    lemma_dec_rep_injective(a, b);
}

/// Commit recovery: when a commit at depth one fails with a serialization
/// failure or a read-only violation, the manager issues a compensating
/// `ROLLBACK` and the depth falls to zero whatever that rollback returned.
/// The caller sees the original commit error when the rollback succeeded, and
/// the rollback's own error — the sign that the connection is broken — when
/// it did not; in both cases the call reports failure.
pub proof fn lemma_commit_recovery(
    l0: StatementLog,
    d1: nat,
    l1: StatementLog,
    r: Result<(), Error>,
    ce: Error,
)
    requires
        commit_transition(1, l0, d1, l1, r),
        l1[l0.len() as int].1 == Err::<(), Error>(ce),
        triggers_compensating_rollback(ce),
    ensures
        d1 == 0,
        l1.len() == l0.len() + 2,
        l1.last().0 == rollback_stmt(1),
        l1.last().1 is Ok ==> r == Err::<(), Error>(ce),
        l1.last().1 is Err ==> r == l1.last().1,
        r is Err,
{
}

} // verus!
