use crate::registry::update_applied;
use crate::registry::Address;
use crate::registry::RiskOracle;
use vstd::prelude::*;

verus! {

/// In a freshly created registry, every validator identifier reads as zero.
pub proof fn lemma_fresh_reads_zero(o: RiskOracle, id: Seq<char>)
    requires
        o.scores() == Map::<Seq<char>, u8>::empty(),
    ensures
        o.score_of(id) == 0,
{
}

/// A validator identifier that no write has recorded reads as zero.
pub proof fn lemma_unwritten_reads_zero(o: RiskOracle, id: Seq<char>)
    requires
        !o.scores().dom().contains(id),
    ensures
        o.score_of(id) == 0,
{
}

/// After a successful update, reading the written identifier yields the
/// written score.
pub proof fn lemma_update_then_read(
    pre: RiskOracle,
    post: RiskOracle,
    id: Seq<char>,
    score: u8,
    now: u64,
)
    requires
        update_applied(pre, post, id, score, now),
    ensures
        post.score_of(id) == score,
{
}

/// A successful update changes the read of no validator identifier other
/// than the one written.
pub proof fn lemma_update_frames_others(
    pre: RiskOracle,
    post: RiskOracle,
    id: Seq<char>,
    score: u8,
    now: u64,
    other: Seq<char>,
)
    requires
        update_applied(pre, post, id, score, now),
        other != id,
    ensures
        post.score_of(other) == pre.score_of(other),
{
}

/// Before an administrator is recorded, no caller at all is authorized,
/// so every write attempt is refused.
pub proof fn lemma_uninitialized_rejects(o: RiskOracle, caller: Address)
    requires
        o.admin_id() is None,
    ensures
        !o.is_admin(caller),
{
}

/// Updating one identifier with one score twice in succession leaves the
/// same observable state as updating it once, except that the timestamp
/// reflects the later call's time — which both sides here carry.
pub proof fn lemma_update_idempotent(
    s0: RiskOracle,
    s1: RiskOracle,
    s2: RiskOracle,
    once: RiskOracle,
    id: Seq<char>,
    score: u8,
    t1: u64,
    t2: u64,
)
    requires
        update_applied(s0, s1, id, score, t1),
        update_applied(s1, s2, id, score, t2),
        update_applied(s0, once, id, score, t2),
    ensures
        s2.scores() == once.scores(),
        s2.admin_id() == once.admin_id(),
        s2.last_update_time() == once.last_update_time(),
{
    assert(s2.scores() =~= once.scores());
}

/// Last write wins: after two successful updates of one identifier with
/// scores `score1` then `score2`, a read yields `score2`.
pub proof fn lemma_last_write_wins(
    s0: RiskOracle,
    s1: RiskOracle,
    s2: RiskOracle,
    id: Seq<char>,
    score1: u8,
    score2: u8,
    t1: u64,
    t2: u64,
)
    requires
        update_applied(s0, s1, id, score1, t1),
        update_applied(s1, s2, id, score2, t2),
    ensures
        s2.score_of(id) == score2,
{
}

} // verus!
