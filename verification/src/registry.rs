use vstd::hash_map::StringHashMap;
use vstd::prelude::*;

verus! {

/// The identity of a caller, as the host environment supplies it with
/// every call: an opaque, comparable identifier.
#[derive(Clone, Copy, Debug, Eq, Hash, PartialEq, Structural)]
pub struct Address {
    pub id: u64,
}

/// The single error the registry reports: a write was attempted by a
/// caller that is not the stored administrator, or before any
/// administrator was recorded.
#[derive(Clone, Copy, Debug, Eq, PartialEq, Structural)]
pub enum Error {
    Unauthorized,
}

/// The risk registry: a score per validator identifier, writable only by
/// the administrator recorded at initialization, readable by anyone.
pub struct RiskOracle {
    risk_scores: StringHashMap<u8>,
    admin: Option<Address>,
    last_update: u64,
}

/// The relation a successful `update_risk` of `id` to `score` at time `now`
/// establishes between the registry before (`pre`) and after (`post`) the
/// call: the one score is overwritten, the administrator is kept, and the
/// timestamp reflects this write.
pub open spec fn update_applied(
    pre: RiskOracle,
    post: RiskOracle,
    id: Seq<char>,
    score: u8,
    now: u64,
) -> bool {
    &&& post.scores() == pre.scores().insert(id, score)
    &&& post.admin_id() == pre.admin_id()
    &&& post.last_update_time() == now
}

impl RiskOracle {
    /// The recorded scores, as a map from validator identifier to score.
    pub closed spec fn scores(self) -> Map<Seq<char>, u8> {
        self.risk_scores@
    }

    /// The administrator identity, where one has been recorded.
    pub closed spec fn admin_id(self) -> Option<Address> {
        self.admin
    }

    /// The time of the most recent accepted write; zero before any write.
    pub closed spec fn last_update_time(self) -> u64 {
        self.last_update
    }

    /// What a read of `id` observes: the stored score, or zero where none
    /// is recorded. Absence and a stored zero read alike.
    pub open spec fn score_of(self, id: Seq<char>) -> u8 {
        if self.scores().dom().contains(id) {
            self.scores()[id]
        } else {
            0
        }
    }

    /// Whether `caller` may write: an administrator has been recorded and
    /// `caller` is that administrator.
    pub open spec fn is_admin(self, caller: Address) -> bool {
        self.admin_id() == Some(caller)
    }

    /// Creates a registry in its uninitialized state: no administrator,
    /// no scores, a zero timestamp.
    pub fn new() -> (r: RiskOracle)
        ensures
            r.admin_id() is None,
            r.scores() == Map::<Seq<char>, u8>::empty(),
            r.last_update_time() == 0,
    {
        RiskOracle { risk_scores: StringHashMap::new(), admin: None, last_update: 0 }
    }

    /// Records `caller` as the administrator. The host invokes this exactly
    /// once, at creation time, before any write; scores and timestamp are
    /// untouched.
    pub fn init(&mut self, caller: Address)
        requires
            old(self).admin_id() is None,
        ensures
            final(self).admin_id() == Some(caller),
            final(self).scores() == old(self).scores(),
            final(self).last_update_time() == old(self).last_update_time(),
    {
        self.admin = Some(caller);
    }

    /// Records `score` for `validator` and stamps the write with the
    /// host-supplied time `now`, provided `caller` is the administrator;
    /// any other caller, or a registry with no administrator yet, gets
    /// `Unauthorized` with no state change. The host's clock never runs
    /// backwards, so the timestamp never rolls back.
    pub fn update_risk(&mut self, caller: Address, validator: String, score: u8, now: u64) -> (r:
        Result<(), Error>)
        requires
            old(self).last_update_time() <= now,
        ensures
            r is Ok <==> old(self).is_admin(caller),
            old(self).is_admin(caller) ==> update_applied(
                *old(self),
                *final(self),
                validator@,
                score,
                now,
            ),
            !old(self).is_admin(caller) ==> r == Result::<(), Error>::Err(Error::Unauthorized)
                && *final(self) == *old(self),
            old(self).last_update_time() <= final(self).last_update_time(),
    {
        let authorized = match self.admin {
            Some(a) => a == caller,
            None => false,
        };
        if !authorized {
            return Err(Error::Unauthorized);
        }
        self.risk_scores.insert(validator, score);
        self.last_update = now;
        Ok(())
    }

    /// Returns the administrator recorded so far, if any.
    pub fn current_admin(&self) -> (r: Option<Address>)
        ensures
            r == self.admin_id(),
    {
        self.admin
    }

    /// Returns the time of the most recent accepted write; zero before
    /// any write.
    pub fn last_updated(&self) -> (r: u64)
        ensures
            r == self.last_update_time(),
    {
        self.last_update
    }

    /// Returns the score recorded for `validator`, or zero where none is
    /// recorded. No authorization, no side effect.
    pub fn get_risk(&self, validator: String) -> (r: u8)
        ensures
            r == self.score_of(validator@),
    {
        match self.risk_scores.get(validator.as_str()) {
            Some(v) => *v,
            None => 0,
        }
    }
}

} // verus!
