//! The enforcement timer: one per pending request, armed when the member
//! joins, firing once after the group's grace duration.  It is the only
//! component that removes an entry from the registry.  On firing it reads
//! the final state of the entry and decides: no-op if the member verified
//! in time (or the entry is already gone), enforcement otherwise.

use vstd::prelude::*;

use crate::registry::{JoinRequest, Registry, RequestKey};

verus! {

/// What the timer found when it fired, and what the process must now do.
#[derive(Clone, Copy, PartialEq, Eq, Debug)]
pub enum TimerOutcome {
    /// No entry was stored for the key: another fire already ran; no-op.
    NoEntry,
    /// The member verified before the grace duration elapsed; no-op.
    AlreadyVerified,
    /// The member never verified: revoke membership, and delete the
    /// challenge message if it is still undeleted.
    Enforce { msg_to_delete: Option<i32> },
}

/// The decision a firing timer takes against the registry state it finds.
pub open spec fn fire_outcome(m: Map<RequestKey, JoinRequest>, key: RequestKey) -> TimerOutcome {
    if !m.contains_key(key) {
        TimerOutcome::NoEntry
    } else if m[key].is_verified {
        TimerOutcome::AlreadyVerified
    } else {
        TimerOutcome::Enforce { msg_to_delete: m[key].msg_id }
    }
}

/// One armed enforcement timer: fires exactly once, after the grace
/// duration it was armed with; it is not restartable and not cancellable.
pub struct EnforcementTimer {
    key: RequestKey,
    grace_secs: u64,
    fired: bool,
}

impl EnforcementTimer {
    pub closed spec fn spec_key(&self) -> RequestKey {
        self.key
    }

    pub closed spec fn spec_grace_secs(&self) -> u64 {
        self.grace_secs
    }

    pub closed spec fn has_fired(&self) -> bool {
        self.fired
    }

    /// Arms a timer for one pending request with the group's grace duration.
    pub fn arm(key: RequestKey, grace_secs: u64) -> (t: EnforcementTimer)
        ensures
            t.spec_key() == key,
            t.spec_grace_secs() == grace_secs,
            !t.has_fired(),
    {
        EnforcementTimer { key, grace_secs, fired: false }
    }

    /// The grace duration, in seconds, that the surrounding process must
    /// let elapse before calling `fire`.
    pub fn grace_secs(&self) -> (r: u64)
        ensures
            r == self.spec_grace_secs(),
    {
        self.grace_secs
    }

    /// The key this timer was armed for.
    pub fn key(&self) -> (r: RequestKey)
        ensures
            r == self.spec_key(),
    {
        self.key
    }

    /// Fires the timer: takes the entry out of the registry (the timer is
    /// the sole remover) and reports what enforcement, if any, is owed.
    ///
    /// A timer fires at most once: the `requires` rules a second fire out,
    /// and the outcome says `NoEntry` if the entry is somehow already gone.
    pub fn fire(&mut self, reg: &mut Registry) -> (r: TimerOutcome)
        requires
            !old(self).has_fired(),
            old(reg).wf(),
        ensures
            final(self).has_fired(),
            final(self).spec_key() == old(self).spec_key(),
            final(self).spec_grace_secs() == old(self).spec_grace_secs(),
            final(reg).wf(),
            final(reg)@ == old(reg)@.remove(old(self).spec_key()),
            r == fire_outcome(old(reg)@, old(self).spec_key()),
    {
        self.fired = true;
        match reg.remove_if_present(self.key) {
            None => TimerOutcome::NoEntry,
            Some(record) => {
                if record.is_verified {
                    TimerOutcome::AlreadyVerified
                } else {
                    TimerOutcome::Enforce { msg_to_delete: record.msg_id }
                }
            },
        }
    }
}

/// If verification completed before the timer fired — the entry it finds is
/// marked verified — the member is never enforced against: the fire is a
/// pure cleanup.
pub proof fn lemma_verified_in_time_never_enforced(
    m: Map<RequestKey, JoinRequest>,
    key: RequestKey,
)
    requires
        m.contains_key(key),
        m[key].is_verified,
    ensures
        fire_outcome(m, key) == TimerOutcome::AlreadyVerified,
{
}

/// If the grace duration elapses with no successful verification, the fire
/// enforces exactly once: it reports enforcement, hands out the challenge
/// message reference exactly as stored (so the message is deleted once if
/// it was still undeleted, and not at all otherwise), and a repeated fire
/// against the resulting registry state is a no-op.
pub proof fn lemma_unverified_enforced_exactly_once(
    m: Map<RequestKey, JoinRequest>,
    key: RequestKey,
)
    requires
        m.contains_key(key),
        !m[key].is_verified,
    ensures
        fire_outcome(m, key) == (TimerOutcome::Enforce { msg_to_delete: m[key].msg_id }),
        fire_outcome(m.remove(key), key) == TimerOutcome::NoEntry,
{
}

} // verus!
