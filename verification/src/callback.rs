//! The verification callback handler: a proof submitted against the
//! challenge link is bound to the stored request, forwarded to the
//! identity-verification provider by the surrounding process, and on
//! acceptance the matching registry entry is mutated in place — the
//! callback never removes an entry.
//!
//! The surrounding process holds the registry's lock from the lookup
//! (`begin_verification`) across the provider call until the transition
//! (`handle_provider_outcome`) is applied, so no enforcement fire can
//! interleave with a verification in flight.

use vstd::prelude::*;

use crate::enforcement::{fire_outcome, TimerOutcome};
use crate::registry::{JoinRequest, Registry, RequestKey};
use crate::text::dec_i64;
use crate::text::int_dec_str;

verus! {

/// The error taxonomy of the verification path, surfaced over HTTP.
#[derive(Clone, Copy, PartialEq, Eq, Structural, Debug)]
pub enum VerifyError {
    /// No pending request is stored for the key.
    NotFound,
    /// The request was already resolved: its challenge reference is cleared.
    Conflict,
    /// The provider reports the identity as already used for this action.
    RateLimited,
    /// The provider rejected the proof for any other reason.
    BadRequest,
    /// Transport or deserialization failure talking to the provider.
    UpstreamFailure,
    /// Chat permissions could not be read or applied.
    PermissionFailure,
    /// A message could not be sent or deleted, or a member not restricted.
    MessagingFailure,
}

/// The HTTP status each error is surfaced as.
pub open spec fn spec_status(e: VerifyError) -> u16 {
    match e {
        VerifyError::NotFound => 404,
        VerifyError::Conflict => 409,
        VerifyError::RateLimited => 429,
        VerifyError::BadRequest => 400,
        VerifyError::UpstreamFailure => 500,
        VerifyError::PermissionFailure => 500,
        VerifyError::MessagingFailure => 500,
    }
}

impl VerifyError {
    /// The HTTP status code this error is surfaced as.
    pub fn status_code(&self) -> (r: u16)
        ensures
            r == spec_status(*self),
    {
        match self {
            VerifyError::NotFound => 404,
            VerifyError::Conflict => 409,
            VerifyError::RateLimited => 429,
            VerifyError::BadRequest => 400,
            VerifyError::UpstreamFailure => 500,
            VerifyError::PermissionFailure => 500,
            VerifyError::MessagingFailure => 500,
        }
    }
}

/// The domain-binding fields forwarded with a proof: the challenge message
/// reference as the replay-binding signal, and the group as the action.
/// They are read from the stored request, never from the caller, so a proof
/// minted for one (group, member) pair cannot be replayed against another.
#[derive(Clone, Copy, PartialEq, Eq, Structural, Debug)]
pub struct ChallengeBinding {
    pub signal_msg: i32,
    pub action_group: i64,
}

impl ChallengeBinding {
    /// The signal field exactly as forwarded to the provider and embedded
    /// in the challenge page: the message reference in decimal.
    pub fn signal_string(&self) -> (r: String)
        ensures
            r@ == int_dec_str(self.signal_msg as int),
    {
        dec_i64(self.signal_msg as i64)
    }

    /// The action field exactly as forwarded to the provider and embedded
    /// in the challenge page: the group identifier in decimal.
    pub fn action_string(&self) -> (r: String)
        ensures
            r@ == int_dec_str(self.action_group as int),
    {
        dec_i64(self.action_group)
    }
}

/// What the callback's lookup yields for a key: the binding to forward, or
/// the error owed (`NotFound` if no request is stored, `Conflict` if the
/// challenge reference is already cleared).
pub open spec fn spec_lookup(
    m: Map<RequestKey, JoinRequest>,
    key: RequestKey,
) -> Result<ChallengeBinding, VerifyError> {
    if !m.contains_key(key) {
        Err(VerifyError::NotFound)
    } else if m[key].msg_id is None {
        Err(VerifyError::Conflict)
    } else {
        Ok(ChallengeBinding { signal_msg: m[key].msg_id->0, action_group: key.group })
    }
}

/// Looks the pending request up and builds the domain binding for it.
///
/// This is both the challenge page's lookup (absent: 404; already
/// resolved: 409) and the first step of the callback itself.
pub fn begin_verification(reg: &Registry, key: RequestKey) -> (r: Result<
    ChallengeBinding,
    VerifyError,
>)
    requires
        reg.wf(),
    ensures
        r == spec_lookup(reg@, key),
{
    match reg.get(key) {
        None => Err(VerifyError::NotFound),
        Some(record) => match record.msg_id {
            None => Err(VerifyError::Conflict),
            Some(msg_id) => Ok(ChallengeBinding { signal_msg: msg_id, action_group: key.group }),
        },
    }
}

/// What the provider call came back with, as the surrounding process hands
/// it to the library: acceptance, a rejection with the reported reason
/// code, or a transport/deserialization failure.
#[derive(Clone, PartialEq, Eq, Debug)]
pub enum ProviderOutcome {
    Accepted,
    Rejected { reason: Option<String> },
    TransportFailure,
}

/// The rejection reason the provider reports when an identity was already
/// used for this action.
pub open spec fn already_used_reason() -> Seq<char> {
    "max_verifications_reached"@
}

/// The error a provider rejection maps to: the specific "already used"
/// reason maps to `RateLimited`; any other rejection, including one with
/// no reason code at all, maps to `BadRequest`.
pub open spec fn spec_rejection_error(reason: Option<Seq<char>>) -> VerifyError {
    if reason == Some(already_used_reason()) {
        VerifyError::RateLimited
    } else {
        VerifyError::BadRequest
    }
}

/// Maps a provider rejection reason to the error taxonomy.
pub fn map_rejection(reason: &Option<String>) -> (e: VerifyError)
    ensures
        e == (match reason {
            Some(s) => spec_rejection_error(Some(s@)),
            None => spec_rejection_error(None::<Seq<char>>),
        }),
{
    match reason {
        None => VerifyError::BadRequest,
        Some(s) => {
            let already_used: String = "max_verifications_reached".to_owned();
            if *s == already_used {
                VerifyError::RateLimited
            } else {
                VerifyError::BadRequest
            }
        },
    }
}

/// The record an accepted verification leaves behind: verified, with the
/// challenge reference cleared (the message is deleted at the same step).
pub open spec fn accepted_record() -> JoinRequest {
    JoinRequest { msg_id: None, is_verified: true }
}

/// The result acceptance yields for a key: the challenge message to delete,
/// or the error owed.  Acceptance fails closed: a key whose challenge
/// reference is already cleared yields `Conflict`, never a re-verification.
pub open spec fn spec_accept_result(
    m: Map<RequestKey, JoinRequest>,
    key: RequestKey,
) -> Result<i32, VerifyError> {
    if !m.contains_key(key) {
        Err(VerifyError::NotFound)
    } else if m[key].msg_id is None {
        Err(VerifyError::Conflict)
    } else {
        Ok(m[key].msg_id->0)
    }
}

/// The registry state acceptance leaves: the entry mutated in place —
/// verified set true, challenge reference cleared — and nothing removed.
/// A failed acceptance leaves the registry unchanged.
pub open spec fn spec_accept_map(
    m: Map<RequestKey, JoinRequest>,
    key: RequestKey,
) -> Map<RequestKey, JoinRequest> {
    if m.contains_key(key) && m[key].msg_id is Some {
        m.insert(key, accepted_record())
    } else {
        m
    }
}

/// Applies a provider acceptance to the registry: marks the entry verified
/// and clears its challenge reference, returning the challenge message the
/// process must now delete (and after which it restores the member's
/// permissions).  The entry is mutated in place, never removed.
pub fn accept_verification(reg: &mut Registry, key: RequestKey) -> (r: Result<i32, VerifyError>)
    requires
        old(reg).wf(),
    ensures
        final(reg).wf(),
        final(reg)@ == spec_accept_map(old(reg)@, key),
        r == spec_accept_result(old(reg)@, key),
{
    match reg.get(key) {
        None => Err(VerifyError::NotFound),
        Some(record) => match record.msg_id {
            None => {
                proof {
                    assert(spec_accept_map(reg@, key) =~= reg@);
                }
                Err(VerifyError::Conflict)
            },
            Some(msg_id) => {
                reg.insert(key, JoinRequest { msg_id: None, is_verified: true });
                Ok(msg_id)
            },
        },
    }
}

/// Applies what the provider call came back with: acceptance mutates the
/// entry and hands out the challenge message to delete; a rejection or a
/// transport failure leaves the registry untouched and yields the mapped
/// error.
pub fn handle_provider_outcome(
    reg: &mut Registry,
    key: RequestKey,
    outcome: &ProviderOutcome,
) -> (r: Result<i32, VerifyError>)
    requires
        old(reg).wf(),
    ensures
        final(reg).wf(),
        match outcome {
            ProviderOutcome::Accepted => {
                &&& final(reg)@ == spec_accept_map(old(reg)@, key)
                &&& r == spec_accept_result(old(reg)@, key)
            },
            ProviderOutcome::Rejected { reason } => {
                &&& final(reg)@ == old(reg)@
                &&& r == Err::<i32, VerifyError>(match reason {
                    Some(s) => spec_rejection_error(Some(s@)),
                    None => spec_rejection_error(None::<Seq<char>>),
                })
            },
            ProviderOutcome::TransportFailure => {
                &&& final(reg)@ == old(reg)@
                &&& r == Err::<i32, VerifyError>(VerifyError::UpstreamFailure)
            },
        },
{
    match outcome {
        ProviderOutcome::Accepted => accept_verification(reg, key),
        ProviderOutcome::Rejected { reason } => Err(map_rejection(reason)),
        ProviderOutcome::TransportFailure => Err(VerifyError::UpstreamFailure),
    }
}

/// Calling the callback twice for one key: once an acceptance went
/// through, the entry's challenge reference is cleared, so the second
/// call yields `Conflict` and leaves the registry exactly as it was — no
/// second deletion, no second permission restore.
pub proof fn lemma_second_callback_conflicts(m: Map<RequestKey, JoinRequest>, key: RequestKey)
    requires
        spec_accept_result(m, key) is Ok,
    ensures
        spec_accept_result(spec_accept_map(m, key), key) == Err::<i32, VerifyError>(
            VerifyError::Conflict,
        ),
        spec_accept_map(spec_accept_map(m, key), key) == spec_accept_map(m, key),
{
    assert(spec_accept_map(spec_accept_map(m, key), key) =~= spec_accept_map(m, key));
}

/// The provider's "already used" rejection reason is surfaced as HTTP 429
/// exactly; every other rejection reason — or a missing one — as HTTP 400.
pub proof fn lemma_rejection_status(reason: Option<Seq<char>>)
    ensures
        spec_status(spec_rejection_error(reason)) == 429 <==> reason == Some(
            already_used_reason(),
        ),
        reason != Some(already_used_reason()) ==> spec_status(spec_rejection_error(reason))
            == 400,
{
}

/// A verification that completes before the grace duration elapses wins
/// the race: the timer, firing later, finds the entry marked verified and
/// takes the no-op branch — the member is never enforced against.
pub proof fn lemma_verification_beats_the_timer(m: Map<RequestKey, JoinRequest>, key: RequestKey)
    requires
        spec_accept_result(m, key) is Ok,
    ensures
        fire_outcome(spec_accept_map(m, key), key) == TimerOutcome::AlreadyVerified,
{
}

/// The binding forwarded with a proof depends only on the stored request:
/// two keys in different groups always get different action fields, and
/// two requests with different challenge messages always get different
/// signal fields — so a proof minted for one pending request fails the
/// provider's binding check when replayed against another.
pub proof fn lemma_binding_separates_requests(
    m: Map<RequestKey, JoinRequest>,
    k1: RequestKey,
    k2: RequestKey,
)
    requires
        spec_lookup(m, k1) is Ok,
        spec_lookup(m, k2) is Ok,
        k1.group != k2.group || m[k1].msg_id != m[k2].msg_id,
    ensures
        spec_lookup(m, k1)->Ok_0 != spec_lookup(m, k2)->Ok_0,
{
}

} // verus!
