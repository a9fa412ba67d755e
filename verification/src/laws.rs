//! What holds of the registry's transitions, one at a time.

use vstd::prelude::*;
use vstd::set_lib::{lemma_len_subset, lemma_set_disjoint_lens};
use soroban_sdk::Address;
use crate::error::RegistryError;
use crate::model::{Call, RegistryState};

verus! {

/// There are exactly `count_policy` ids from 1 up to `count_policy`.
pub proof fn lemma_issued_ids_len(count_policy: u64)
    ensures
        RegistryState::issued_ids(count_policy).finite(),
        RegistryState::issued_ids(count_policy).len() == count_policy,
    decreases count_policy,
{
    if count_policy == 0 {
        assert(RegistryState::issued_ids(count_policy) =~= Set::<u64>::empty());
    } else {
        let before = (count_policy - 1) as u64;
        lemma_issued_ids_len(before);
        assert(RegistryState::issued_ids(count_policy) =~= RegistryState::issued_ids(
            before,
        ).insert(count_policy));
    }
}

/// In a consistent registry there are as many records as the sequence counter
/// says, no policy is both active and claimed, and the active and the claimed
/// policies together are at most all policies.
pub proof fn lemma_active_and_claimed_are_apart(state: RegistryState)
    requires
        state.consistent(),
    ensures
        state.policies.dom().finite(),
        state.policies.dom().len() == state.count_policy,
        state.active_ids().finite(),
        state.claimed_ids().finite(),
        state.active_ids().disjoint(state.claimed_ids()),
        state.active_ids().len() + state.claimed_ids().len() <= state.count_policy,
{
    let all = state.policies.dom();
    let active = state.active_ids();
    let claimed = state.claimed_ids();
    lemma_issued_ids_len(state.count_policy);
    // A well-formed record is not both active and claimed.
    assert(active.disjoint(claimed));
    lemma_set_disjoint_lens(active, claimed);
    lemma_len_subset(active + claimed, all);
}

/// The empty registry is consistent.
pub proof fn lemma_empty_is_consistent()
    ensures
        RegistryState::empty().consistent(),
{
    let state = RegistryState::empty();
    assert(state.active_ids() =~= Set::<u64>::empty());
    assert(state.claimed_ids() =~= Set::<u64>::empty());
}

/// In a consistent registry the active and the claimed policies together are
/// never more than the policies created.
pub proof fn lemma_counters_are_bounded(state: RegistryState)
    requires
        state.consistent(),
    ensures
        state.stats.active_policies + state.stats.claimed_policies <= state.stats.total_policies,
{
    lemma_active_and_claimed_are_apart(state);
}

/// A call leaves a consistent registry consistent, whether it succeeds or is
/// refused.
pub proof fn lemma_call_keeps_consistent(state: RegistryState, call: Call)
    requires
        state.consistent(),
    ensures
        state.step(call).consistent(),
{
    let next = state.step(call);
    if state.outcome(call) is Ok {
        lemma_active_and_claimed_are_apart(state);
        match call {
            Call::Create { .. } => {
                assert(next.active_ids() =~= state.active_ids());
                assert(next.claimed_ids() =~= state.claimed_ids());
            },
            Call::Purchase { policy_id, .. } => {
                assert(next.active_ids() =~= state.active_ids().insert(policy_id));
                assert(next.claimed_ids() =~= state.claimed_ids());
            },
            Call::Claim { policy_id, .. } => {
                assert(next.active_ids() =~= state.active_ids().remove(policy_id));
                assert(next.claimed_ids() =~= state.claimed_ids().insert(policy_id));
            },
        }
    }
}

/// In a consistent registry the counters never stand in the way of a purchase
/// or a claim: a purchase is not refused with `Overflow`, and a claim is
/// refused neither with `Underflow` nor with `Overflow`.
pub proof fn lemma_consistent_counters_suffice(state: RegistryState, call: Call)
    requires
        state.consistent(),
        call is Purchase || call is Claim,
    ensures
        state.outcome(call) != Err::<RegistryState, RegistryError>(RegistryError::Overflow),
        state.outcome(call) != Err::<RegistryState, RegistryError>(RegistryError::Underflow),
{
    lemma_active_and_claimed_are_apart(state);
    let policy_id = call.key(state).id();
    if state.policies.contains_key(policy_id) {
        if state.policies[policy_id].is_active {
            // One policy at least is active, and it is not claimed.
            assert(state.active_ids().contains(policy_id));
        } else {
            // One policy at least is not active, so fewer than all are.
            lemma_len_subset(state.active_ids().insert(policy_id), state.policies.dom());
        }
    }
}

/// A policy cannot be purchased from its end time on: an authorized purchase
/// of a policy that nobody has purchased is refused with `Expired` when the
/// ledger time is the end time or later.
pub proof fn lemma_purchase_from_end_time_on_is_expired(
    state: RegistryState,
    insured: Address,
    policy_id: u64,
    now: u64,
)
    requires
        state.policies.contains_key(policy_id),
        state.policies[policy_id].insured is None,
        !state.policies[policy_id].is_active,
        now >= state.policies[policy_id].end_time,
    ensures
        state.after_purchase(insured, policy_id, now, true) == Err::<
            RegistryState,
            RegistryError,
        >(RegistryError::Expired),
{
}

/// No claim is paid on a policy that nobody has purchased: in a consistent
/// registry an authorized claim on such a policy is refused with
/// `InvalidState`.
pub proof fn lemma_claim_on_unpurchased_policy_is_refused(
    state: RegistryState,
    policy_id: u64,
    now: u64,
)
    requires
        state.consistent(),
        state.policies.contains_key(policy_id),
        state.policies[policy_id].insured is None,
    ensures
        state.after_claim(policy_id, now, true) == Err::<RegistryState, RegistryError>(
            RegistryError::InvalidState,
        ),
{
}

/// A claim that succeeds moves exactly one policy from the active count to the
/// claimed count and leaves the total alone; in a consistent registry the two
/// counts together still do not exceed the total.
pub proof fn lemma_claim_moves_one_policy(
    state: RegistryState,
    policy_id: u64,
    now: u64,
    authorized: bool,
)
    requires
        state.after_claim(policy_id, now, authorized) is Ok,
    ensures
        ({
            let before = state.stats;
            let after = state.after_claim(policy_id, now, authorized)->Ok_0.stats;
            &&& after.active_policies == before.active_policies - 1
            &&& after.claimed_policies == before.claimed_policies + 1
            &&& after.total_policies == before.total_policies
            &&& (state.consistent() ==> after.active_policies + after.claimed_policies
                <= after.total_policies)
        }),
{
    if state.consistent() {
        lemma_call_keeps_consistent(state, Call::Claim { policy_id, now, authorized });
        lemma_counters_are_bounded(state.after_claim(policy_id, now, authorized)->Ok_0);
    }
}

/// A call reads the counters and one record, and writes nothing but the
/// counters and that record. So a registry that holds the counters and, of the
/// records, only the one under the call's key decides as the whole registry
/// does: the two refuse the call for the same reason, or they leave the same
/// counters and the same record under the key, and every other record of the
/// whole registry is as it was.
pub proof fn lemma_calls_are_local(whole: RegistryState, part: RegistryState, call: Call)
    requires
        part.count_policy == whole.count_policy,
        part.stats == whole.stats,
        call is Create || part.record(call.key(whole)) == whole.record(call.key(whole)),
    ensures
        match (whole.outcome(call), part.outcome(call)) {
            (Ok(next_whole), Ok(next_part)) => {
                let key = call.key(whole);
                &&& next_whole.count_policy == next_part.count_policy
                &&& next_whole.stats == next_part.stats
                &&& next_part.record(key) is Some
                &&& next_whole.record(key) == next_part.record(key)
                &&& next_whole.policies == whole.policies.insert(
                    key.id(),
                    next_part.record(key)->Some_0,
                )
            },
            (Err(error_whole), Err(error_part)) => error_whole == error_part,
            _ => false,
        },
{
}

} // verus!
