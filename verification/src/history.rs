//! What holds of the registry over whole histories of calls.

use vstd::prelude::*;
use soroban_sdk::Address;
use crate::error::RegistryError;
use crate::laws::{
    lemma_call_keeps_consistent, lemma_counters_are_bounded, lemma_empty_is_consistent,
};
use crate::model::{Call, RegistryState};

verus! {

impl RegistryState {
    /// The registry after the calls, made one after another.
    pub open spec fn run(self, calls: Seq<Call>) -> RegistryState
        decreases calls.len(),
    {
        if calls.len() == 0 {
            self
        } else {
            self.run(calls.drop_last()).step(calls.last())
        }
    }

    /// How many of the calls are creations that succeed.
    pub open spec fn creations(self, calls: Seq<Call>) -> nat
        decreases calls.len(),
    {
        if calls.len() == 0 {
            0
        } else {
            let before = self.run(calls.drop_last());
            let created: nat = if calls.last() is Create && before.outcome(calls.last()) is Ok {
                1
            } else {
                0
            };
            self.creations(calls.drop_last()) + created
        }
    }
}

/// Whatever is called on a consistent registry, and in whatever order, the
/// registry stays consistent.
pub proof fn lemma_run_keeps_consistent(state: RegistryState, calls: Seq<Call>)
    requires
        state.consistent(),
    ensures
        state.run(calls).consistent(),
    decreases calls.len(),
{
    if calls.len() > 0 {
        lemma_run_keeps_consistent(state, calls.drop_last());
        lemma_call_keeps_consistent(state.run(calls.drop_last()), calls.last());
    }
}

/// At every moment in the life of a registry that started empty, the registry
/// is consistent, and the active and the claimed policies together are no more
/// than the policies created.
pub proof fn lemma_counters_are_bounded_at_all_times(calls: Seq<Call>)
    ensures
        RegistryState::empty().run(calls).consistent(),
        ({
            let stats = RegistryState::empty().run(calls).stats;
            stats.active_policies + stats.claimed_policies <= stats.total_policies
        }),
{
    lemma_empty_is_consistent();
    lemma_run_keeps_consistent(RegistryState::empty(), calls);
    lemma_counters_are_bounded(RegistryState::empty().run(calls));
}

/// Each creation that succeeds moves the sequence counter and the total up by
/// one, and nothing else moves them.
pub proof fn lemma_creations_are_counted(state: RegistryState, calls: Seq<Call>)
    ensures
        state.run(calls).count_policy == state.count_policy + state.creations(calls),
        state.run(calls).stats.total_policies == state.stats.total_policies + state.creations(
            calls,
        ),
    decreases calls.len(),
{
    if calls.len() > 0 {
        lemma_creations_are_counted(state, calls.drop_last());
    }
}

/// In a registry that started empty, policies are numbered 1, 2, 3, ... in the
/// order of their creation: after any calls, a creation that succeeds returns
/// the number of creations that have succeeded, itself included. And
/// `total_policies` is the number of creations that have succeeded. (The id
/// that a creation returns is the sequence counter that it leaves.)
pub proof fn lemma_policies_are_numbered_in_order(calls: Seq<Call>, creation: Call)
    requires
        creation is Create,
    ensures
        RegistryState::empty().run(calls).stats.total_policies == RegistryState::empty().creations(
            calls,
        ),
        match RegistryState::empty().run(calls).outcome(creation) {
            Ok(next) => next.count_policy == RegistryState::empty().creations(calls) + 1,
            Err(_) => true,
        },
{
    lemma_creations_are_counted(RegistryState::empty(), calls);
}

/// Ids grow: of two creations that succeed, the later one returns the larger
/// id, whatever is called in between.
pub proof fn lemma_later_creations_get_larger_ids(
    state: RegistryState,
    first: Call,
    calls: Seq<Call>,
    second: Call,
)
    requires
        first is Create,
        second is Create,
        state.outcome(first) is Ok,
        state.step(first).run(calls).outcome(second) is Ok,
    ensures
        state.step(first).count_policy < state.step(first).run(calls).step(second).count_policy,
{
    lemma_creations_are_counted(state.step(first), calls);
}

/// A record in a consistent registry is there to stay: whatever is called, it
/// is not deleted, its id, texts, insurer, amounts and end time do not change,
/// an insured once set stays the insured, and a policy once claimed stays
/// claimed.
pub proof fn lemma_records_are_permanent(state: RegistryState, calls: Seq<Call>, policy_id: u64)
    requires
        state.consistent(),
        state.policies.contains_key(policy_id),
    ensures
        state.run(calls).policies.contains_key(policy_id),
        ({
            let before = state.policies[policy_id];
            let after = state.run(calls).policies[policy_id];
            &&& after.policy_id == before.policy_id
            &&& after.title == before.title
            &&& after.description == before.description
            &&& after.insurer == before.insurer
            &&& after.premium == before.premium
            &&& after.payout == before.payout
            &&& after.end_time == before.end_time
            &&& (before.insured is Some ==> after.insured == before.insured && after.start_time
                == before.start_time)
            &&& (before.is_claimed ==> after.is_claimed)
        }),
    decreases calls.len(),
{
    if calls.len() > 0 {
        lemma_records_are_permanent(state, calls.drop_last(), policy_id);
        lemma_run_keeps_consistent(state, calls.drop_last());
    }
}

/// A policy is purchased at most once: after a purchase has succeeded, and
/// whatever has been called since, an authorized purchase of the same policy
/// is refused with `InvalidState`.
pub proof fn lemma_purchased_policy_is_not_purchased_again(
    state: RegistryState,
    first: Address,
    policy_id: u64,
    now: u64,
    calls: Seq<Call>,
    second: Address,
    later: u64,
)
    requires
        state.consistent(),
        state.after_purchase(first, policy_id, now, true) is Ok,
    ensures
        state.after_purchase(first, policy_id, now, true)->Ok_0.run(calls).after_purchase(
            second,
            policy_id,
            later,
            true,
        ) == Err::<RegistryState, RegistryError>(RegistryError::InvalidState),
{
    let purchased = state.after_purchase(first, policy_id, now, true)->Ok_0;
    lemma_call_keeps_consistent(
        state,
        Call::Purchase { insured: first, policy_id, now, authorized: true },
    );
    lemma_records_are_permanent(purchased, calls, policy_id);
}

/// A policy is claimed at most once: after a claim has succeeded, and whatever
/// has been called since, an authorized claim on the same policy is refused
/// with `InvalidState`.
pub proof fn lemma_claimed_policy_is_not_claimed_again(
    state: RegistryState,
    policy_id: u64,
    now: u64,
    calls: Seq<Call>,
    later: u64,
)
    requires
        state.consistent(),
        state.after_claim(policy_id, now, true) is Ok,
    ensures
        state.after_claim(policy_id, now, true)->Ok_0.run(calls).after_claim(
            policy_id,
            later,
            true,
        ) == Err::<RegistryState, RegistryError>(RegistryError::InvalidState),
{
    let claimed = state.after_claim(policy_id, now, true)->Ok_0;
    lemma_call_keeps_consistent(state, Call::Claim { policy_id, now, authorized: true });
    lemma_records_are_permanent(claimed, calls, policy_id);
}

} // verus!
