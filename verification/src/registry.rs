//! The registry: every policy record, the sequence counter that numbers them,
//! and the aggregate counters.

use vstd::prelude::*;
use std::collections::HashMap;
use soroban_sdk::Address;
use crate::error::RegistryError;
use crate::laws::{lemma_call_keeps_consistent, lemma_empty_is_consistent};
use crate::model::{Call, RegistryState};
use crate::policy::{Policy, PolicyBook, SECONDS_PER_DAY};
use crate::stats::InsuranceStats;

verus! {

broadcast use vstd::std_specs::hash::group_hash_axioms;

/// The policy registry: the records, the sequence counter and the aggregate
/// counters, held as one value that each operation is called on. Its view is
/// a `RegistryState`.
pub struct InsurancePolicyContract {
    count_policy: u64,
    stats: InsuranceStats,
    policies: HashMap<u64, Policy>,
}

impl View for InsurancePolicyContract {
    type V = RegistryState;

    closed spec fn view(&self) -> RegistryState {
        RegistryState {
            count_policy: self.count_policy,
            stats: self.stats,
            policies: self.policies@,
        }
    }
}

impl InsurancePolicyContract {
    /// A registry in which nothing has happened yet.
    pub fn new() -> (registry: InsurancePolicyContract)
        ensures
            registry@ == RegistryState::empty(),
            registry@.consistent(),
    {
        proof {
            lemma_empty_is_consistent();
        }
        InsurancePolicyContract {
            count_policy: 0,
            stats: InsuranceStats::new(),
            policies: HashMap::new(),
        }
    }

    /// A registry without records whose sequence counter and aggregate
    /// counters stand as given: the start of a registry that is rebuilt from
    /// what a store holds. `load_policy` then adds the records.
    pub fn restore(count_policy: u64, stats: InsuranceStats) -> (registry: InsurancePolicyContract)
        ensures
            registry@ == (RegistryState {
                count_policy,
                stats,
                policies: Map::<u64, Policy>::empty(),
            }),
    {
        InsurancePolicyContract { count_policy, stats, policies: HashMap::new() }
    }

    /// Puts a record into the registry under its own id, in place of any
    /// record that was kept under that id. Nothing else changes.
    pub fn load_policy(&mut self, policy: Policy)
        ensures
            final(self)@ == (RegistryState {
                policies: old(self)@.policies.insert(policy.policy_id, policy),
                ..old(self)@
            }),
    {
        self.policies.insert(policy.policy_id, policy);
    }

    /// The id given to the policy created last; 0 while there is none.
    pub fn policy_count(&self) -> (count_policy: u64)
        ensures
            count_policy == self@.count_policy,
    {
        self.count_policy
    }

    /// Creates a policy for `insurer` and returns its id.
    ///
    /// `now` is the ledger time, and `authorized` is what the host answered
    /// when it was asked whether `insurer` stands behind the call. What is
    /// created, and when the call is refused instead, is said by
    /// `RegistryState::after_create`; a refused call changes nothing.
    pub fn create_policy(
        &mut self,
        insurer: Address,
        title: soroban_sdk::String,
        description: soroban_sdk::String,
        premium: i128,
        payout: i128,
        duration_days: u64,
        now: u64,
        authorized: bool,
    ) -> (result: Result<u64, RegistryError>)
        ensures
            match old(self)@.after_create(
                insurer,
                title,
                description,
                premium,
                payout,
                duration_days,
                now,
                authorized,
            ) {
                Ok(state) => result == Ok::<u64, RegistryError>(state.count_policy)
                    && final(self)@ == state,
                Err(error) => result == Err::<u64, RegistryError>(error)
                    && final(self)@ == old(self)@,
            },
            old(self)@.consistent() ==> final(self)@.consistent(),
    {
        proof {
            if self@.consistent() {
                lemma_call_keeps_consistent(
                    self@,
                    Call::Create {
                        insurer,
                        title,
                        description,
                        premium,
                        payout,
                        duration_days,
                        now,
                        authorized,
                    },
                );
            }
        }
        if !authorized {
            return Err(RegistryError::Unauthorized);
        }
        if premium <= 0 || payout <= 0 || duration_days == 0 {
            return Err(RegistryError::InvalidInput);
        }
        let policy_id = match self.count_policy.checked_add(1) {
            Some(policy_id) => policy_id,
            None => { return Err(RegistryError::Overflow); },
        };
        let seconds = match duration_days.checked_mul(SECONDS_PER_DAY) {
            Some(seconds) => seconds,
            None => { return Err(RegistryError::Overflow); },
        };
        let end_time = match now.checked_add(seconds) {
            Some(end_time) => end_time,
            None => { return Err(RegistryError::Overflow); },
        };
        let stats = match self.stats.record_creation() {
            Ok(stats) => stats,
            Err(error) => { return Err(error); },
        };
        let policy = Policy {
            policy_id,
            title,
            description,
            insurer,
            insured: None,
            premium,
            payout,
            start_time: 0,
            end_time,
            is_active: false,
            is_claimed: false,
        };
        self.policies.insert(policy_id, policy);
        self.stats = stats;
        self.count_policy = policy_id;
        Ok(policy_id)
    }

    /// Records that `insured` purchased the policy, and returns the record as
    /// it stands then: its `premium` is what `insured` owes its `insurer`.
    ///
    /// `now` is the ledger time, and `authorized` is what the host answered
    /// when it was asked whether `insured` stands behind the call. What
    /// changes, and when the call is refused instead, is said by
    /// `RegistryState::after_purchase`; a refused call changes nothing.
    pub fn purchase_policy(
        &mut self,
        insured: Address,
        policy_id: u64,
        now: u64,
        authorized: bool,
    ) -> (result: Result<Policy, RegistryError>)
        ensures
            match old(self)@.after_purchase(insured, policy_id, now, authorized) {
                Ok(state) => result == Ok::<Policy, RegistryError>(state.policies[policy_id])
                    && final(self)@ == state,
                Err(error) => result == Err::<Policy, RegistryError>(error)
                    && final(self)@ == old(self)@,
            },
            old(self)@.consistent() ==> final(self)@.consistent(),
    {
        proof {
            if self@.consistent() {
                lemma_call_keeps_consistent(
                    self@,
                    Call::Purchase { insured, policy_id, now, authorized },
                );
            }
        }
        if !authorized {
            return Err(RegistryError::Unauthorized);
        }
        let mut policy = match self.record(PolicyBook::Policy(policy_id)) {
            Some(policy) => policy.clone(),
            None => { return Err(RegistryError::NotFound); },
        };
        match policy.purchase(insured, now) {
            Ok(()) => {},
            Err(error) => { return Err(error); },
        }
        let stats = match self.stats.record_purchase() {
            Ok(stats) => stats,
            Err(error) => { return Err(error); },
        };
        let record = policy.clone();
        self.policies.insert(policy_id, policy);
        self.stats = stats;
        Ok(record)
    }

    /// Records that a claim on the policy is paid, and returns the record as it
    /// stands then: its `payout` is what its `insurer` owes its `insured`.
    ///
    /// `now` is the ledger time, and `authorized` is what the host answered
    /// when it was asked whether the claims authority stands behind the call.
    /// What changes, and when the call is refused instead, is said by
    /// `RegistryState::after_claim`; a refused call changes nothing.
    pub fn file_claim(
        &mut self,
        policy_id: u64,
        now: u64,
        authorized: bool,
    ) -> (result: Result<Policy, RegistryError>)
        ensures
            match old(self)@.after_claim(policy_id, now, authorized) {
                Ok(state) => result == Ok::<Policy, RegistryError>(state.policies[policy_id])
                    && final(self)@ == state,
                Err(error) => result == Err::<Policy, RegistryError>(error)
                    && final(self)@ == old(self)@,
            },
            old(self)@.consistent() ==> final(self)@.consistent(),
    {
        proof {
            if self@.consistent() {
                lemma_call_keeps_consistent(self@, Call::Claim { policy_id, now, authorized });
            }
        }
        if !authorized {
            return Err(RegistryError::Unauthorized);
        }
        let mut policy = match self.record(PolicyBook::Policy(policy_id)) {
            Some(policy) => policy.clone(),
            None => { return Err(RegistryError::NotFound); },
        };
        match policy.claim(now) {
            Ok(()) => {},
            Err(error) => { return Err(error); },
        }
        let stats = match self.stats.record_claim() {
            Ok(stats) => stats,
            Err(error) => { return Err(error); },
        };
        let record = policy.clone();
        self.policies.insert(policy_id, policy);
        self.stats = stats;
        Ok(record)
    }

    /// The aggregate counters; all zero in a registry in which nothing has
    /// happened yet.
    pub fn view_insurance_stats(&self) -> (stats: InsuranceStats)
        ensures
            stats == self@.stats,
    {
        self.stats
    }

    /// The record kept under `key`, if there is one.
    pub fn record(&self, key: PolicyBook) -> (found: Option<&Policy>)
        ensures
            match found {
                Some(policy) => self@.record(key) == Some(*policy),
                None => self@.record(key) is None,
            },
    {
        let policy_id = key.policy_id();
        self.policies.get(&policy_id)
    }

    /// A copy of the policy with the given id; `NotFound` if there is none.
    pub fn view_policy_by_id(&self, policy_id: u64) -> (result: Result<Policy, RegistryError>)
        ensures
            result == match self@.record(PolicyBook::Policy(policy_id)) {
                Some(policy) => Ok::<Policy, RegistryError>(policy),
                None => Err::<Policy, RegistryError>(RegistryError::NotFound),
            },
    {
        match self.record(PolicyBook::Policy(policy_id)) {
            Some(policy) => Ok(policy.clone()),
            None => Err(RegistryError::NotFound),
        }
    }
}

} // verus!
