//! The registry as a mathematical value, and what each operation makes of it.

use vstd::prelude::*;
use soroban_sdk::Address;
use crate::error::RegistryError;
use crate::policy::{Policy, PolicyBook, SECONDS_PER_DAY};
use crate::stats::InsuranceStats;

verus! {

/// The registry as a mathematical value: what the operations read and change.
pub struct RegistryState {
    /// The id given to the policy created last; 0 while there is none.
    pub count_policy: u64,
    /// The aggregate counters.
    pub stats: InsuranceStats,
    /// The record of each policy, by its id.
    pub policies: Map<u64, Policy>,
}

impl RegistryState {
    /// The registry in which nothing has happened yet.
    pub open spec fn empty() -> RegistryState {
        RegistryState {
            count_policy: 0,
            stats: InsuranceStats::zero(),
            policies: Map::<u64, Policy>::empty(),
        }
    }

    /// The record kept under `key`, if there is one.
    pub open spec fn record(self, key: PolicyBook) -> Option<Policy> {
        if self.policies.contains_key(key.id()) {
            Some(self.policies[key.id()])
        } else {
            None
        }
    }

    /// The ids that have been given out when the sequence counter stands at
    /// `count_policy`: 1 up to the counter.
    pub open spec fn issued_ids(count_policy: u64) -> Set<u64> {
        Set::new(|id: u64| 1 <= id <= count_policy)
    }

    /// The ids of the policies that are active.
    pub open spec fn active_ids(self) -> Set<u64> {
        self.policies.dom().filter(|id: u64| self.policies[id].is_active)
    }

    /// The ids of the policies that have been claimed.
    pub open spec fn claimed_ids(self) -> Set<u64> {
        self.policies.dom().filter(|id: u64| self.policies[id].is_claimed)
    }

    /// The invariant of a registry that started empty: every id given out so
    /// far has a record, and no other; each record is well formed and kept
    /// under its own id; and the counters count what their names say.
    pub open spec fn consistent(self) -> bool {
        &&& self.policies.dom() =~= Self::issued_ids(self.count_policy)
        &&& forall|id: u64| #[trigger]
            self.policies.contains_key(id) ==> self.policies[id].policy_id == id
                && self.policies[id].well_formed()
        &&& self.stats.total_policies == self.count_policy
        &&& self.stats.active_policies == self.active_ids().len()
        &&& self.stats.claimed_policies == self.claimed_ids().len()
    }

    /// The registry after `create_policy`, or the reason why nothing is
    /// created.
    ///
    /// The caller must be authorized; premium, payout and duration must be
    /// positive (`InvalidInput`); the next id, the end time
    /// `now + duration_days * SECONDS_PER_DAY` and the new total must fit in
    /// 64 bits (`Overflow`). The new policy gets the id `count_policy + 1`.
    pub open spec fn after_create(
        self,
        insurer: Address,
        title: soroban_sdk::String,
        description: soroban_sdk::String,
        premium: i128,
        payout: i128,
        duration_days: u64,
        now: u64,
        authorized: bool,
    ) -> Result<RegistryState, RegistryError> {
        if !authorized {
            Err(RegistryError::Unauthorized)
        } else if premium <= 0 || payout <= 0 || duration_days == 0 {
            Err(RegistryError::InvalidInput)
        } else if self.count_policy == u64::MAX || now + duration_days * SECONDS_PER_DAY
            > u64::MAX {
            Err(RegistryError::Overflow)
        } else {
            match self.stats.after_creation() {
                Err(error) => Err(error),
                Ok(stats) => {
                    let policy_id = (self.count_policy + 1) as u64;
                    let end_time = (now + duration_days * SECONDS_PER_DAY) as u64;
                    let policy = Policy::unpurchased(
                        policy_id,
                        title,
                        description,
                        insurer,
                        premium,
                        payout,
                        end_time,
                    );
                    Ok(
                        RegistryState {
                            count_policy: policy_id,
                            stats,
                            policies: self.policies.insert(policy_id, policy),
                        },
                    )
                },
            }
        }
    }

    /// The registry after `purchase_policy`, or the reason why nothing is
    /// purchased: the caller is not authorized, the id is unknown
    /// (`NotFound`), the record refuses the purchase, or the active count is
    /// at its maximum.
    pub open spec fn after_purchase(
        self,
        insured: Address,
        policy_id: u64,
        now: u64,
        authorized: bool,
    ) -> Result<RegistryState, RegistryError> {
        if !authorized {
            Err(RegistryError::Unauthorized)
        } else if !self.policies.contains_key(policy_id) {
            Err(RegistryError::NotFound)
        } else {
            match self.policies[policy_id].after_purchase(insured, now) {
                Err(error) => Err(error),
                Ok(policy) => match self.stats.after_purchase() {
                    Err(error) => Err(error),
                    Ok(stats) => Ok(
                        RegistryState {
                            stats,
                            policies: self.policies.insert(policy_id, policy),
                            ..self
                        },
                    ),
                },
            }
        }
    }

    /// The registry after `file_claim`, or the reason why no claim is paid:
    /// the caller is not authorized, the id is unknown (`NotFound`), the
    /// record refuses the claim, or the counters cannot take it.
    pub open spec fn after_claim(
        self,
        policy_id: u64,
        now: u64,
        authorized: bool,
    ) -> Result<RegistryState, RegistryError> {
        if !authorized {
            Err(RegistryError::Unauthorized)
        } else if !self.policies.contains_key(policy_id) {
            Err(RegistryError::NotFound)
        } else {
            match self.policies[policy_id].after_claim(now) {
                Err(error) => Err(error),
                Ok(policy) => match self.stats.after_claim() {
                    Err(error) => Err(error),
                    Ok(stats) => Ok(
                        RegistryState {
                            stats,
                            policies: self.policies.insert(policy_id, policy),
                            ..self
                        },
                    ),
                },
            }
        }
    }
}

/// One call of a state-changing operation, with everything it is handed.
pub enum Call {
    /// A call of `create_policy`.
    Create {
        insurer: Address,
        title: soroban_sdk::String,
        description: soroban_sdk::String,
        premium: i128,
        payout: i128,
        duration_days: u64,
        now: u64,
        authorized: bool,
    },
    /// A call of `purchase_policy`.
    Purchase { insured: Address, policy_id: u64, now: u64, authorized: bool },
    /// A call of `file_claim`.
    Claim { policy_id: u64, now: u64, authorized: bool },
}

impl Call {
    /// The key of the one record that the call touches in `state`: the record
    /// that a creation adds, or the record of the policy that a purchase or a
    /// claim names.
    pub open spec fn key(self, state: RegistryState) -> PolicyBook {
        match self {
            Call::Create { .. } => if state.count_policy < u64::MAX {
                PolicyBook::Policy((state.count_policy + 1) as u64)
            } else {
                PolicyBook::Policy(u64::MAX)
            },
            Call::Purchase { policy_id, .. } => PolicyBook::Policy(policy_id),
            Call::Claim { policy_id, .. } => PolicyBook::Policy(policy_id),
        }
    }
}

impl RegistryState {
    /// What the call makes of the registry, or the reason why it is refused.
    pub open spec fn outcome(self, call: Call) -> Result<RegistryState, RegistryError> {
        match call {
            Call::Create {
                insurer,
                title,
                description,
                premium,
                payout,
                duration_days,
                now,
                authorized,
            } => self.after_create(
                insurer,
                title,
                description,
                premium,
                payout,
                duration_days,
                now,
                authorized,
            ),
            Call::Purchase { insured, policy_id, now, authorized } => self.after_purchase(
                insured,
                policy_id,
                now,
                authorized,
            ),
            Call::Claim { policy_id, now, authorized } => self.after_claim(
                policy_id,
                now,
                authorized,
            ),
        }
    }

    /// The registry after the call: changed as the call says if it succeeds,
    /// unchanged if it is refused.
    pub open spec fn step(self, call: Call) -> RegistryState {
        match self.outcome(call) {
            Ok(next) => next,
            Err(_) => self,
        }
    }
}

} // verus!
