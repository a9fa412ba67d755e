//! The aggregate counters of the registry.

use vstd::prelude::*;
use crate::error::RegistryError;

verus! {

/// Counters over the whole policy population. There is one per registry.
#[derive(Clone, Copy, Debug, PartialEq, Eq, Structural)]
pub struct InsuranceStats {
    /// Policies that are currently active.
    pub active_policies: u64,
    /// Policies on which a claim has been paid.
    pub claimed_policies: u64,
    /// Policies ever created.
    pub total_policies: u64,
}

impl InsuranceStats {
    /// The counters of a registry in which nothing has happened yet.
    pub open spec fn zero() -> InsuranceStats {
        InsuranceStats { active_policies: 0, claimed_policies: 0, total_policies: 0 }
    }

    /// The counters after one more policy was created: `total_policies` grows
    /// by one, unless it is at its maximum already.
    pub open spec fn after_creation(self) -> Result<InsuranceStats, RegistryError> {
        if self.total_policies == u64::MAX {
            Err(RegistryError::Overflow)
        } else {
            Ok(InsuranceStats { total_policies: (self.total_policies + 1) as u64, ..self })
        }
    }

    /// The counters after a policy became active: `active_policies` grows by
    /// one, unless it is at its maximum already.
    pub open spec fn after_purchase(self) -> Result<InsuranceStats, RegistryError> {
        if self.active_policies == u64::MAX {
            Err(RegistryError::Overflow)
        } else {
            Ok(InsuranceStats { active_policies: (self.active_policies + 1) as u64, ..self })
        }
    }

    /// The counters after an active policy was claimed: one policy moves from
    /// `active_policies` to `claimed_policies`. With no active policy counted
    /// this is an `Underflow`; otherwise `claimed_policies` may be at its
    /// maximum, an `Overflow`.
    pub open spec fn after_claim(self) -> Result<InsuranceStats, RegistryError> {
        if self.active_policies == 0 {
            Err(RegistryError::Underflow)
        } else if self.claimed_policies == u64::MAX {
            Err(RegistryError::Overflow)
        } else {
            Ok(
                InsuranceStats {
                    active_policies: (self.active_policies - 1) as u64,
                    claimed_policies: (self.claimed_policies + 1) as u64,
                    ..self
                },
            )
        }
    }

    /// All counters at zero.
    pub fn new() -> (stats: InsuranceStats)
        ensures
            stats == InsuranceStats::zero(),
    {
        InsuranceStats { active_policies: 0, claimed_policies: 0, total_policies: 0 }
    }

    /// Counts one more created policy.
    pub fn record_creation(&self) -> (result: Result<InsuranceStats, RegistryError>)
        ensures
            result == self.after_creation(),
    {
        match self.total_policies.checked_add(1) {
            Some(total) => Ok(
                InsuranceStats {
                    active_policies: self.active_policies,
                    claimed_policies: self.claimed_policies,
                    total_policies: total,
                },
            ),
            None => Err(RegistryError::Overflow),
        }
    }

    /// Counts one more active policy.
    pub fn record_purchase(&self) -> (result: Result<InsuranceStats, RegistryError>)
        ensures
            result == self.after_purchase(),
    {
        match self.active_policies.checked_add(1) {
            Some(active) => Ok(
                InsuranceStats {
                    active_policies: active,
                    claimed_policies: self.claimed_policies,
                    total_policies: self.total_policies,
                },
            ),
            None => Err(RegistryError::Overflow),
        }
    }

    /// Moves one policy from the active count to the claimed count.
    pub fn record_claim(&self) -> (result: Result<InsuranceStats, RegistryError>)
        ensures
            result == self.after_claim(),
    {
        let active = match self.active_policies.checked_sub(1) {
            Some(active) => active,
            None => { return Err(RegistryError::Underflow); },
        };
        let claimed = match self.claimed_policies.checked_add(1) {
            Some(claimed) => claimed,
            None => { return Err(RegistryError::Overflow); },
        };
        Ok(
            InsuranceStats {
                active_policies: active,
                claimed_policies: claimed,
                total_policies: self.total_policies,
            },
        )
    }
}

impl Default for InsuranceStats {
    fn default() -> (stats: InsuranceStats)
        ensures
            stats == InsuranceStats::zero(),
    {
        InsuranceStats::new()
    }
}

} // verus!
