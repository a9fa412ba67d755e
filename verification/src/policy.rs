//! A single insurance policy and the two transitions of its life.

use vstd::prelude::*;
use soroban_sdk::Address;
use crate::error::RegistryError;

verus! {

/// Seconds in one day: a policy's duration is given in days and its end time
/// is kept in seconds.
pub const SECONDS_PER_DAY: u64 = 86_400;

/// The key under which the registry keeps a record.
#[derive(Clone, Copy, Debug, PartialEq, Eq, Structural)]
pub enum PolicyBook {
    /// The policy with the given id.
    Policy(u64),
}

impl PolicyBook {
    /// The id of the policy that the key names.
    pub open spec fn id(self) -> u64 {
        match self {
            PolicyBook::Policy(id) => id,
        }
    }

    /// The id of the policy that the key names.
    pub fn policy_id(&self) -> (id: u64)
        ensures
            id == self.id(),
    {
        match self {
            PolicyBook::Policy(id) => *id,
        }
    }
}

/// One insurance contract: created by an insurer, purchased at most once,
/// claimed at most once, never deleted.
#[derive(Debug)]
pub struct Policy {
    /// Assigned at creation, starting at 1.
    pub policy_id: u64,
    /// A short name, kept as given.
    pub title: soroban_sdk::String,
    /// What the policy covers, kept as given.
    pub description: soroban_sdk::String,
    /// Who created the policy.
    pub insurer: Address,
    /// Who purchased the policy; `None` until it is purchased.
    pub insured: Option<Address>,
    /// What the insured pays, in the smallest currency unit.
    pub premium: i128,
    /// What a claim pays, in the smallest currency unit.
    pub payout: i128,
    /// Ledger time of the purchase; 0 until then.
    pub start_time: u64,
    /// Ledger time from which the policy can no longer be purchased or claimed.
    pub end_time: u64,
    /// True from the purchase until the claim.
    pub is_active: bool,
    /// True from the claim on.
    pub is_claimed: bool,
}

impl Policy {
    /// The record of a policy that was created and not yet purchased.
    pub open spec fn unpurchased(
        policy_id: u64,
        title: soroban_sdk::String,
        description: soroban_sdk::String,
        insurer: Address,
        premium: i128,
        payout: i128,
        end_time: u64,
    ) -> Policy {
        Policy {
            policy_id,
            title,
            description,
            insurer,
            insured: None,
            premium,
            payout,
            start_time: 0,
            end_time,
            is_active: false,
            is_claimed: false,
        }
    }

    /// What holds of every record that the registry's operations produce.
    pub open spec fn well_formed(self) -> bool {
        &&& self.policy_id != 0
        &&& self.premium > 0
        &&& self.payout > 0
        &&& (self.insured is None <==> !self.is_active && !self.is_claimed)
        &&& (self.is_claimed ==> !self.is_active)
        &&& (self.insured is None ==> self.start_time == 0)
        &&& self.start_time < self.end_time
    }

    /// The record after `insured` purchased the policy at ledger time `now`.
    /// A policy that is active or has an insured cannot be purchased again
    /// (`InvalidState`); one whose end time has come cannot be purchased any
    /// more (`Expired`).
    pub open spec fn after_purchase(self, insured: Address, now: u64) -> Result<
        Policy,
        RegistryError,
    > {
        if self.is_active || self.insured is Some {
            Err(RegistryError::InvalidState)
        } else if now >= self.end_time {
            Err(RegistryError::Expired)
        } else {
            Ok(Policy { insured: Some(insured), start_time: now, is_active: true, ..self })
        }
    }

    /// The record after a claim was paid at ledger time `now`. Only an active,
    /// unclaimed policy can be claimed (`InvalidState`), and only before its
    /// end time (`Expired`).
    pub open spec fn after_claim(self, now: u64) -> Result<Policy, RegistryError> {
        if !self.is_active || self.is_claimed {
            Err(RegistryError::InvalidState)
        } else if now >= self.end_time {
            Err(RegistryError::Expired)
        } else {
            Ok(Policy { is_active: false, is_claimed: true, ..self })
        }
    }

    /// Marks the policy as purchased by `insured` at ledger time `now`.
    pub fn purchase(&mut self, insured: Address, now: u64) -> (result: Result<(), RegistryError>)
        ensures
            match old(self).after_purchase(insured, now) {
                Ok(policy) => result is Ok && *final(self) == policy,
                Err(error) => result == Err::<(), RegistryError>(error)
                    && *final(self) == *old(self),
            },
            old(self).well_formed() ==> final(self).well_formed(),
    {
        if self.is_active || self.insured.is_some() {
            return Err(RegistryError::InvalidState);
        }
        if now >= self.end_time {
            return Err(RegistryError::Expired);
        }
        self.insured = Some(insured);
        self.start_time = now;
        self.is_active = true;
        Ok(())
    }

    /// Marks the policy as claimed at ledger time `now`.
    pub fn claim(&mut self, now: u64) -> (result: Result<(), RegistryError>)
        ensures
            match old(self).after_claim(now) {
                Ok(policy) => result is Ok && *final(self) == policy,
                Err(error) => result == Err::<(), RegistryError>(error)
                    && *final(self) == *old(self),
            },
            old(self).well_formed() ==> final(self).well_formed(),
    {
        if !self.is_active || self.is_claimed {
            return Err(RegistryError::InvalidState);
        }
        if now >= self.end_time {
            return Err(RegistryError::Expired);
        }
        self.is_active = false;
        self.is_claimed = true;
        Ok(())
    }
}

impl Clone for Policy {
    /// A copy that is equal to the record field by field.
    fn clone(&self) -> (copy: Policy)
        ensures
            copy == *self,
    {
        let insured = match &self.insured {
            Some(address) => Some(address.clone()),
            None => None,
        };
        Policy {
            policy_id: self.policy_id,
            title: self.title.clone(),
            description: self.description.clone(),
            insurer: self.insurer.clone(),
            insured,
            premium: self.premium,
            payout: self.payout,
            start_time: self.start_time,
            end_time: self.end_time,
            is_active: self.is_active,
            is_claimed: self.is_claimed,
        }
    }
}

} // verus!
