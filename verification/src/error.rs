//! The ways in which a registry operation can fail.

use vstd::prelude::*;

verus! {

/// Why an operation was refused. A refused operation changes nothing.
#[derive(Clone, Copy, Debug, PartialEq, Eq, Structural)]
pub enum RegistryError {
    /// A premium, payout or duration was not positive.
    InvalidInput,
    /// The host did not confirm the identity the call was made for.
    Unauthorized,
    /// No policy is recorded under the given id.
    NotFound,
    /// The policy is in a state that forbids the operation.
    InvalidState,
    /// The ledger time has reached the policy's end time.
    Expired,
    /// A counter, a statistic or a timestamp would exceed its range.
    Overflow,
    /// A statistic would drop below zero.
    Underflow,
}

impl RegistryError {
    /// The text of `message`, one fixed sentence for each kind of failure.
    pub open spec fn message_text(self) -> Seq<char> {
        match self {
            RegistryError::InvalidInput => "premium, payout and duration must be positive"@,
            RegistryError::Unauthorized => "the caller is not authorized"@,
            RegistryError::NotFound => "no policy with this id"@,
            RegistryError::InvalidState => "the policy's state forbids this operation"@,
            RegistryError::Expired => "the policy has expired"@,
            RegistryError::Overflow => "a counter would overflow"@,
            RegistryError::Underflow => "a counter would underflow"@,
        }
    }

    /// A human-readable description of the failure.
    pub fn message(&self) -> (text: &'static str)
        ensures
            text@ == self.message_text(),
    {
        match self {
            RegistryError::InvalidInput => "premium, payout and duration must be positive",
            RegistryError::Unauthorized => "the caller is not authorized",
            RegistryError::NotFound => "no policy with this id",
            RegistryError::InvalidState => "the policy's state forbids this operation",
            RegistryError::Expired => "the policy has expired",
            RegistryError::Overflow => "a counter would overflow",
            RegistryError::Underflow => "a counter would underflow",
        }
    }
}

} // verus!
