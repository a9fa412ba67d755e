//! What the registry relies on from the Soroban SDK.
//!
//! Policy records carry two kinds of SDK values: the `Address` of an insurer
//! or an insured, and the `String` of a title or a description. Both are
//! handles to objects that live in the host, so the registry treats them as
//! opaque: it moves them, clones them, and compares them for equality in its
//! contracts, nothing more. Nothing in this file is proved.

use vstd::prelude::*;

verus! {

/// `soroban_sdk::Address`, an identity issued by the host. Opaque.
#[verifier::external_type_specification]
#[verifier::external_body]
pub struct ExAddress(soroban_sdk::Address);

/// `soroban_sdk::String`, a text held by the host. Opaque.
#[verifier::external_type_specification]
#[verifier::external_body]
pub struct ExString(soroban_sdk::String);

/// `<soroban_sdk::Address as Clone>::clone` returns an address equal to the one
/// it is called on. The SDK derives this `Clone` for a struct of an
/// environment and an object handle, so the clone names the same host object
/// in the same environment.
pub assume_specification[ <soroban_sdk::Address as Clone>::clone ](
    address: &soroban_sdk::Address,
) -> (copy: soroban_sdk::Address)
    ensures
        copy == *address,
;

/// `<soroban_sdk::String as Clone>::clone` returns a text equal to the one it
/// is called on. The SDK derives this `Clone` for a struct of an environment
/// and an object handle, so the clone names the same host object in the same
/// environment.
pub assume_specification[ <soroban_sdk::String as Clone>::clone ](
    text: &soroban_sdk::String,
) -> (copy: soroban_sdk::String)
    ensures
        copy == *text,
;

} // verus!
