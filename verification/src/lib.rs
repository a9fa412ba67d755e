//! A registry of parametric insurance policies.
//!
//! Insurers create policies, users purchase them by paying a premium, and a
//! claims authority files a claim that triggers the payout. The registry keeps
//! every policy record together with three aggregate counters, and each
//! operation either commits completely or leaves the registry untouched.
//!
//! Identities and texts are values of the Soroban SDK; the registry carries
//! them through without looking inside. Authentication, the ledger clock and
//! durable storage belong to the host: an operation is handed the outcome of
//! the authentication and the current ledger time as plain values, and what
//! it leaves behind is the registry value itself.
//!
//! - `registry`: the registry and its operations.
//! - `model`: the registry as a mathematical value, `RegistryState`, and what
//!   each call makes of it.
//! - `policy`, `stats`: one record and the counters, with their transitions.
//! - `error`: the reasons for which an operation is refused.
//! - `laws`: what holds of each transition, above all that it keeps the
//!   registry consistent.
//! - `history`: what holds over whole sequences of calls.
//! - `sdk`: the SDK's types, and what is taken on trust about them.

pub mod error;
pub mod history;
pub mod laws;
pub mod model;
pub mod policy;
pub mod registry;
pub mod sdk;
pub mod stats;

pub use error::RegistryError;
pub use model::{Call, RegistryState};
pub use policy::{Policy, PolicyBook, SECONDS_PER_DAY};
pub use registry::InsurancePolicyContract;
pub use stats::InsuranceStats;
