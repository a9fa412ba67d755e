//! Each way in which an operation is refused, and that a refusal changes
//! nothing.

use insurance_registry::{
    InsurancePolicyContract, InsuranceStats, Policy, PolicyBook, RegistryError,
};
use soroban_sdk::{Address, Env, String};

fn someone(env: &Env) -> Address {
    Address::from_str(env, "GA3D5KRYM6CB7OWQ6TWYRR3Z4T7GNZLKERYNZGGA5SOAOPIFY6YQHES5")
}

fn someone_else(env: &Env) -> Address {
    Address::from_str(env, "CA3D5KRYM6CB7OWQ6TWYRR3Z4T7GNZLKERYNZGGA5SOAOPIFY6YQGAXE")
}

fn create_with(
    registry: &mut InsurancePolicyContract,
    env: &Env,
    premium: i128,
    payout: i128,
    days: u64,
    now: u64,
) -> Result<u64, RegistryError> {
    registry.create_policy(
        someone(env),
        String::from_str(env, "title"),
        String::from_str(env, "description"),
        premium,
        payout,
        days,
        now,
        true,
    )
}

fn record(env: &Env, policy_id: u64, insured: Option<Address>, active: bool) -> Policy {
    Policy {
        policy_id,
        title: String::from_str(env, "title"),
        description: String::from_str(env, "description"),
        insurer: someone(env),
        insured,
        premium: 5,
        payout: 50,
        start_time: 0,
        end_time: 1_000,
        is_active: active,
        is_claimed: false,
    }
}

#[test]
fn amounts_and_duration_must_be_positive() {
    let env = Env::default();
    let mut registry = InsurancePolicyContract::new();
    for (premium, payout, days) in [
        (0i128, 1000i128, 30u64),
        (-1, 1000, 30),
        (i128::MIN, 1000, 30),
        (100, 0, 30),
        (100, -7, 30),
        (100, 1000, 0),
        (0, 0, 0),
    ] {
        assert_eq!(
            create_with(&mut registry, &env, premium, payout, days, 0),
            Err(RegistryError::InvalidInput)
        );
        assert_eq!(registry.policy_count(), 0);
        assert_eq!(registry.view_insurance_stats(), InsuranceStats::new());
    }
    assert_eq!(create_with(&mut registry, &env, 1, 1, 1, 0), Ok(1));
    assert_eq!(create_with(&mut registry, &env, i128::MAX, i128::MAX, 1, 0), Ok(2));
}

#[test]
fn authorization_comes_before_validation() {
    let env = Env::default();
    let mut registry = InsurancePolicyContract::new();
    let refused = registry.create_policy(
        someone(&env),
        String::from_str(&env, "title"),
        String::from_str(&env, "description"),
        0,
        0,
        0,
        0,
        false,
    );
    assert_eq!(refused, Err(RegistryError::Unauthorized));
}

#[test]
fn an_end_time_beyond_the_clock_is_an_overflow() {
    let env = Env::default();
    let mut registry = InsurancePolicyContract::new();
    // The duration in seconds does not fit.
    assert_eq!(
        create_with(&mut registry, &env, 100, 1000, u64::MAX, 0),
        Err(RegistryError::Overflow)
    );
    assert_eq!(
        create_with(&mut registry, &env, 100, 1000, u64::MAX / 86_400 + 1, 0),
        Err(RegistryError::Overflow)
    );
    // The duration fits, the end time does not.
    assert_eq!(
        create_with(&mut registry, &env, 100, 1000, 1, u64::MAX),
        Err(RegistryError::Overflow)
    );
    assert_eq!(
        create_with(&mut registry, &env, 100, 1000, 1, u64::MAX - 86_399),
        Err(RegistryError::Overflow)
    );
    assert_eq!(registry.policy_count(), 0);
    assert_eq!(registry.view_insurance_stats(), InsuranceStats::new());

    // The largest end time there is.
    assert_eq!(create_with(&mut registry, &env, 100, 1000, 1, u64::MAX - 86_400), Ok(1));
    assert_eq!(registry.view_policy_by_id(1).unwrap().end_time, u64::MAX);
    // The longest duration there is.
    let longest = u64::MAX / 86_400;
    assert_eq!(longest, 213_503_982_334_601);
    assert_eq!(create_with(&mut registry, &env, 100, 1000, longest, 15), Ok(2));
    assert_eq!(registry.view_policy_by_id(2).unwrap().end_time, 18_446_744_073_709_526_415);
    assert_eq!(create_with(&mut registry, &env, 100, 1000, longest, 25_215), Ok(3));
    assert_eq!(registry.view_policy_by_id(3).unwrap().end_time, u64::MAX);
    assert_eq!(
        create_with(&mut registry, &env, 100, 1000, longest, 25_216),
        Err(RegistryError::Overflow)
    );
    assert_eq!(registry.policy_count(), 3);
}

#[test]
fn a_full_sequence_counter_is_an_overflow() {
    let env = Env::default();
    let stats = InsuranceStats { active_policies: 0, claimed_policies: 0, total_policies: 3 };
    let mut registry = InsurancePolicyContract::restore(u64::MAX, stats);
    assert_eq!(create_with(&mut registry, &env, 100, 1000, 30, 0), Err(RegistryError::Overflow));
    assert_eq!(registry.policy_count(), u64::MAX);
    assert_eq!(registry.view_insurance_stats(), stats);

    let mut registry = InsurancePolicyContract::restore(u64::MAX - 1, stats);
    assert_eq!(create_with(&mut registry, &env, 100, 1000, 30, 0), Ok(u64::MAX));
    assert_eq!(registry.view_insurance_stats().total_policies, 4);
}

#[test]
fn a_full_total_is_an_overflow() {
    let env = Env::default();
    let stats =
        InsuranceStats { active_policies: 0, claimed_policies: 0, total_policies: u64::MAX };
    let mut registry = InsurancePolicyContract::restore(7, stats);
    assert_eq!(create_with(&mut registry, &env, 100, 1000, 30, 0), Err(RegistryError::Overflow));
    assert_eq!(registry.policy_count(), 7);
    assert_eq!(registry.view_insurance_stats(), stats);
    assert_eq!(registry.view_policy_by_id(8).err(), Some(RegistryError::NotFound));
}

#[test]
fn a_full_active_count_is_an_overflow() {
    let env = Env::default();
    let stats =
        InsuranceStats { active_policies: u64::MAX, claimed_policies: 0, total_policies: 1 };
    let mut registry = InsurancePolicyContract::restore(1, stats);
    registry.load_policy(record(&env, 1, None, false));
    assert_eq!(
        registry.purchase_policy(someone_else(&env), 1, 10, true).err(),
        Some(RegistryError::Overflow)
    );
    assert_eq!(registry.view_insurance_stats(), stats);
    let policy = registry.view_policy_by_id(1).unwrap();
    assert_eq!(policy.insured, None);
    assert!(!policy.is_active);
    assert_eq!(policy.start_time, 0);
}

#[test]
fn an_empty_active_count_is_an_underflow() {
    let env = Env::default();
    let stats = InsuranceStats { active_policies: 0, claimed_policies: 0, total_policies: 1 };
    let mut registry = InsurancePolicyContract::restore(1, stats);
    registry.load_policy(record(&env, 1, Some(someone_else(&env)), true));
    assert_eq!(registry.file_claim(1, 10, true).err(), Some(RegistryError::Underflow));
    assert_eq!(registry.view_insurance_stats(), stats);
    let policy = registry.view_policy_by_id(1).unwrap();
    assert!(policy.is_active);
    assert!(!policy.is_claimed);
}

#[test]
fn a_full_claimed_count_is_an_overflow() {
    let env = Env::default();
    let stats =
        InsuranceStats { active_policies: 1, claimed_policies: u64::MAX, total_policies: 1 };
    let mut registry = InsurancePolicyContract::restore(1, stats);
    registry.load_policy(record(&env, 1, Some(someone_else(&env)), true));
    assert_eq!(registry.file_claim(1, 10, true).err(), Some(RegistryError::Overflow));
    assert_eq!(registry.view_insurance_stats(), stats);
    assert!(registry.view_policy_by_id(1).unwrap().is_active);
}

#[test]
fn the_state_is_looked_at_before_the_counters() {
    let env = Env::default();
    let stats = InsuranceStats { active_policies: 0, claimed_policies: 0, total_policies: 1 };
    let mut registry = InsurancePolicyContract::restore(1, stats);
    registry.load_policy(record(&env, 1, None, false));
    assert_eq!(registry.file_claim(1, 10, true).err(), Some(RegistryError::InvalidState));
    assert_eq!(registry.file_claim(1, 1_000, true).err(), Some(RegistryError::InvalidState));
    registry.load_policy(record(&env, 1, Some(someone_else(&env)), true));
    assert_eq!(registry.file_claim(1, 1_000, true).err(), Some(RegistryError::Expired));
    assert_eq!(registry.file_claim(1, 999, true).err(), Some(RegistryError::Underflow));
}

#[test]
fn a_restored_registry_holds_what_it_was_given() {
    let env = Env::default();
    let stats = InsuranceStats { active_policies: 2, claimed_policies: 3, total_policies: 9 };
    let mut registry = InsurancePolicyContract::restore(9, stats);
    assert_eq!(registry.policy_count(), 9);
    assert_eq!(registry.view_insurance_stats(), stats);
    assert!(registry.record(PolicyBook::Policy(4)).is_none());

    registry.load_policy(record(&env, 4, Some(someone_else(&env)), true));
    assert_eq!(registry.policy_count(), 9);
    assert_eq!(registry.view_insurance_stats(), stats);
    let found = registry.record(PolicyBook::Policy(4)).unwrap();
    assert_eq!(found.policy_id, 4);
    assert_eq!(found.insured, Some(someone_else(&env)));
    assert!(registry.record(PolicyBook::Policy(5)).is_none());

    // A record loaded under an id that is taken replaces the one that was there.
    registry.load_policy(record(&env, 4, None, false));
    assert_eq!(registry.view_policy_by_id(4).unwrap().insured, None);
}

#[test]
fn a_registry_with_one_record_decides_as_the_whole_registry_does() {
    let env = Env::default();
    let mut whole = InsurancePolicyContract::new();
    for _ in 0..3 {
        create_with(&mut whole, &env, 100, 1000, 30, 0).unwrap();
    }
    whole.purchase_policy(someone_else(&env), 3, 40, true).unwrap();

    // A purchase of policy 2.
    let mut part =
        InsurancePolicyContract::restore(whole.policy_count(), whole.view_insurance_stats());
    part.load_policy(whole.view_policy_by_id(2).unwrap());
    let in_part = part.purchase_policy(someone_else(&env), 2, 50, true).unwrap();
    let in_whole = whole.purchase_policy(someone_else(&env), 2, 50, true).unwrap();
    assert_eq!(in_part.insured, in_whole.insured);
    assert_eq!(in_part.start_time, 50);
    assert_eq!(in_whole.start_time, 50);
    assert_eq!(part.view_insurance_stats(), whole.view_insurance_stats());
    assert_eq!(
        part.view_insurance_stats(),
        InsuranceStats { active_policies: 2, claimed_policies: 0, total_policies: 3 }
    );

    // A claim on policy 1, which nobody has purchased.
    let mut part =
        InsurancePolicyContract::restore(whole.policy_count(), whole.view_insurance_stats());
    part.load_policy(whole.view_policy_by_id(1).unwrap());
    assert_eq!(part.file_claim(1, 60, true).err(), Some(RegistryError::InvalidState));
    assert_eq!(whole.file_claim(1, 60, true).err(), Some(RegistryError::InvalidState));

    // A creation.
    let mut part =
        InsurancePolicyContract::restore(whole.policy_count(), whole.view_insurance_stats());
    assert_eq!(create_with(&mut part, &env, 7, 70, 1, 5), Ok(4));
    assert_eq!(create_with(&mut whole, &env, 7, 70, 1, 5), Ok(4));
    assert_eq!(part.view_insurance_stats(), whole.view_insurance_stats());
    assert_eq!(part.view_policy_by_id(4).unwrap().end_time, 86_405);
    assert_eq!(whole.view_policy_by_id(4).unwrap().end_time, 86_405);
    assert!(whole.view_policy_by_id(3).unwrap().is_active);
    assert_eq!(part.view_policy_by_id(3).err(), Some(RegistryError::NotFound));
}

#[test]
fn every_failure_has_its_message() {
    assert_eq!(
        RegistryError::InvalidInput.message(),
        "premium, payout and duration must be positive"
    );
    assert_eq!(RegistryError::Unauthorized.message(), "the caller is not authorized");
    assert_eq!(RegistryError::NotFound.message(), "no policy with this id");
    assert_eq!(
        RegistryError::InvalidState.message(),
        "the policy's state forbids this operation"
    );
    assert_eq!(RegistryError::Expired.message(), "the policy has expired");
    assert_eq!(RegistryError::Overflow.message(), "a counter would overflow");
    assert_eq!(RegistryError::Underflow.message(), "a counter would underflow");
}
