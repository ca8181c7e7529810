use token_factory::amount::Amount;
use token_factory::factory::{Contract, FactoryError, EXTRA_BYTES};
use token_factory::metadata::{TokenArgs, TokenMetadata};
use token_factory::naming::is_valid_token_id;

fn args_with_symbol(symbol: &str) -> TokenArgs {
    TokenArgs {
        owner_id: "alice.near".to_string(),
        total_supply: 1_000_000,
        metadata: TokenMetadata {
            spec: "ft-1.0.0".to_string(),
            name: "Example".to_string(),
            symbol: symbol.to_string(),
            icon: None,
            reference: None,
            reference_hash: None,
            decimals: 24,
        },
    }
}

// Price 1 per byte, registration probe of 100 bytes, empty child binary.
fn fresh() -> Contract {
    Contract::new(1, 100, 0)
}

fn cost_of(payload_len: u128) -> u128 {
    EXTRA_BYTES as u128 + 2 * payload_len
}

#[test]
fn end_to_end_create_then_duplicate() {
    let mut c = fresh();
    assert_eq!(c.registration_cost(), 100);
    let payload = vec![7u8; 20];
    let cost = cost_of(20);
    assert_eq!(c.get_min_attached_balance(payload.len()), cost);
    assert_eq!(c.storage_deposit("bob.near", 100 + 2 * cost + 10), Ok(()));
    assert_eq!(c.credit_of("bob.near"), Some(2 * cost + 10));
    let r = c.create_token("bob.near", 0, "factory.near", args_with_symbol("Gold"), payload.clone());
    let created = r.ok().unwrap();
    assert_eq!(created.name, b"gold".to_vec());
    assert_eq!(created.account_id, b"gold.factory.near".to_vec());
    assert_eq!(created.required_balance, cost);
    assert_eq!(created.init_args, payload);
    assert_eq!(c.credit_of("bob.near"), Some(cost + 10));
    assert_eq!(c.get_number_of_tokens(), 1);
    let again = c.create_token("bob.near", 0, "factory.near", args_with_symbol("GOLD"), payload.clone());
    assert_eq!(again.err(), Some(FactoryError::NameAlreadyTaken));
    assert_eq!(c.credit_of("bob.near"), Some(cost + 10));
    assert_eq!(c.get_number_of_tokens(), 1);
}

#[test]
fn duplicate_without_enough_credit_reports_funds_first() {
    let mut c = fresh();
    let cost = cost_of(0);
    assert_eq!(c.storage_deposit("bob.near", 100 + cost + 10), Ok(()));
    assert!(c.create_token("bob.near", 0, "f.near", args_with_symbol("abc"), Vec::new()).is_ok());
    assert_eq!(c.credit_of("bob.near"), Some(10));
    let r = c.create_token("bob.near", 0, "f.near", args_with_symbol("abc"), Vec::new());
    assert_eq!(r.err(), Some(FactoryError::InsufficientFunds));
    assert_eq!(c.credit_of("bob.near"), Some(10));
    assert_eq!(c.get_number_of_tokens(), 1);
}

#[test]
fn duplicate_with_payment_rolls_back_the_payment() {
    let mut c = fresh();
    let cost = cost_of(0);
    assert_eq!(c.storage_deposit("bob.near", 100 + 2 * cost), Ok(()));
    assert!(c.create_token("bob.near", 0, "f.near", args_with_symbol("abc"), Vec::new()).is_ok());
    let r = c.create_token("bob.near", 500, "f.near", args_with_symbol("abc"), Vec::new());
    assert_eq!(r.err(), Some(FactoryError::NameAlreadyTaken));
    assert_eq!(c.credit_of("bob.near"), Some(cost));
    assert_eq!(c.get_number_of_tokens(), 1);
}

#[test]
fn short_first_deposit_registers_nothing() {
    let mut c = fresh();
    assert_eq!(c.storage_deposit("a.near", 99), Err(FactoryError::InsufficientRegistrationFunds));
    assert_eq!(c.credit_of("a.near"), None);
}

#[test]
fn first_deposit_credits_the_rest() {
    let mut c = fresh();
    assert_eq!(c.storage_deposit("a.near", 150), Ok(()));
    assert_eq!(c.credit_of("a.near"), Some(50));
    assert_eq!(c.storage_deposit("a.near", 30), Ok(()));
    assert_eq!(c.credit_of("a.near"), Some(80));
}

#[test]
fn exact_registration_cost_credits_zero() {
    let mut c = fresh();
    assert_eq!(c.storage_deposit("a.near", 100), Ok(()));
    assert_eq!(c.credit_of("a.near"), Some(0));
}

#[test]
fn deposit_saturates_at_the_largest_amount() {
    let mut c = fresh();
    assert_eq!(c.storage_deposit("a.near", u128::MAX), Ok(()));
    assert_eq!(c.storage_deposit("a.near", u128::MAX), Ok(()));
    assert_eq!(c.credit_of("a.near"), Some(u128::MAX));
}

#[test]
fn quote_for_unregistered_and_registered() {
    let mut c = fresh();
    let payload = vec![0u8; 5];
    let cost = cost_of(5);
    assert_eq!(c.get_required_deposit(&payload, "a.near"), 100 + cost);
    assert_eq!(c.storage_deposit("a.near", 100 + 30), Ok(()));
    assert_eq!(c.get_required_deposit(&payload, "a.near"), cost - 30);
    assert_eq!(c.storage_deposit("a.near", cost), Ok(()));
    assert_eq!(c.get_required_deposit(&payload, "a.near"), 0);
    assert_eq!(c.credit_of("a.near"), Some(cost + 30));
    assert_eq!(c.get_number_of_tokens(), 0);
}

#[test]
fn creation_cost_formula() {
    let c = Contract::new(2, 100, 100);
    assert_eq!(c.get_min_attached_balance(5), 2 * (100 + 10000 + 10));
    assert_eq!(c.registration_cost(), 200);
}

#[test]
fn creation_cost_saturates() {
    let c = Contract::new(u128::MAX, 2, 1);
    assert_eq!(c.get_min_attached_balance(0), u128::MAX);
    assert_eq!(c.registration_cost(), u128::MAX);
}

#[test]
fn invalid_symbol_fails_before_any_mutation() {
    let mut c = fresh();
    let r = c.create_token("a.near", 1000 + cost_of(0), "f.near", args_with_symbol("AB-1"), Vec::new());
    assert_eq!(r.err(), Some(FactoryError::InvalidName));
    assert_eq!(c.credit_of("a.near"), None);
    assert_eq!(c.get_number_of_tokens(), 0);
}

#[test]
fn payment_with_create_registers_first() {
    let mut c = fresh();
    let cost = cost_of(3);
    let r = c.create_token("a.near", 100 + cost + 7, "f.near", args_with_symbol("Xy1"), vec![1u8, 2, 3]);
    assert_eq!(r.ok().unwrap().account_id, b"xy1.f.near".to_vec());
    assert_eq!(c.credit_of("a.near"), Some(7));
}

#[test]
fn short_payment_with_create_fails() {
    let mut c = fresh();
    let r = c.create_token("a.near", 50, "f.near", args_with_symbol("abc"), Vec::new());
    assert_eq!(r.err(), Some(FactoryError::InsufficientRegistrationFunds));
    assert_eq!(c.credit_of("a.near"), None);
}

#[test]
fn bad_metadata_fails() {
    let mut c = fresh();
    assert_eq!(c.storage_deposit("a.near", 100 + cost_of(0)), Ok(()));
    let mut args = args_with_symbol("abc");
    args.metadata.spec = "ft-2.0.0".to_string();
    let r = c.create_token("a.near", 0, "f.near", args, Vec::new());
    assert_eq!(r.err(), Some(FactoryError::InvalidMetadata));
    let mut args = args_with_symbol("abc");
    args.metadata.reference = Some("https://example.com".to_string());
    let r = c.create_token("a.near", 0, "f.near", args, Vec::new());
    assert_eq!(r.err(), Some(FactoryError::InvalidMetadata));
    let mut args = args_with_symbol("abc");
    args.metadata.reference = Some("https://example.com".to_string());
    args.metadata.reference_hash = Some(vec![0u8; 31]);
    let r = c.create_token("a.near", 0, "f.near", args, Vec::new());
    assert_eq!(r.err(), Some(FactoryError::InvalidMetadata));
    let mut args = args_with_symbol("abc");
    args.metadata.reference = Some("https://example.com".to_string());
    args.metadata.reference_hash = Some(vec![0u8; 32]);
    assert!(c.create_token("a.near", 0, "f.near", args, Vec::new()).is_ok());
}

#[test]
fn illegal_child_identifier_fails() {
    let mut c = fresh();
    assert_eq!(c.storage_deposit("a.near", 100 + cost_of(0)), Ok(()));
    let r = c.create_token("a.near", 0, "f.near", args_with_symbol(""), Vec::new());
    assert_eq!(r.err(), Some(FactoryError::InvalidChildIdentifier));
    let r = c.create_token("a.near", 0, "", args_with_symbol("abc"), Vec::new());
    assert_eq!(r.err(), Some(FactoryError::InvalidChildIdentifier));
    let long_parent = "a".repeat(61);
    let r = c.create_token("a.near", 0, &long_parent, args_with_symbol("abc"), Vec::new());
    assert_eq!(r.err(), Some(FactoryError::InvalidChildIdentifier));
    let ok_parent = "a".repeat(60);
    assert_eq!(c.credit_of("a.near"), Some(cost_of(0)));
    assert!(c.create_token("a.near", 0, &ok_parent, args_with_symbol("abc"), Vec::new()).is_ok());
    assert_eq!(c.credit_of("a.near"), Some(0));
}

#[test]
fn unregistered_caller_fails() {
    let mut c = fresh();
    let r = c.create_token("a.near", 0, "f.near", args_with_symbol("abc"), Vec::new());
    assert_eq!(r.err(), Some(FactoryError::AccountNotRegistered));
    assert_eq!(c.get_number_of_tokens(), 0);
}

#[test]
fn insufficient_credit_fails() {
    let mut c = fresh();
    assert_eq!(c.storage_deposit("a.near", 100 + cost_of(0) - 1), Ok(()));
    let r = c.create_token("a.near", 0, "f.near", args_with_symbol("abc"), Vec::new());
    assert_eq!(r.err(), Some(FactoryError::InsufficientFunds));
    assert_eq!(c.credit_of("a.near"), Some(cost_of(0) - 1));
}

#[test]
fn token_id_validity() {
    assert!(is_valid_token_id("abc123"));
    assert!(is_valid_token_id(""));
    assert!(!is_valid_token_id("Abc"));
    assert!(!is_valid_token_id("ab-1"));
    assert!(!is_valid_token_id("a.b"));
}

#[test]
fn child_budget_subtracts_used_storage() {
    let c = Contract::new(3, 100, 0);
    assert_eq!(c.child_budget(1000, 100), 700);
    assert_eq!(c.child_budget(1000, 400), 0);
}

#[test]
fn amount_saturates() {
    let a = Amount::from_yocto(5);
    assert_eq!(a.saturating_sub(Amount::from_yocto(9)).as_yocto(), 0);
    assert_eq!(a.saturating_sub(Amount::from_yocto(2)).as_yocto(), 3);
    assert_eq!(Amount::from_yocto(u128::MAX).saturating_add(a).as_yocto(), u128::MAX);
    assert_eq!(Amount::from_yocto(u128::MAX / 2 + 1).saturating_mul(2).as_yocto(), u128::MAX);
    assert_eq!(a.saturating_mul(4).as_yocto(), 20);
}

#[test]
fn quoting_changes_nothing() {
    let mut c = fresh();
    assert_eq!(c.storage_deposit("a.near", 150), Ok(()));
    let payload = vec![0u8; 4];
    let first = c.get_required_deposit(&payload, "a.near");
    for _ in 0..5 {
        assert_eq!(c.get_required_deposit(&payload, "a.near"), first);
        assert_eq!(c.get_required_deposit(&payload, "b.near"), 100 + cost_of(4));
    }
    assert_eq!(c.credit_of("a.near"), Some(50));
    assert_eq!(c.credit_of("b.near"), None);
    assert_eq!(c.get_number_of_tokens(), 0);
}
