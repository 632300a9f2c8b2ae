use escrow::{Action, Address, Env, EscrowContract, EscrowError, Key};

fn addr(tag: u8) -> Address {
    Address { strkey: [tag; 56] }
}

const CONTRACT: u8 = b'C';
const ADMIN: u8 = b'A';
const TREASURY: u8 = b'T';
const TOKEN: u8 = b'K';
const OTHER_TOKEN: u8 = b'L';
const POOL: u8 = b'P';

fn blank_env() -> Env {
    Env::new(addr(CONTRACT), 10, 1_000)
}

fn ready_env() -> Env {
    let mut env = blank_env();
    let tokens = vec![addr(TOKEN)];
    assert_eq!(
        EscrowContract::initialize(&mut env, addr(ADMIN), addr(TREASURY), 250, &tokens, 60),
        Ok(())
    );
    env.authorizers.push(addr(ADMIN));
    env.log.clear();
    env
}

#[test]
fn initialize_stores_the_settings() {
    let mut env = blank_env();
    let tokens = vec![addr(TOKEN), addr(OTHER_TOKEN)];
    let r = EscrowContract::initialize(&mut env, addr(ADMIN), addr(TREASURY), 1_000, &tokens, 0);
    assert_eq!(r, Ok(()));
    assert_eq!(env.storage.admin, Some(addr(ADMIN)));
    assert_eq!(
        env.log,
        vec![
            Action::Store(Key::Admin),
            Action::ExtendTtl(Key::Admin),
            Action::Store(Key::Treasury),
            Action::ExtendTtl(Key::Treasury),
            Action::Store(Key::FeeBps),
            Action::ExtendTtl(Key::FeeBps),
            Action::Store(Key::EscrowCount),
            Action::ExtendTtl(Key::EscrowCount),
            Action::Store(Key::AutoReleaseDelay),
            Action::ExtendTtl(Key::AutoReleaseDelay),
            Action::Store(Key::ApprovedToken(addr(TOKEN))),
            Action::ExtendTtl(Key::ApprovedToken(addr(TOKEN))),
            Action::Store(Key::ApprovedToken(addr(OTHER_TOKEN))),
            Action::ExtendTtl(Key::ApprovedToken(addr(OTHER_TOKEN))),
        ]
    );
    assert_eq!(EscrowContract::get_treasury(&mut env), Ok(addr(TREASURY)));
    assert_eq!(EscrowContract::get_fee_bps(&mut env), Ok(1_000));
    assert_eq!(EscrowContract::get_escrow_count(&mut env), Ok(0));
    assert_eq!(EscrowContract::get_auto_release_delay(&mut env), Ok(72 * 60 * 60));
    assert!(EscrowContract::is_token_approved(&env, addr(TOKEN)));
    assert!(EscrowContract::is_token_approved(&env, addr(OTHER_TOKEN)));
    assert!(!EscrowContract::is_token_approved(&env, addr(POOL)));
}

#[test]
fn initialize_works_once() {
    let mut env = ready_env();
    let none = vec![];
    let r = EscrowContract::initialize(&mut env, addr(POOL), addr(POOL), 0, &none, 0);
    assert_eq!(r, Err(EscrowError::AlreadyInitialized));
    assert_eq!(env.storage.admin, Some(addr(ADMIN)));
    assert!(env.log.is_empty());
}

#[test]
fn initialize_refuses_a_fee_above_the_maximum() {
    let mut env = blank_env();
    let none = vec![];
    let r = EscrowContract::initialize(&mut env, addr(ADMIN), addr(TREASURY), 1_001, &none, 0);
    assert_eq!(r, Err(EscrowError::FeeTooHigh));
    assert_eq!(env.storage.admin, None);
    assert!(env.log.is_empty());
}

#[test]
fn getters_before_the_set_up() {
    let mut env = blank_env();
    assert_eq!(
        EscrowContract::get_fee_bps(&mut env),
        Err(EscrowError::EntryMissing(Key::FeeBps))
    );
    assert_eq!(
        EscrowContract::get_escrow_count(&mut env),
        Err(EscrowError::EntryMissing(Key::EscrowCount))
    );
    assert_eq!(
        EscrowContract::get_auto_release_delay(&mut env),
        Err(EscrowError::EntryMissing(Key::AutoReleaseDelay))
    );
    assert_eq!(EscrowContract::get_treasury(&mut env), Err(EscrowError::TreasuryNotSet));
    assert_eq!(EscrowContract::get_escrow(&mut env, 1), Err(EscrowError::EscrowNotFound));
    assert!(env.log.is_empty());
    assert!(EscrowContract::get_escrows_by_mentor(&env, addr(ADMIN)).is_empty());
}

#[test]
fn update_fee_is_the_administrators() {
    let mut env = blank_env();
    assert_eq!(EscrowContract::update_fee(&mut env, 1), Err(EscrowError::NotInitialized));

    let mut env = ready_env();
    assert_eq!(EscrowContract::update_fee(&mut env, 1_001), Err(EscrowError::FeeTooHigh));
    assert_eq!(EscrowContract::update_fee(&mut env, 1_000), Ok(()));
    assert_eq!(
        env.log,
        vec![
            Action::ExtendTtl(Key::Admin),
            Action::Store(Key::FeeBps),
            Action::ExtendTtl(Key::FeeBps),
        ]
    );
    assert_eq!(EscrowContract::get_fee_bps(&mut env), Ok(1_000));

    env.authorizers.clear();
    env.authorizers.push(addr(POOL));
    assert_eq!(
        EscrowContract::update_fee(&mut env, 5),
        Err(EscrowError::AuthRequired(addr(ADMIN)))
    );
    assert_eq!(env.storage.fee_bps, Some(1_000));
}

#[test]
fn update_treasury_and_tokens() {
    let mut env = ready_env();
    assert_eq!(EscrowContract::update_treasury(&mut env, addr(POOL)), Ok(()));
    assert_eq!(EscrowContract::get_treasury(&mut env), Ok(addr(POOL)));
    assert_eq!(EscrowContract::set_approved_token(&mut env, addr(OTHER_TOKEN), true), Ok(()));
    assert!(EscrowContract::is_token_approved(&env, addr(OTHER_TOKEN)));
    assert_eq!(EscrowContract::set_approved_token(&mut env, addr(TOKEN), false), Ok(()));
    assert!(!EscrowContract::is_token_approved(&env, addr(TOKEN)));
    assert!(EscrowContract::is_token_approved(&env, addr(OTHER_TOKEN)));
}

#[test]
fn settings_need_the_administrator() {
    let mut env = blank_env();
    let uninitialized = Err(EscrowError::NotInitialized);
    assert_eq!(EscrowContract::update_treasury(&mut env, addr(POOL)), uninitialized);
    assert_eq!(EscrowContract::set_approved_token(&mut env, addr(TOKEN), true), uninitialized);
    assert_eq!(EscrowContract::set_liquidity_pool(&mut env, addr(POOL)), uninitialized);
    assert_eq!(EscrowContract::set_dynamic_fee_enabled(&mut env, false), uninitialized);

    let mut env = ready_env();
    env.authorizers.clear();
    let unsigned = Err(EscrowError::AuthRequired(addr(ADMIN)));
    assert_eq!(EscrowContract::update_treasury(&mut env, addr(POOL)), unsigned);
    assert_eq!(EscrowContract::set_approved_token(&mut env, addr(TOKEN), false), unsigned);
    assert_eq!(EscrowContract::set_liquidity_pool(&mut env, addr(POOL)), unsigned);
    assert_eq!(EscrowContract::set_dynamic_fee_enabled(&mut env, false), unsigned);
    assert!(env.log.is_empty());
    assert!(EscrowContract::is_token_approved(&env, addr(TOKEN)));
}

#[test]
fn fee_levels() {
    assert_eq!(EscrowContract::_calculate_fee_from_price(-1), 500);
    assert_eq!(EscrowContract::_calculate_fee_from_price(0), 500);
    assert_eq!(EscrowContract::_calculate_fee_from_price(1), 500);
    assert_eq!(EscrowContract::_calculate_fee_from_price(999_999), 500);
    assert_eq!(EscrowContract::_calculate_fee_from_price(1_000_000), 400);
    assert_eq!(EscrowContract::_calculate_fee_from_price(4_999_999), 400);
    assert_eq!(EscrowContract::_calculate_fee_from_price(5_000_000), 300);
    assert_eq!(EscrowContract::_calculate_fee_from_price(9_999_999), 300);
    assert_eq!(EscrowContract::_calculate_fee_from_price(10_000_000), 200);
    assert_eq!(EscrowContract::_calculate_fee_from_price(i128::MAX), 200);
}

#[test]
fn dynamic_fee_follows_the_pool() {
    let mut env = ready_env();
    assert_eq!(EscrowContract::get_dynamic_fee(&mut env), 500);
    assert_eq!(env.storage.price_cache, Some(0));
    assert_eq!(env.storage.price_cache_time, Some(10));
    assert_eq!(
        env.log,
        vec![Action::Store(Key::PriceCache), Action::Store(Key::PriceCacheTime)]
    );

    // the price stays for the rest of the ledger
    assert_eq!(EscrowContract::set_liquidity_pool(&mut env, addr(POOL)), Ok(()));
    assert_eq!(EscrowContract::get_dynamic_fee(&mut env), 500);
    assert_eq!(env.log.len(), 3);

    env.sequence = 11;
    assert_eq!(EscrowContract::get_dynamic_fee(&mut env), 300);
    assert_eq!(env.storage.price_cache, Some(7_500_000));
    assert_eq!(env.storage.price_cache_time, Some(11));
    assert_eq!(EscrowContract::get_dynamic_fee(&mut env), 300);
    assert_eq!(env.log.len(), 5);
}

#[test]
fn dynamic_fee_can_be_switched_off() {
    let mut env = blank_env();
    env.storage.dynamic_fee_enabled = Some(false);
    assert_eq!(EscrowContract::get_dynamic_fee(&mut env), 500);
    assert!(env.log.is_empty());

    let mut env = ready_env();
    assert_eq!(EscrowContract::set_dynamic_fee_enabled(&mut env, false), Ok(()));
    assert_eq!(env.log, vec![Action::Store(Key::DynamicFeeEnabled)]);
    assert_eq!(EscrowContract::get_dynamic_fee(&mut env), 250);
    assert_eq!(env.storage.price_cache, None);
    assert_eq!(EscrowContract::set_dynamic_fee_enabled(&mut env, true), Ok(()));
    assert_eq!(EscrowContract::get_dynamic_fee(&mut env), 500);
}

#[test]
fn ledger_zero_has_no_cached_price() {
    let mut env = Env::new(addr(CONTRACT), 0, 0);
    env.storage.liquidity_pool = Some(addr(POOL));
    assert_eq!(EscrowContract::get_dynamic_fee(&mut env), 300);
    assert_eq!(env.storage.price_cache_time, Some(0));
}

#[test]
fn getters_extend_what_they_read() {
    let mut env = ready_env();
    assert!(EscrowContract::get_fee_bps(&mut env).is_ok());
    assert_eq!(EscrowContract::get_escrow_count(&mut env), Ok(0));
    assert!(EscrowContract::get_auto_release_delay(&mut env).is_ok());
    assert_eq!(
        env.log,
        vec![
            Action::ExtendTtl(Key::FeeBps),
            Action::ExtendTtl(Key::EscrowCount),
            Action::ExtendTtl(Key::AutoReleaseDelay),
        ]
    );
}

/// The fee of a ledger is settled when it is first asked for.
#[test]
fn a_new_pool_counts_from_the_next_ledger_on() {
    let mut env = ready_env();
    env.authorizers.push(addr(ADMIN));
    assert_eq!(EscrowContract::get_dynamic_fee(&mut env), 500);
    assert_eq!(EscrowContract::set_liquidity_pool(&mut env, addr(POOL)), Ok(()));
    assert_eq!(EscrowContract::update_fee(&mut env, 7), Ok(()));
    assert_eq!(EscrowContract::get_dynamic_fee(&mut env), 500);
    env.sequence += 1;
    assert_eq!(EscrowContract::get_dynamic_fee(&mut env), 300);
}

/// Of several updates the last one that was accepted counts.
#[test]
fn the_last_accepted_fee_counts() {
    let mut env = ready_env();
    env.authorizers.push(addr(ADMIN));
    assert_eq!(EscrowContract::set_dynamic_fee_enabled(&mut env, false), Ok(()));
    assert_eq!(EscrowContract::update_fee(&mut env, 7), Ok(()));
    assert_eq!(EscrowContract::update_fee(&mut env, 9), Ok(()));
    assert_eq!(EscrowContract::update_fee(&mut env, 1_001), Err(EscrowError::FeeTooHigh));
    env.authorizers.clear();
    assert_eq!(
        EscrowContract::update_fee(&mut env, 11),
        Err(EscrowError::AuthRequired(addr(ADMIN)))
    );
    assert_eq!(EscrowContract::get_fee_bps(&mut env), Ok(9));
    assert_eq!(EscrowContract::get_dynamic_fee(&mut env), 9);
}
