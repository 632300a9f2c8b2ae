use escrow::{
    Action, Address, DisputeOpenedEventData, Env, Escrow, EscrowAutoReleasedEventData,
    EscrowContract, EscrowCreatedEventData, EscrowError, EscrowRefundedEventData,
    EscrowReleasedEventData, EscrowStatus, Event, Holding, Key, ReviewSubmittedEventData, Symbol,
};

fn addr(tag: u8) -> Address {
    Address { strkey: [tag; 56] }
}

fn sym(text: &str) -> Symbol {
    let mut bytes = [0u8; 32];
    bytes[..text.len()].copy_from_slice(text.as_bytes());
    Symbol { text: bytes }
}

const CONTRACT: u8 = b'C';
const ADMIN: u8 = b'A';
const TREASURY: u8 = b'T';
const TOKEN: u8 = b'K';
const MENTOR: u8 = b'M';
const LEARNER: u8 = b'L';
const STRANGER: u8 = b'S';

/// Set up by the administrator, with a learner who has a million tokens.
fn ready_env() -> Env {
    let mut env = Env::new(addr(CONTRACT), 10, 1_000);
    let tokens = vec![addr(TOKEN)];
    let r = EscrowContract::initialize(&mut env, addr(ADMIN), addr(TREASURY), 250, &tokens, 60);
    assert_eq!(r, Ok(()));
    env.balances.set(Holding { token: addr(TOKEN), holder: addr(LEARNER) }, 1_000_000);
    env.log.clear();
    env
}

fn signed_by(env: &mut Env, tags: &[u8]) {
    env.authorizers.clear();
    for tag in tags {
        env.authorizers.push(addr(*tag));
    }
}

fn open(env: &mut Env, session: &str, amount: i128) -> u64 {
    signed_by(env, &[LEARNER]);
    let id = EscrowContract::create_escrow(
        env,
        addr(MENTOR),
        addr(LEARNER),
        amount,
        sym(session),
        addr(TOKEN),
        2_000,
    )
    .unwrap();
    env.authorizers.clear();
    env.log.clear();
    id
}

fn read(env: &mut Env, id: u64) -> Escrow {
    let escrow = EscrowContract::get_escrow(env, id).unwrap();
    env.log.pop();
    escrow
}

fn transfer(from: u8, to: u8, amount: i128) -> Action {
    Action::Transfer { token: addr(TOKEN), from: addr(from), to: addr(to), amount }
}

#[test]
fn create_escrow_takes_the_deposit() {
    let mut env = ready_env();
    signed_by(&mut env, &[LEARNER]);
    let r = EscrowContract::create_escrow(
        &mut env,
        addr(MENTOR),
        addr(LEARNER),
        700,
        sym("s1"),
        addr(TOKEN),
        2_000,
    );
    assert_eq!(r, Ok(1));
    assert_eq!(
        env.log,
        vec![
            Action::ExtendTtl(Key::AutoReleaseDelay),
            Action::Store(Key::Session(sym("s1"))),
            Action::ExtendTtl(Key::Session(sym("s1"))),
            Action::Store(Key::EscrowCount),
            Action::ExtendTtl(Key::EscrowCount),
            transfer(LEARNER, CONTRACT, 700),
            Action::Store(Key::Escrow(1)),
            Action::ExtendTtl(Key::Escrow(1)),
            Action::Publish(Event::Created {
                id: 1,
                data: EscrowCreatedEventData {
                    mentor: addr(MENTOR),
                    learner: addr(LEARNER),
                    amount: 700,
                    session_id: sym("s1"),
                    token_address: addr(TOKEN),
                    session_end_time: 2_000,
                },
            }),
        ]
    );
    assert_eq!(
        read(&mut env, 1),
        Escrow {
            id: 1,
            mentor: addr(MENTOR),
            learner: addr(LEARNER),
            amount: 700,
            session_id: sym("s1"),
            status: EscrowStatus::Active,
            created_at: 1_000,
            token_address: addr(TOKEN),
            platform_fee: 0,
            net_amount: 0,
            session_end_time: 2_000,
            auto_release_delay: 60,
            dispute_reason: sym(""),
            resolved_at: 0,
        }
    );
    assert_eq!(EscrowContract::get_escrow_count(&mut env), Ok(1));
}

#[test]
fn create_escrow_refusals_in_their_order() {
    let mut env = ready_env();
    let mut create = |env: &mut Env, amount: i128, session: &str, token: u8| {
        EscrowContract::create_escrow(
            env,
            addr(MENTOR),
            addr(LEARNER),
            amount,
            sym(session),
            addr(token),
            2_000,
        )
    };
    assert_eq!(create(&mut env, 0, "s", STRANGER), Err(EscrowError::InvalidAmount));
    assert_eq!(create(&mut env, -5, "s", TOKEN), Err(EscrowError::InvalidAmount));
    assert_eq!(create(&mut env, 1, "s", STRANGER), Err(EscrowError::TokenNotApproved));
    assert_eq!(
        create(&mut env, 2_000_000, "s", TOKEN),
        Err(EscrowError::AuthRequired(addr(LEARNER)))
    );
    signed_by(&mut env, &[LEARNER]);
    assert_eq!(create(&mut env, 1_000_001, "s", TOKEN), Err(EscrowError::InsufficientBalance));
    assert!(env.log.is_empty());
    assert_eq!(create(&mut env, 1_000_000, "s", TOKEN), Ok(1));
    assert_eq!(create(&mut env, 1, "s", TOKEN), Err(EscrowError::SessionExists));
    assert_eq!(create(&mut env, 1, "t", TOKEN), Ok(2));
    env.storage.escrow_count = Some(u64::MAX);
    assert_eq!(create(&mut env, 1, "u", TOKEN), Err(EscrowError::CounterOverflow));
    env.storage.auto_release_delay = None;
    assert_eq!(create(&mut env, 1_000_001, "s", TOKEN), Err(EscrowError::InsufficientBalance));
    assert_eq!(
        create(&mut env, 1, "s", TOKEN),
        Err(EscrowError::EntryMissing(Key::AutoReleaseDelay))
    );
}

#[test]
fn release_funds_pays_mentor_and_treasury() {
    let mut env = ready_env();
    let id = open(&mut env, "s", 1_001);
    signed_by(&mut env, &[LEARNER]);
    assert_eq!(EscrowContract::release_funds(&mut env, addr(LEARNER), id), Ok(()));
    // 5% of 1001, rounded down
    assert_eq!(
        env.log,
        vec![
            Action::ExtendTtl(Key::Escrow(id)),
            Action::ExtendTtl(Key::Admin),
            Action::Store(Key::PriceCache),
            Action::Store(Key::PriceCacheTime),
            Action::ExtendTtl(Key::Treasury),
            transfer(CONTRACT, TREASURY, 50),
            transfer(CONTRACT, MENTOR, 951),
            Action::Store(Key::Escrow(id)),
            Action::Publish(Event::Released {
                id,
                data: EscrowReleasedEventData {
                    mentor: addr(MENTOR),
                    amount: 1_001,
                    net_amount: 951,
                    platform_fee: 50,
                    token_address: addr(TOKEN),
                },
            }),
        ]
    );
    let escrow = read(&mut env, id);
    assert_eq!(escrow.status, EscrowStatus::Released);
    assert_eq!((escrow.amount, escrow.platform_fee, escrow.net_amount), (0, 50, 951));
    assert_eq!(
        EscrowContract::release_funds(&mut env, addr(LEARNER), id),
        Err(EscrowError::NotActive)
    );
}

#[test]
fn release_without_a_fee_makes_one_transfer() {
    let mut env = ready_env();
    env.storage.dynamic_fee_enabled = Some(false);
    env.storage.fee_bps = Some(0);
    let id = open(&mut env, "s", 100);
    signed_by(&mut env, &[ADMIN]);
    assert_eq!(EscrowContract::release_funds(&mut env, addr(ADMIN), id), Ok(()));
    assert_eq!(env.log[2], Action::ExtendTtl(Key::Treasury));
    assert_eq!(env.log[3], transfer(CONTRACT, MENTOR, 100));
    assert_eq!(env.log[4], Action::Store(Key::Escrow(id)));
}

#[test]
fn release_funds_refusals() {
    let mut env = ready_env();
    let id = open(&mut env, "s", 100);
    let before = read(&mut env, id);
    assert_eq!(
        EscrowContract::release_funds(&mut env, addr(LEARNER), 9),
        Err(EscrowError::EscrowNotFound)
    );
    assert_eq!(
        EscrowContract::release_funds(&mut env, addr(LEARNER), id),
        Err(EscrowError::AuthRequired(addr(LEARNER)))
    );
    signed_by(&mut env, &[MENTOR, STRANGER]);
    assert_eq!(
        EscrowContract::release_funds(&mut env, addr(MENTOR), id),
        Err(EscrowError::CallerNotAuthorized)
    );
    env.storage.admin = None;
    assert_eq!(
        EscrowContract::release_funds(&mut env, addr(MENTOR), id),
        Err(EscrowError::AdminNotFound)
    );
    env.storage.admin = Some(addr(ADMIN));
    env.storage.treasury = None;
    signed_by(&mut env, &[LEARNER]);
    assert_eq!(
        EscrowContract::release_funds(&mut env, addr(LEARNER), id),
        Err(EscrowError::TreasuryNotFound)
    );
    assert!(env.log.is_empty());
    assert_eq!(env.storage.price_cache, None);
    assert_eq!(read(&mut env, id), before);
}

#[test]
fn huge_amounts_overflow_but_can_be_refunded() {
    let mut env = ready_env();
    env.balances.set(Holding { token: addr(TOKEN), holder: addr(LEARNER) }, i128::MAX);
    let id = open(&mut env, "s", i128::MAX);
    signed_by(&mut env, &[LEARNER, ADMIN]);
    assert_eq!(
        EscrowContract::release_funds(&mut env, addr(LEARNER), id),
        Err(EscrowError::Overflow)
    );
    assert!(env.log.is_empty());
    assert_eq!(EscrowContract::refund(&mut env, id), Ok(()));
    assert_eq!(env.log[2], transfer(CONTRACT, LEARNER, i128::MAX));
}

#[test]
fn release_partial_draws_down() {
    let mut env = ready_env();
    let id = open(&mut env, "s", 1_000);
    signed_by(&mut env, &[LEARNER]);
    assert_eq!(EscrowContract::release_partial(&mut env, addr(LEARNER), id, 400), Ok(()));
    let escrow = read(&mut env, id);
    assert_eq!(escrow.status, EscrowStatus::Active);
    assert_eq!((escrow.amount, escrow.platform_fee, escrow.net_amount), (600, 20, 380));
    assert_eq!(
        env.log,
        vec![
            Action::ExtendTtl(Key::Escrow(id)),
            Action::ExtendTtl(Key::Admin),
            Action::Store(Key::PriceCache),
            Action::Store(Key::PriceCacheTime),
            Action::ExtendTtl(Key::Treasury),
            transfer(CONTRACT, TREASURY, 20),
            transfer(CONTRACT, MENTOR, 380),
            Action::Store(Key::Escrow(id)),
            Action::Publish(Event::PartiallyReleased {
                id,
                mentor: addr(MENTOR),
                amount: 400,
                net_amount: 380,
                platform_fee: 20,
                token_address: addr(TOKEN),
                remaining: 600,
            }),
        ]
    );
    assert_eq!(EscrowContract::release_partial(&mut env, addr(LEARNER), id, 600), Ok(()));
    let escrow = read(&mut env, id);
    assert_eq!(escrow.status, EscrowStatus::Released);
    assert_eq!((escrow.amount, escrow.platform_fee, escrow.net_amount), (0, 50, 950));
}

#[test]
fn release_partial_refusals() {
    let mut env = ready_env();
    let id = open(&mut env, "s", 1_000);
    let invalid = Err(EscrowError::InvalidReleaseAmount);
    assert_eq!(EscrowContract::release_partial(&mut env, addr(STRANGER), id, 0), invalid);
    assert_eq!(EscrowContract::release_partial(&mut env, addr(STRANGER), id, -1), invalid);
    assert_eq!(EscrowContract::release_partial(&mut env, addr(STRANGER), id, 1_001), invalid);
    assert_eq!(
        EscrowContract::release_partial(&mut env, addr(STRANGER), id, 1),
        Err(EscrowError::AuthRequired(addr(STRANGER)))
    );
    signed_by(&mut env, &[STRANGER]);
    assert_eq!(
        EscrowContract::release_partial(&mut env, addr(STRANGER), id, 1),
        Err(EscrowError::CallerNotAuthorized)
    );
    assert_eq!(
        EscrowContract::release_partial(&mut env, addr(STRANGER), 7, 1),
        Err(EscrowError::EscrowNotFound)
    );
    assert!(env.log.is_empty());
}

#[test]
fn admin_release_announces_itself() {
    let mut env = ready_env();
    let id = open(&mut env, "s", 100);
    assert_eq!(
        EscrowContract::admin_release(&mut env, id),
        Err(EscrowError::AuthRequired(addr(ADMIN)))
    );
    assert_eq!(EscrowContract::admin_release(&mut env, 5), Err(EscrowError::EscrowNotFound));
    signed_by(&mut env, &[ADMIN]);
    assert_eq!(EscrowContract::admin_release(&mut env, id), Ok(()));
    assert_eq!(
        env.log[2],
        Action::Publish(Event::AdminReleased { id, time: 1_000 })
    );
    assert_eq!(env.log[6], transfer(CONTRACT, TREASURY, 5));
    assert_eq!(env.log[7], transfer(CONTRACT, MENTOR, 95));
    assert_eq!(EscrowContract::admin_release(&mut env, id), Err(EscrowError::NotActive));
}

#[test]
fn auto_release_waits_for_its_time() {
    let mut env = ready_env();
    let id = open(&mut env, "s", 100);
    env.timestamp = 2_059;
    assert_eq!(
        EscrowContract::try_auto_release(&mut env, id),
        Err(EscrowError::WindowNotElapsed)
    );
    env.timestamp = 2_060;
    assert_eq!(EscrowContract::try_auto_release(&mut env, id), Ok(()));
    assert_eq!(
        env.log[1],
        Action::Publish(Event::AutoReleased {
            id,
            data: EscrowAutoReleasedEventData { time: 2_060 },
        })
    );
    assert_eq!(read(&mut env, id).status, EscrowStatus::Released);
    assert_eq!(EscrowContract::try_auto_release(&mut env, id), Err(EscrowError::NotActive));
}

#[test]
fn auto_release_time_can_overflow() {
    let mut env = ready_env();
    let id = open(&mut env, "s", 100);
    let mut escrow = read(&mut env, id);
    escrow.session_end_time = u64::MAX - 59;
    env.storage.escrows.insert(id, escrow);
    env.timestamp = u64::MAX;
    assert_eq!(
        EscrowContract::try_auto_release(&mut env, id),
        Err(EscrowError::TimestampOverflow)
    );
}

#[test]
fn dispute_freezes_the_escrow() {
    let mut env = ready_env();
    let id = open(&mut env, "s", 100);
    assert_eq!(
        EscrowContract::dispute(&mut env, addr(MENTOR), id, sym("late")),
        Err(EscrowError::AuthRequired(addr(MENTOR)))
    );
    signed_by(&mut env, &[ADMIN, MENTOR]);
    assert_eq!(
        EscrowContract::dispute(&mut env, addr(ADMIN), id, sym("late")),
        Err(EscrowError::CallerCannotDispute)
    );
    assert_eq!(EscrowContract::dispute(&mut env, addr(MENTOR), id, sym("late")), Ok(()));
    assert_eq!(
        env.log,
        vec![
            Action::ExtendTtl(Key::Escrow(id)),
            Action::Store(Key::Escrow(id)),
            Action::Publish(Event::DisputeOpened {
                id,
                data: DisputeOpenedEventData {
                    caller: addr(MENTOR),
                    reason: sym("late"),
                    token_address: addr(TOKEN),
                },
            }),
        ]
    );
    let escrow = read(&mut env, id);
    assert_eq!(escrow.status, EscrowStatus::Disputed);
    assert_eq!(escrow.dispute_reason, sym("late"));
    env.timestamp = 9_000;
    assert_eq!(EscrowContract::try_auto_release(&mut env, id), Err(EscrowError::NotActive));
    assert_eq!(EscrowContract::admin_release(&mut env, id), Err(EscrowError::NotActive));
    assert_eq!(
        EscrowContract::dispute(&mut env, addr(MENTOR), id, sym("x")),
        Err(EscrowError::NotActive)
    );
}

fn disputed(env: &mut Env, session: &str, amount: i128) -> u64 {
    let id = open(env, session, amount);
    signed_by(env, &[LEARNER]);
    assert_eq!(EscrowContract::dispute(env, addr(LEARNER), id, sym("r")), Ok(()));
    signed_by(env, &[ADMIN]);
    env.log.clear();
    env.timestamp = 5_000;
    id
}

#[test]
fn dispute_resolved_for_the_mentor() {
    let mut env = ready_env();
    let id = disputed(&mut env, "s", 1_000);
    assert_eq!(EscrowContract::resolve_dispute(&mut env, id, true), Ok(()));
    let escrow = read(&mut env, id);
    assert_eq!(escrow.status, EscrowStatus::Resolved);
    assert_eq!((escrow.amount, escrow.platform_fee, escrow.net_amount), (0, 50, 950));
    assert_eq!(escrow.resolved_at, 5_000);
    assert_eq!(env.log[0], Action::ExtendTtl(Key::Admin));
    assert_eq!(env.log[1], Action::ExtendTtl(Key::Escrow(id)));
    assert_eq!(env.log[5], transfer(CONTRACT, TREASURY, 50));
    assert_eq!(env.log[6], transfer(CONTRACT, MENTOR, 950));
    assert_eq!(
        env.log[9..],
        [
            Action::Store(Key::Escrow(id)),
            Action::Publish(Event::DisputeResolved {
                id,
                release_to_mentor: true,
                mentor_amount: 950,
                learner_amount: 0,
                token_address: addr(TOKEN),
                time: 5_000,
            }),
        ]
    );
}

#[test]
fn dispute_resolved_for_the_learner() {
    let mut env = ready_env();
    let id = disputed(&mut env, "s", 1_000);
    assert_eq!(EscrowContract::resolve_dispute(&mut env, id, false), Ok(()));
    let escrow = read(&mut env, id);
    assert_eq!(escrow.status, EscrowStatus::Resolved);
    assert_eq!((escrow.amount, escrow.platform_fee, escrow.net_amount), (1_000, 1_000, 0));
    assert_eq!(
        env.log,
        vec![
            Action::ExtendTtl(Key::Admin),
            Action::ExtendTtl(Key::Escrow(id)),
            transfer(CONTRACT, LEARNER, 1_000),
            Action::Store(Key::Escrow(id)),
            Action::Publish(Event::DisputeResolved {
                id,
                release_to_mentor: false,
                mentor_amount: 0,
                learner_amount: 1_000,
                token_address: addr(TOKEN),
                time: 5_000,
            }),
        ]
    );
}

#[test]
fn resolve_dispute_refusals() {
    let mut env = ready_env();
    let active = open(&mut env, "s", 10);
    assert_eq!(
        EscrowContract::resolve_dispute(&mut env, active, true),
        Err(EscrowError::AuthRequired(addr(ADMIN)))
    );
    signed_by(&mut env, &[ADMIN]);
    assert_eq!(
        EscrowContract::resolve_dispute(&mut env, active, true),
        Err(EscrowError::NotDisputed)
    );
    assert_eq!(
        EscrowContract::resolve_dispute(&mut env, 77, true),
        Err(EscrowError::EscrowNotFound)
    );
    let mut blank = Env::new(addr(CONTRACT), 1, 1);
    assert_eq!(
        EscrowContract::resolve_dispute(&mut blank, 1, true),
        Err(EscrowError::NotInitialized)
    );
}

#[test]
fn refund_returns_what_is_left() {
    let mut env = ready_env();
    let id = open(&mut env, "s", 1_000);
    signed_by(&mut env, &[LEARNER]);
    assert_eq!(EscrowContract::release_partial(&mut env, addr(LEARNER), id, 400), Ok(()));
    env.log.clear();
    assert_eq!(
        EscrowContract::refund(&mut env, id),
        Err(EscrowError::AuthRequired(addr(ADMIN)))
    );
    signed_by(&mut env, &[ADMIN]);
    assert_eq!(EscrowContract::refund(&mut env, 8), Err(EscrowError::EscrowNotFound));
    assert_eq!(EscrowContract::refund(&mut env, id), Ok(()));
    assert_eq!(
        env.log,
        vec![
            Action::ExtendTtl(Key::Admin),
            Action::ExtendTtl(Key::Escrow(id)),
            transfer(CONTRACT, LEARNER, 600),
            Action::Store(Key::Escrow(id)),
            Action::Publish(Event::Refunded {
                id,
                data: EscrowRefundedEventData {
                    learner: addr(LEARNER),
                    amount: 600,
                    token_address: addr(TOKEN),
                },
            }),
        ]
    );
    let escrow = read(&mut env, id);
    assert_eq!(escrow.status, EscrowStatus::Refunded);
    assert_eq!((escrow.amount, escrow.platform_fee, escrow.net_amount), (600, 20, 380));
    assert_eq!(EscrowContract::refund(&mut env, id), Err(EscrowError::CannotRefund));
    let other = disputed(&mut env, "t", 5);
    assert_eq!(EscrowContract::refund(&mut env, other), Ok(()));
    let mut blank = Env::new(addr(CONTRACT), 1, 1);
    assert_eq!(EscrowContract::refund(&mut blank, 1), Err(EscrowError::AdminNotFound));
}

#[test]
fn settled_escrows_stay_settled() {
    let mut env = ready_env();
    let id = disputed(&mut env, "s", 1_000);
    assert_eq!(EscrowContract::resolve_dispute(&mut env, id, true), Ok(()));
    let settled = read(&mut env, id);
    signed_by(&mut env, &[ADMIN, LEARNER, MENTOR]);
    env.timestamp = u64::MAX;
    env.log.clear();
    assert!(EscrowContract::release_funds(&mut env, addr(LEARNER), id).is_err());
    assert!(EscrowContract::release_partial(&mut env, addr(LEARNER), id, 1).is_err());
    assert!(EscrowContract::admin_release(&mut env, id).is_err());
    assert!(EscrowContract::try_auto_release(&mut env, id).is_err());
    assert!(EscrowContract::dispute(&mut env, addr(LEARNER), id, sym("x")).is_err());
    assert!(EscrowContract::resolve_dispute(&mut env, id, false).is_err());
    assert!(EscrowContract::refund(&mut env, id).is_err());
    assert!(env.log.is_empty());
    assert_eq!(read(&mut env, id), settled);
}

#[test]
fn reviews_follow_a_release() {
    let mut env = ready_env();
    let id = open(&mut env, "s", 100);
    assert_eq!(
        EscrowContract::submit_review(&mut env, addr(LEARNER), 3, sym("good")),
        Err(EscrowError::EscrowNotFound)
    );
    assert_eq!(
        EscrowContract::submit_review(&mut env, addr(LEARNER), id, sym("good")),
        Err(EscrowError::AuthRequired(addr(LEARNER)))
    );
    signed_by(&mut env, &[LEARNER, MENTOR]);
    assert_eq!(
        EscrowContract::submit_review(&mut env, addr(MENTOR), id, sym("good")),
        Err(EscrowError::NotLearner)
    );
    assert_eq!(
        EscrowContract::submit_review(&mut env, addr(LEARNER), id, sym("good")),
        Err(EscrowError::NotReleased)
    );
    assert_eq!(EscrowContract::release_funds(&mut env, addr(LEARNER), id), Ok(()));
    env.log.clear();
    assert_eq!(EscrowContract::submit_review(&mut env, addr(LEARNER), id, sym("good")), Ok(()));
    assert_eq!(env.storage.reviews.get(&id), Some(&sym("good")));
    assert_eq!(
        env.log,
        vec![
            Action::ExtendTtl(Key::Escrow(id)),
            Action::Store(Key::Review(id)),
            Action::ExtendTtl(Key::Review(id)),
            Action::Publish(Event::ReviewSubmitted {
                id,
                data: ReviewSubmittedEventData {
                    caller: addr(LEARNER),
                    reason: sym("good"),
                    mentor: addr(MENTOR),
                },
            }),
        ]
    );
}

#[test]
fn escrows_are_listed_by_mentor() {
    let mut env = ready_env();
    let first = open(&mut env, "a", 1);
    signed_by(&mut env, &[LEARNER]);
    let other = EscrowContract::create_escrow(
        &mut env,
        addr(STRANGER),
        addr(LEARNER),
        2,
        sym("b"),
        addr(TOKEN),
        0,
    );
    assert_eq!(other, Ok(2));
    let third = open(&mut env, "c", 3);
    let ids: Vec<u64> = EscrowContract::get_escrows_by_mentor(&env, addr(MENTOR))
        .iter()
        .map(|escrow| escrow.id)
        .collect();
    assert_eq!(ids, vec![first, third]);
    assert_eq!(EscrowContract::get_escrows_by_mentor(&env, addr(STRANGER)).len(), 1);
    assert!(EscrowContract::get_escrows_by_mentor(&env, addr(ADMIN)).is_empty());
}

/// What the contract has and what it owes, over a longer history.
#[test]
fn deposits_are_covered_throughout() {
    let mut env = ready_env();
    let mut whole_log: Vec<Action> = vec![];
    let mut drain = |env: &mut Env| {
        whole_log.extend(env.log.drain(..));
        let mut held: i128 = 0;
        for action in &whole_log {
            if let Action::Transfer { from, to, amount, .. } = action {
                if *to == addr(CONTRACT) {
                    held += amount;
                }
                if *from == addr(CONTRACT) {
                    held -= amount;
                }
            }
        }
        let owed: i128 = env
            .storage
            .escrows
            .values()
            .filter(|e| e.status == EscrowStatus::Active || e.status == EscrowStatus::Disputed)
            .map(|e| e.amount)
            .sum();
        assert_eq!(held, owed);
    };
    let create = |env: &mut Env, session: &str, amount: i128| {
        signed_by(env, &[LEARNER, ADMIN]);
        EscrowContract::create_escrow(
            env,
            addr(MENTOR),
            addr(LEARNER),
            amount,
            sym(session),
            addr(TOKEN),
            2_000,
        )
        .unwrap()
    };
    let a = create(&mut env, "a", 1_003);
    drain(&mut env);
    let b = create(&mut env, "b", 999);
    let c = create(&mut env, "c", 50);
    drain(&mut env);
    assert_eq!(EscrowContract::release_partial(&mut env, addr(LEARNER), a, 333), Ok(()));
    drain(&mut env);
    assert_eq!(EscrowContract::dispute(&mut env, addr(LEARNER), b, sym("no")), Ok(()));
    drain(&mut env);
    assert_eq!(EscrowContract::resolve_dispute(&mut env, b, false), Ok(()));
    drain(&mut env);
    assert_eq!(EscrowContract::refund(&mut env, c), Ok(()));
    drain(&mut env);
    assert_eq!(EscrowContract::release_funds(&mut env, addr(LEARNER), a), Ok(()));
    drain(&mut env);
}

#[test]
fn highest_fee_is_a_tenth() {
    let mut env = ready_env();
    env.storage.dynamic_fee_enabled = Some(false);
    env.storage.fee_bps = Some(1_000);
    let id = open(&mut env, "s", 1_009);
    signed_by(&mut env, &[LEARNER]);
    assert_eq!(EscrowContract::release_funds(&mut env, addr(LEARNER), id), Ok(()));
    let escrow = read(&mut env, id);
    assert_eq!((escrow.amount, escrow.platform_fee, escrow.net_amount), (0, 100, 909));
}

#[test]
fn a_thousandth_of_the_range_can_be_released() {
    let mut env = ready_env();
    env.storage.dynamic_fee_enabled = Some(false);
    env.storage.fee_bps = Some(1_000);
    let amount = i128::MAX / 1_000;
    env.balances.set(Holding { token: addr(TOKEN), holder: addr(LEARNER) }, i128::MAX);
    let fits = open(&mut env, "s", amount);
    let too_much = open(&mut env, "t", amount + 1);
    signed_by(&mut env, &[LEARNER]);
    assert_eq!(EscrowContract::release_funds(&mut env, addr(LEARNER), fits), Ok(()));
    assert_eq!(
        EscrowContract::release_funds(&mut env, addr(LEARNER), too_much),
        Err(EscrowError::Overflow)
    );
}

#[test]
fn terms_survive_the_whole_life() {
    let mut env = ready_env();
    let id = open(&mut env, "s", 1_000);
    let opened = read(&mut env, id);
    signed_by(&mut env, &[LEARNER, ADMIN]);
    env.timestamp = 4_000;
    assert_eq!(EscrowContract::release_partial(&mut env, addr(LEARNER), id, 1), Ok(()));
    assert_eq!(EscrowContract::dispute(&mut env, addr(LEARNER), id, sym("r")), Ok(()));
    assert_eq!(EscrowContract::resolve_dispute(&mut env, id, true), Ok(()));
    let settled = read(&mut env, id);
    assert_eq!(
        Escrow {
            status: opened.status,
            amount: opened.amount,
            platform_fee: opened.platform_fee,
            net_amount: opened.net_amount,
            dispute_reason: opened.dispute_reason,
            resolved_at: opened.resolved_at,
            ..settled
        },
        opened
    );
    assert_eq!(settled.amount + settled.platform_fee + settled.net_amount, 1_000);
}

/// A deposit from the contract to itself brings nothing in.
#[test]
fn the_contract_as_its_own_learner() {
    let mut env = ready_env();
    env.balances.set(Holding { token: addr(TOKEN), holder: addr(CONTRACT) }, 10);
    signed_by(&mut env, &[CONTRACT]);
    let r = EscrowContract::create_escrow(
        &mut env,
        addr(MENTOR),
        addr(CONTRACT),
        10,
        sym("s"),
        addr(TOKEN),
        0,
    );
    assert_eq!(r, Ok(1));
    assert!(env.log.contains(&transfer(CONTRACT, CONTRACT, 10)));
}

/// 5% of 19 and of 21 is nothing and 1, and of 40 it is 2.
#[test]
fn two_releases_compared_with_one() {
    let mut parts = ready_env();
    let mut whole = ready_env();
    let id = open(&mut parts, "s", 100);
    assert_eq!(open(&mut whole, "s", 100), id);
    signed_by(&mut parts, &[LEARNER]);
    signed_by(&mut whole, &[LEARNER]);
    assert_eq!(EscrowContract::release_partial(&mut parts, addr(LEARNER), id, 19), Ok(()));
    assert_eq!(EscrowContract::release_partial(&mut parts, addr(LEARNER), id, 21), Ok(()));
    assert_eq!(EscrowContract::release_partial(&mut whole, addr(LEARNER), id, 40), Ok(()));
    let (parts, whole) = (read(&mut parts, id), read(&mut whole, id));
    assert_eq!((parts.amount, parts.platform_fee, parts.net_amount), (60, 1, 39));
    assert_eq!((whole.amount, whole.platform_fee, whole.net_amount), (60, 2, 38));
    assert_eq!(parts.status, whole.status);
}

#[test]
fn a_session_stays_used_after_its_escrow_is_settled() {
    let mut env = ready_env();
    let first = open(&mut env, "s", 100);
    signed_by(&mut env, &[ADMIN]);
    assert_eq!(EscrowContract::refund(&mut env, first), Ok(()));
    signed_by(&mut env, &[STRANGER]);
    env.balances.set(Holding { token: addr(TOKEN), holder: addr(STRANGER) }, 5);
    let again = EscrowContract::create_escrow(
        &mut env,
        addr(ADMIN),
        addr(STRANGER),
        5,
        sym("s"),
        addr(TOKEN),
        0,
    );
    assert_eq!(again, Err(EscrowError::SessionExists));
    assert_eq!(EscrowContract::get_escrow_count(&mut env), Ok(1));
    assert_eq!(open(&mut env, "t", 1), 2);
}

/// A dispute that is resolved for the learner books what went back as fee.
#[test]
fn a_resolution_for_the_learner_in_the_books() {
    let mut env = ready_env();
    let id = open(&mut env, "s", 1_000);
    signed_by(&mut env, &[LEARNER, ADMIN]);
    assert_eq!(EscrowContract::release_partial(&mut env, addr(LEARNER), id, 400), Ok(()));
    assert_eq!(EscrowContract::dispute(&mut env, addr(LEARNER), id, sym("r")), Ok(()));
    assert_eq!(read(&mut env, id).resolved_at, 0);
    assert_eq!(EscrowContract::resolve_dispute(&mut env, id, false), Ok(()));
    let escrow = read(&mut env, id);
    assert_eq!((escrow.amount, escrow.platform_fee, escrow.net_amount), (600, 600, 0));
    assert_eq!((escrow.status, escrow.resolved_at), (EscrowStatus::Resolved, 1_000));
}

fn transfers(env: &Env) -> Vec<Action> {
    env.log.iter().filter(|action| matches!(action, Action::Transfer { .. })).copied().collect()
}

/// A release moves the fee, where there is one, and what is the mentor's.
#[test]
fn a_release_moves_its_two_parts_only() {
    let mut env = ready_env();
    let (large, small) = (open(&mut env, "s", 1_019), open(&mut env, "t", 19));
    signed_by(&mut env, &[LEARNER]);
    assert_eq!(EscrowContract::release_funds(&mut env, addr(LEARNER), large), Ok(()));
    assert_eq!(
        transfers(&env),
        vec![transfer(CONTRACT, TREASURY, 50), transfer(CONTRACT, MENTOR, 969)]
    );
    env.log.clear();
    assert_eq!(EscrowContract::release_funds(&mut env, addr(LEARNER), small), Ok(()));
    assert_eq!(transfers(&env), vec![transfer(CONTRACT, MENTOR, 19)]);
}

/// What went in and out leaves what the open escrows have left.
#[test]
fn the_books_balance_over_a_history() {
    let mut env = ready_env();
    let mut held: i128 = 0;
    let mut log = vec![];
    signed_by(&mut env, &[LEARNER, ADMIN]);
    for (session, amount) in [("a", 100), ("b", 200), ("c", 300), ("d", 400)] {
        let r = EscrowContract::create_escrow(
            &mut env,
            addr(MENTOR),
            addr(LEARNER),
            amount,
            sym(session),
            addr(TOKEN),
            2_000,
        );
        assert!(r.is_ok());
    }
    assert_eq!(EscrowContract::release_partial(&mut env, addr(LEARNER), 1, 33), Ok(()));
    assert_eq!(EscrowContract::refund(&mut env, 2), Ok(()));
    assert_eq!(EscrowContract::dispute(&mut env, addr(LEARNER), 3, sym("r")), Ok(()));
    assert_eq!(EscrowContract::release_funds(&mut env, addr(LEARNER), 4), Ok(()));
    log.append(&mut env.log);
    for action in log {
        if let Action::Transfer { from, to, amount, .. } = action {
            if to == addr(CONTRACT) {
                held += amount;
            }
            if from == addr(CONTRACT) {
                held -= amount;
            }
        }
    }
    assert_eq!(held, 67 + 300);
    assert_eq!(read(&mut env, 1).amount + read(&mut env, 3).amount, held);
}
