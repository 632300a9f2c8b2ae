use escrow::table::{Table, TableKey};
use escrow::{
    Address, DisputeOpenedEventData, Env, Escrow, EscrowAutoReleasedEventData, EscrowContract,
    EscrowCreatedEventData, EscrowError, EscrowRefundedEventData, EscrowReleasedEventData,
    EscrowStatus, Event, Holding, Key, ReviewSubmittedEventData, Symbol,
};

fn addr(tag: u8) -> Address {
    Address { strkey: [tag; 56] }
}

fn sym(tag: u8) -> Symbol {
    Symbol { text: [tag; 32] }
}

#[test]
fn addresses_compare_by_every_character() {
    let a = addr(b'G');
    let mut b = a;
    assert!(a == b && a.same(&b));
    b.strkey[55] = b'H';
    assert!(a != b && !a.same(&b));
    b = a;
    b.strkey[0] = b'C';
    assert!(a != b);
}

#[test]
fn symbols_compare_by_every_character() {
    let a = sym(b'x');
    let mut b = a;
    assert!(a == b && a.same(&b));
    b.text[31] = 0;
    assert!(a != b && !a.same(&b));
    assert_eq!(Symbol::empty(), Symbol { text: [0; 32] });
}

#[test]
fn tables_keep_the_last_value() {
    let mut table: Table<Address, u32> = Table::new();
    assert_eq!(table.get(addr(1)), None);
    table.set(addr(1), 10);
    table.set(addr(2), 20);
    table.set(addr(1), 30);
    assert_eq!(table.get(addr(1)), Some(30));
    assert_eq!(table.get(addr(2)), Some(20));
    assert_eq!(table.get(addr(3)), None);
}

#[test]
fn balances_are_per_token_and_holder() {
    let mut env = Env::new(addr(9), 1, 1);
    env.balances.set(Holding { token: addr(1), holder: addr(2) }, 7);
    assert_eq!(env.balance(addr(1), addr(2)), 7);
    assert_eq!(env.balance(addr(2), addr(1)), 0);
    assert_eq!(env.balance(addr(1), addr(1)), 0);
    assert!(!env.is_authorized(addr(2)));
    env.authorizers.push(addr(3));
    env.authorizers.push(addr(2));
    assert!(env.is_authorized(addr(2)));
}

#[test]
fn refusals_in_words() {
    let words = [
        (EscrowError::AlreadyInitialized, "Already initialized"),
        (EscrowError::FeeTooHigh, "Fee exceeds maximum (1000 bps)"),
        (EscrowError::NotInitialized, "Not initialized"),
        (EscrowError::AdminNotFound, "Admin not found"),
        (EscrowError::TreasuryNotFound, "Treasury not found"),
        (EscrowError::TreasuryNotSet, "Treasury not set"),
        (EscrowError::InvalidAmount, "Amount must be greater than zero"),
        (EscrowError::TokenNotApproved, "Token not approved"),
        (EscrowError::InsufficientBalance, "Insufficient token balance"),
        (EscrowError::SessionExists, "Session ID already exists"),
        (EscrowError::CounterOverflow, "Counter overflow"),
        (EscrowError::EscrowNotFound, "Escrow not found"),
        (EscrowError::EntryMissing(Key::FeeBps), "Entry not found"),
        (EscrowError::NotActive, "Escrow not active"),
        (EscrowError::NotDisputed, "Escrow is not in Disputed status"),
        (EscrowError::CannotRefund, "Cannot refund"),
        (EscrowError::InvalidReleaseAmount, "Invalid release amount"),
        (EscrowError::CallerNotAuthorized, "Caller not authorized"),
        (EscrowError::CallerCannotDispute, "Caller not authorized to dispute"),
        (EscrowError::NotLearner, "Only learner can submit review"),
        (EscrowError::NotReleased, "Can only review released escrows"),
        (EscrowError::Overflow, "Overflow"),
        (EscrowError::TimestampOverflow, "Timestamp overflow"),
        (EscrowError::WindowNotElapsed, "Auto-release window has not elapsed"),
    ];
    for (error, text) in words {
        assert_eq!(error.message(), text);
    }
}

#[test]
fn names_of_entries_and_topics() {
    assert_eq!(Key::Admin.name(), "ADMIN");
    assert_eq!(Key::Treasury.name(), "TREASURY");
    assert_eq!(Key::FeeBps.name(), "FEE_BPS");
    assert_eq!(Key::EscrowCount.name(), "ESC_CNT");
    assert_eq!(Key::AutoReleaseDelay.name(), "AR_DELAY");
    assert_eq!(Key::Session(sym(1)).name(), "SESSION");
    assert_eq!(Key::ApprovedToken(addr(1)).name(), "APRV_TOK");
    assert_eq!(Key::Escrow(1).name(), "ESCROW");
    assert_eq!(Key::Review(1).name(), "REVIEW");
    assert_eq!(Key::PriceCache.name(), "PRC_CSH");
    assert_eq!(Key::PriceCacheTime.name(), "PRC_TM");
    assert_eq!(Key::DynamicFeeEnabled.name(), "DYN_FEE");
    assert_eq!(Key::LiquidityPool.name(), "LIQ_POOL");
}

#[test]
fn topics_of_events() {
    let created = EscrowCreatedEventData {
        mentor: addr(1),
        learner: addr(2),
        amount: 3,
        session_id: sym(1),
        token_address: addr(3),
        session_end_time: 4,
    };
    let released = EscrowReleasedEventData {
        mentor: addr(1),
        amount: 3,
        net_amount: 2,
        platform_fee: 1,
        token_address: addr(3),
    };
    let partial = Event::PartiallyReleased {
        id: 1,
        mentor: addr(1),
        amount: 3,
        net_amount: 2,
        platform_fee: 1,
        token_address: addr(3),
        remaining: 9,
    };
    let opened =
        DisputeOpenedEventData { caller: addr(1), reason: sym(1), token_address: addr(3) };
    let resolved = Event::DisputeResolved {
        id: 1,
        release_to_mentor: false,
        mentor_amount: 0,
        learner_amount: 1,
        token_address: addr(3),
        time: 5,
    };
    let refunded =
        EscrowRefundedEventData { learner: addr(2), amount: 3, token_address: addr(3) };
    let review = ReviewSubmittedEventData { caller: addr(2), reason: sym(1), mentor: addr(1) };
    let auto = EscrowAutoReleasedEventData { time: 5 };
    assert_eq!(Event::Created { id: 1, data: created }.topic(), "Created");
    assert_eq!(Event::Released { id: 1, data: released }.topic(), "Released");
    assert_eq!(partial.topic(), "rel_part");
    assert_eq!(Event::AdminReleased { id: 1, time: 5 }.topic(), "adm_rel");
    assert_eq!(Event::AutoReleased { id: 1, data: auto }.topic(), "AutoReleased");
    assert_eq!(Event::DisputeOpened { id: 1, data: opened }.topic(), "DisputeOpened");
    assert_eq!(resolved.topic(), "disp_res");
    assert_eq!(Event::Refunded { id: 1, data: refunded }.topic(), "Refunded");
    assert_eq!(Event::ReviewSubmitted { id: 1, data: review }.topic(), "ReviewSubmitted");
}

/// Only the entries that a call names decide.
#[test]
fn other_entries_make_no_difference() {
    let escrow = Escrow {
        id: 4,
        mentor: addr(1),
        learner: addr(2),
        amount: 10_000,
        session_id: sym(b'a'),
        status: EscrowStatus::Active,
        created_at: 0,
        token_address: addr(3),
        platform_fee: 0,
        net_amount: 0,
        session_end_time: 0,
        auto_release_delay: 0,
        dispute_reason: Symbol::empty(),
        resolved_at: 0,
    };
    let mut alone = Env::new(addr(9), 1, 1);
    alone.storage.admin = Some(addr(5));
    alone.storage.treasury = Some(addr(6));
    alone.storage.escrows.insert(4, escrow);
    let mut among = alone.clone();
    among.storage.escrows.insert(1, Escrow { id: 1, ..escrow });
    among.storage.approved_tokens.set(addr(3), true);
    assert_eq!(EscrowContract::try_auto_release(&mut alone, 4), Ok(()));
    assert_eq!(EscrowContract::try_auto_release(&mut among, 4), Ok(()));
    assert_eq!(alone.log, among.log);
    assert_eq!(alone.escrow(4), among.escrow(4));
    assert_eq!(among.escrow(1), Some(Escrow { id: 1, ..escrow }));
}
