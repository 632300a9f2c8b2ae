//! What each entry point does, as functions on [`EnvView`]: when it refuses,
//! and what it leaves behind where it does not.
use crate::env::{EnvView, StorageView};
use crate::types::{
    Action, Address, DisputeOpenedEventData, Escrow, EscrowAutoReleasedEventData,
    EscrowCreatedEventData, EscrowError, EscrowRefundedEventData, EscrowReleasedEventData,
    EscrowStatus, Event, Key, ReviewSubmittedEventData, Symbol, BPS_DENOMINATOR, DEFAULT_FEE_BPS,
    DEFAULT_AUTO_RELEASE_DELAY, MAX_FEE_BPS,
};
use vstd::prelude::*;

verus! {

/// What a call answers: the refusal, or else `value`.
pub open spec fn replies<T>(
    result: Result<T, EscrowError>,
    refusal: Option<EscrowError>,
    value: T,
) -> bool {
    match refusal {
        Some(error) => result == Err::<T, EscrowError>(error),
        None => result == Ok::<T, EscrowError>(value),
    }
}

/// What a call answers and leaves behind: the refusal, with everything as it
/// was, or `value`, with the surroundings as in `done`.
pub open spec fn answers<T>(
    result: Result<T, EscrowError>,
    refusal: Option<EscrowError>,
    value: T,
    before: EnvView,
    after: EnvView,
    done: EnvView,
) -> bool {
    &&& replies(result, refusal, value)
    &&& refusal is Some ==> after == before
    &&& refusal is None ==> after == done
}

/// The first of two reasons to refuse.
pub open spec fn first(a: Option<EscrowError>, b: Option<EscrowError>) -> Option<EscrowError> {
    if a is Some {
        a
    } else {
        b
    }
}

/// Whether `x` is a value of the type of amounts.
pub open spec fn fits(x: int) -> bool {
    i128::MIN <= x <= i128::MAX
}

// ---------------------------------------------------------------------------
// Fees
// ---------------------------------------------------------------------------

/// The fee, in basis points, at a price in units of 10^-7: 5% below 0.10 and
/// where there is no price, 4% below 0.50, 3% below 1.00, and 2% from there on.
pub open spec fn fee_from_price(price: int) -> u32 {
    if price < 1_000_000 {
        500
    } else if price < 5_000_000 {
        400
    } else if price < 10_000_000 {
        300
    } else {
        200
    }
}

/// `bps` basis points of `amount`, rounded towards zero.
pub open spec fn share(amount: int, bps: int) -> int {
    if amount >= 0 {
        amount * bps / (BPS_DENOMINATOR as int)
    } else {
        -((-amount) * bps / (BPS_DENOMINATOR as int))
    }
}

impl EnvView {
    /// Whether the fee follows the price; it does unless that was switched off.
    pub open spec fn dynamic_fee_on(self) -> bool {
        self.storage.dynamic_fee_enabled != Some(false)
    }

    /// The price that was fetched earlier in this ledger.
    pub open spec fn cached_price(self) -> Option<i128> {
        let fetched_at = match self.storage.price_cache_time {
            Some(sequence) => sequence,
            None => 0,
        };
        if fetched_at == self.sequence {
            self.storage.price_cache
        } else {
            None
        }
    }

    /// The price that a fetch would give: the pool's, or 0 where there is no
    /// pool.
    pub open spec fn fetched_price(self) -> i128 {
        if self.storage.liquidity_pool is Some {
            7_500_000
        } else {
            0
        }
    }

    pub open spec fn price(self) -> i128 {
        match self.cached_price() {
            Some(price) => price,
            None => self.fetched_price(),
        }
    }

    /// The fee that a release pays now, in basis points.
    pub open spec fn current_fee(self) -> u32 {
        if self.dynamic_fee_on() {
            fee_from_price(self.price() as int)
        } else {
            match self.storage.fee_bps {
                Some(fee) => fee,
                None => DEFAULT_FEE_BPS,
            }
        }
    }

    /// After the fee was asked for: a price that had to be fetched is kept for
    /// the rest of the ledger.
    pub open spec fn fee_asked(self) -> EnvView {
        if self.dynamic_fee_on() && self.cached_price() is None {
            self.with_storage(
                StorageView {
                    price_cache: Some(self.fetched_price()),
                    price_cache_time: Some(self.sequence),
                    ..self.storage
                },
            ).logged(Action::Store(Key::PriceCache)).logged(Action::Store(Key::PriceCacheTime))
        } else {
            self
        }
    }
}

// ---------------------------------------------------------------------------
// Administration
// ---------------------------------------------------------------------------

impl EnvView {
    /// After the token at `token` was approved, or no longer is.
    pub open spec fn token_set(self, token: Address, approved: bool) -> EnvView {
        self.with_storage(
            StorageView {
                approved_tokens: self.storage.approved_tokens.insert(token, approved),
                ..self.storage
            },
        ).logged(Action::Store(Key::ApprovedToken(token))).logged(
            Action::ExtendTtl(Key::ApprovedToken(token)),
        )
    }

    /// After all of `tokens` were approved, one by one.
    pub open spec fn tokens_approved(self, tokens: Seq<Address>) -> EnvView
        decreases tokens.len(),
    {
        if tokens.len() == 0 {
            self
        } else {
            self.tokens_approved(tokens.drop_last()).token_set(tokens.last(), true)
        }
    }

    /// After an entry was written and its lifetime extended.
    pub open spec fn stored(self, key: Key) -> EnvView {
        self.logged(Action::Store(key)).logged(Action::ExtendTtl(key))
    }
}

pub open spec fn initialize_refusal(env: EnvView, fee_bps: u32) -> Option<EscrowError> {
    if env.storage.admin is Some {
        Some(EscrowError::AlreadyInitialized)
    } else if fee_bps > MAX_FEE_BPS {
        Some(EscrowError::FeeTooHigh)
    } else {
        None
    }
}

pub open spec fn initialized(
    env: EnvView,
    admin: Address,
    treasury: Address,
    fee_bps: u32,
    approved_tokens: Seq<Address>,
    auto_release_delay_secs: u64,
) -> EnvView {
    env.with_storage(
        StorageView {
            admin: Some(admin),
            treasury: Some(treasury),
            fee_bps: Some(fee_bps),
            escrow_count: Some(0),
            auto_release_delay: Some(
                if auto_release_delay_secs == 0 {
                    DEFAULT_AUTO_RELEASE_DELAY
                } else {
                    auto_release_delay_secs
                },
            ),
            ..env.storage
        },
    ).stored(Key::Admin).stored(Key::Treasury).stored(Key::FeeBps).stored(Key::EscrowCount).stored(
        Key::AutoReleaseDelay,
    ).tokens_approved(approved_tokens)
}

/// Why a call that is the administrator's is refused.
pub open spec fn admin_refusal(env: EnvView) -> Option<EscrowError> {
    match env.storage.admin {
        None => Some(EscrowError::NotInitialized),
        Some(admin) => if env.authorized(admin) {
            None
        } else {
            Some(EscrowError::AuthRequired(admin))
        },
    }
}

pub open spec fn update_fee_refusal(env: EnvView, new_fee_bps: u32) -> Option<EscrowError> {
    first(
        admin_refusal(env),
        if new_fee_bps > MAX_FEE_BPS {
            Some(EscrowError::FeeTooHigh)
        } else {
            None
        },
    )
}

pub open spec fn fee_updated(env: EnvView, new_fee_bps: u32) -> EnvView {
    env.logged(Action::ExtendTtl(Key::Admin)).with_storage(
        StorageView { fee_bps: Some(new_fee_bps), ..env.storage },
    ).stored(Key::FeeBps)
}

pub open spec fn treasury_updated(env: EnvView, new_treasury: Address) -> EnvView {
    env.logged(Action::ExtendTtl(Key::Admin)).with_storage(
        StorageView { treasury: Some(new_treasury), ..env.storage },
    ).stored(Key::Treasury)
}

pub open spec fn approved_token_set(env: EnvView, token: Address, approved: bool) -> EnvView {
    env.logged(Action::ExtendTtl(Key::Admin)).token_set(token, approved)
}

pub open spec fn liquidity_pool_set(env: EnvView, pool: Address) -> EnvView {
    env.with_storage(StorageView { liquidity_pool: Some(pool), ..env.storage }).logged(
        Action::Store(Key::LiquidityPool),
    )
}

pub open spec fn dynamic_fee_set(env: EnvView, enabled: bool) -> EnvView {
    env.with_storage(StorageView { dynamic_fee_enabled: Some(enabled), ..env.storage }).logged(
        Action::Store(Key::DynamicFeeEnabled),
    )
}

// ---------------------------------------------------------------------------
// Opening an escrow
// ---------------------------------------------------------------------------

pub open spec fn create_escrow_refusal(
    env: EnvView,
    learner: Address,
    amount: i128,
    session_id: Symbol,
    token: Address,
) -> Option<EscrowError> {
    if amount <= 0 {
        Some(EscrowError::InvalidAmount)
    } else if !env.token_approved(token) {
        Some(EscrowError::TokenNotApproved)
    } else if !env.authorized(learner) {
        Some(EscrowError::AuthRequired(learner))
    } else if env.balance(token, learner) < amount {
        Some(EscrowError::InsufficientBalance)
    } else if env.storage.auto_release_delay is None {
        Some(EscrowError::EntryMissing(Key::AutoReleaseDelay))
    } else if env.storage.sessions.contains_key(session_id) {
        Some(EscrowError::SessionExists)
    } else if env.escrow_count() == u64::MAX {
        Some(EscrowError::CounterOverflow)
    } else {
        None
    }
}

/// The time after the end of a session at which a new escrow releases itself,
/// once it is configured.
pub open spec fn release_delay(env: EnvView) -> u64 {
    env.storage.auto_release_delay->0
}

/// The id of the next escrow: ids count up from 1.
pub open spec fn next_id(env: EnvView) -> u64 {
    (env.escrow_count() + 1) as u64
}

pub open spec fn new_escrow(
    env: EnvView,
    mentor: Address,
    learner: Address,
    amount: i128,
    session_id: Symbol,
    token: Address,
    session_end_time: u64,
) -> Escrow {
    Escrow {
        id: next_id(env),
        mentor,
        learner,
        amount,
        session_id,
        status: EscrowStatus::Active,
        created_at: env.timestamp,
        token_address: token,
        platform_fee: 0,
        net_amount: 0,
        session_end_time,
        auto_release_delay: release_delay(env),
        dispute_reason: Symbol::blank(),
        resolved_at: 0,
    }
}

pub open spec fn escrow_created(
    env: EnvView,
    mentor: Address,
    learner: Address,
    amount: i128,
    session_id: Symbol,
    token: Address,
    session_end_time: u64,
) -> EnvView {
    let id = next_id(env);
    let escrow = new_escrow(env, mentor, learner, amount, session_id, token, session_end_time);
    env.with_storage(
        StorageView {
            sessions: env.storage.sessions.insert(session_id, true),
            escrow_count: Some(id),
            escrows: env.storage.escrows.insert(id, escrow),
            ..env.storage
        },
    ).logged(Action::ExtendTtl(Key::AutoReleaseDelay)).stored(Key::Session(session_id)).stored(
        Key::EscrowCount,
    ).logged(
        Action::Transfer { token, from: learner, to: env.contract_address, amount },
    ).stored(Key::Escrow(id)).logged(
        Action::Publish(
            Event::Created {
                id,
                data: EscrowCreatedEventData {
                    mentor,
                    learner,
                    amount,
                    session_id,
                    token_address: token,
                    session_end_time,
                },
            },
        ),
    )
}

// ---------------------------------------------------------------------------
// Paying out
// ---------------------------------------------------------------------------

impl EnvView {
    /// After the escrow under `id` was written.
    pub open spec fn escrow_stored(self, id: u64, escrow: Escrow) -> EnvView {
        self.with_storage(
            StorageView { escrows: self.storage.escrows.insert(id, escrow), ..self.storage },
        ).logged(Action::Store(Key::Escrow(id)))
    }

    /// After `amount` of the escrow's token left the contract for `to`.
    pub open spec fn paid(self, escrow: Escrow, to: Address, amount: i128) -> EnvView {
        self.logged(
            Action::Transfer {
                token: escrow.token_address,
                from: self.contract_address,
                to,
                amount,
            },
        )
    }
}

/// What the platform takes of `amount` that is released now.
pub open spec fn fee_due(env: EnvView, amount: i128) -> int {
    share(amount as int, env.current_fee() as int)
}

/// What the mentor gets of `amount` that is released now.
pub open spec fn net_due(env: EnvView, amount: i128) -> int {
    amount - fee_due(env, amount)
}

/// Why `amount` of an escrow cannot be released.
pub open spec fn payout_refusal(env: EnvView, escrow: Escrow, amount: i128) -> Option<EscrowError> {
    if !fits(amount * env.current_fee()) {
        Some(EscrowError::Overflow)
    } else if env.storage.treasury is None {
        Some(EscrowError::TreasuryNotFound)
    } else if !fits(escrow.platform_fee + fee_due(env, amount)) || !fits(
        escrow.net_amount + net_due(env, amount),
    ) {
        Some(EscrowError::Overflow)
    } else {
        None
    }
}

/// After the platform and the mentor got their parts of `amount`.
pub open spec fn paid_out(env: EnvView, escrow: Escrow, amount: i128) -> EnvView {
    let fee = fee_due(env, amount) as i128;
    let net = net_due(env, amount) as i128;
    let ready = env.fee_asked().logged(Action::ExtendTtl(Key::Treasury));
    if fee > 0 {
        ready.paid(escrow, env.storage.treasury->0, fee).paid(escrow, escrow.mentor, net)
    } else {
        ready.paid(escrow, escrow.mentor, net)
    }
}

/// An escrow of which `amount` more was released.
pub open spec fn drawn(env: EnvView, escrow: Escrow, amount: i128) -> Escrow {
    Escrow {
        amount: (escrow.amount - amount) as i128,
        platform_fee: (escrow.platform_fee + fee_due(env, amount)) as i128,
        net_amount: (escrow.net_amount + net_due(env, amount)) as i128,
        ..escrow
    }
}

/// An escrow of which all the rest was released.
pub open spec fn released_escrow(env: EnvView, escrow: Escrow) -> Escrow {
    Escrow { status: EscrowStatus::Released, ..drawn(env, escrow, escrow.amount) }
}

/// After the rest of `escrow` was released, and it was written under `id`.
pub open spec fn released(env: EnvView, escrow: Escrow, id: u64) -> EnvView {
    paid_out(env, escrow, escrow.amount).escrow_stored(id, released_escrow(env, escrow)).logged(
        Action::Publish(
            Event::Released {
                id: escrow.id,
                data: EscrowReleasedEventData {
                    mentor: escrow.mentor,
                    amount: escrow.amount,
                    net_amount: net_due(env, escrow.amount) as i128,
                    platform_fee: fee_due(env, escrow.amount) as i128,
                    token_address: escrow.token_address,
                },
            },
        ),
    )
}

// ---------------------------------------------------------------------------
// Releasing
// ---------------------------------------------------------------------------

/// Why the escrow under `id` cannot be worked on as an active one.
pub open spec fn active_refusal(env: EnvView, id: u64) -> Option<EscrowError> {
    if !env.storage.escrows.contains_key(id) {
        Some(EscrowError::EscrowNotFound)
    } else if env.storage.escrows[id].status != EscrowStatus::Active {
        Some(EscrowError::NotActive)
    } else {
        None
    }
}

/// Why `caller` cannot release: only the learner and the administrator can.
pub open spec fn releaser_refusal(
    env: EnvView,
    escrow: Escrow,
    caller: Address,
) -> Option<EscrowError> {
    if env.storage.admin is None {
        Some(EscrowError::AdminNotFound)
    } else if !env.authorized(caller) {
        Some(EscrowError::AuthRequired(caller))
    } else if caller != escrow.learner && Some(caller) != env.storage.admin {
        Some(EscrowError::CallerNotAuthorized)
    } else {
        None
    }
}

pub open spec fn release_funds_refusal(env: EnvView, caller: Address, id: u64) -> Option<
    EscrowError,
> {
    let escrow = env.storage.escrows[id];
    first(
        active_refusal(env, id),
        first(
            releaser_refusal(env, escrow, caller),
            payout_refusal(env, escrow, escrow.amount),
        ),
    )
}

pub open spec fn funds_released(env: EnvView, id: u64) -> EnvView {
    released(
        env.logged(Action::ExtendTtl(Key::Escrow(id))).logged(Action::ExtendTtl(Key::Admin)),
        env.storage.escrows[id],
        id,
    )
}

pub open spec fn release_partial_refusal(
    env: EnvView,
    caller: Address,
    id: u64,
    amount: i128,
) -> Option<EscrowError> {
    let escrow = env.storage.escrows[id];
    first(
        active_refusal(env, id),
        if amount <= 0 || amount > escrow.amount {
            Some(EscrowError::InvalidReleaseAmount)
        } else {
            first(
                releaser_refusal(env, escrow, caller),
                payout_refusal(env, escrow, amount),
            )
        },
    )
}

/// An escrow of which `amount` was released; with nothing left it is released.
pub open spec fn partly_released_escrow(env: EnvView, escrow: Escrow, amount: i128) -> Escrow {
    if amount == escrow.amount {
        Escrow { status: EscrowStatus::Released, ..drawn(env, escrow, amount) }
    } else {
        drawn(env, escrow, amount)
    }
}

pub open spec fn partly_released(env: EnvView, id: u64, amount: i128) -> EnvView {
    let escrow = env.storage.escrows[id];
    let left = partly_released_escrow(env, escrow, amount);
    paid_out(
        env.logged(Action::ExtendTtl(Key::Escrow(id))).logged(Action::ExtendTtl(Key::Admin)),
        escrow,
        amount,
    ).escrow_stored(id, left).logged(
        Action::Publish(
            Event::PartiallyReleased {
                id: escrow.id,
                mentor: escrow.mentor,
                amount,
                net_amount: net_due(env, amount) as i128,
                platform_fee: fee_due(env, amount) as i128,
                token_address: escrow.token_address,
                remaining: left.amount,
            },
        ),
    )
}

pub open spec fn admin_release_refusal(env: EnvView, id: u64) -> Option<EscrowError> {
    let escrow = env.storage.escrows[id];
    first(
        active_refusal(env, id),
        match env.storage.admin {
            None => Some(EscrowError::AdminNotFound),
            Some(admin) => if !env.authorized(admin) {
                Some(EscrowError::AuthRequired(admin))
            } else {
                payout_refusal(env, escrow, escrow.amount)
            },
        },
    )
}

pub open spec fn admin_released(env: EnvView, id: u64) -> EnvView {
    released(
        env.logged(Action::ExtendTtl(Key::Escrow(id))).logged(Action::ExtendTtl(Key::Admin)).logged(
            Action::Publish(Event::AdminReleased { id, time: env.timestamp }),
        ),
        env.storage.escrows[id],
        id,
    )
}

/// The time from which on an escrow releases itself.
pub open spec fn release_time(escrow: Escrow) -> int {
    escrow.session_end_time + escrow.auto_release_delay
}

pub open spec fn auto_release_refusal(env: EnvView, id: u64) -> Option<EscrowError> {
    let escrow = env.storage.escrows[id];
    first(
        active_refusal(env, id),
        if release_time(escrow) > u64::MAX {
            Some(EscrowError::TimestampOverflow)
        } else if env.timestamp < release_time(escrow) {
            Some(EscrowError::WindowNotElapsed)
        } else {
            payout_refusal(env, escrow, escrow.amount)
        },
    )
}

pub open spec fn auto_released(env: EnvView, id: u64) -> EnvView {
    released(
        env.logged(Action::ExtendTtl(Key::Escrow(id))).logged(
            Action::Publish(
                Event::AutoReleased {
                    id,
                    data: EscrowAutoReleasedEventData { time: env.timestamp },
                },
            ),
        ),
        env.storage.escrows[id],
        id,
    )
}

// ---------------------------------------------------------------------------
// Disputes, refunds and reviews
// ---------------------------------------------------------------------------

pub open spec fn dispute_refusal(env: EnvView, caller: Address, id: u64) -> Option<EscrowError> {
    let escrow = env.storage.escrows[id];
    first(
        active_refusal(env, id),
        if !env.authorized(caller) {
            Some(EscrowError::AuthRequired(caller))
        } else if caller != escrow.mentor && caller != escrow.learner {
            Some(EscrowError::CallerCannotDispute)
        } else {
            None
        },
    )
}

pub open spec fn disputed_escrow(escrow: Escrow, reason: Symbol) -> Escrow {
    Escrow { status: EscrowStatus::Disputed, dispute_reason: reason, ..escrow }
}

pub open spec fn disputed(env: EnvView, caller: Address, id: u64, reason: Symbol) -> EnvView {
    let escrow = env.storage.escrows[id];
    env.logged(Action::ExtendTtl(Key::Escrow(id))).escrow_stored(
        id,
        disputed_escrow(escrow, reason),
    ).logged(
        Action::Publish(
            Event::DisputeOpened {
                id,
                data: DisputeOpenedEventData {
                    caller,
                    reason,
                    token_address: escrow.token_address,
                },
            },
        ),
    )
}

pub open spec fn resolve_dispute_refusal(
    env: EnvView,
    id: u64,
    release_to_mentor: bool,
) -> Option<EscrowError> {
    let escrow = env.storage.escrows[id];
    first(
        admin_refusal(env),
        if !env.storage.escrows.contains_key(id) {
            Some(EscrowError::EscrowNotFound)
        } else if escrow.status != EscrowStatus::Disputed {
            Some(EscrowError::NotDisputed)
        } else if release_to_mentor {
            payout_refusal(env, escrow, escrow.amount)
        } else {
            None
        },
    )
}

/// A disputed escrow after it was settled: the rest of it was released, or it
/// went back to the learner and is booked as fee.
pub open spec fn resolved_escrow(env: EnvView, escrow: Escrow, release_to_mentor: bool) -> Escrow {
    let settled = if release_to_mentor {
        released_escrow(env, escrow)
    } else {
        Escrow { net_amount: 0, platform_fee: escrow.amount, ..escrow }
    };
    Escrow { status: EscrowStatus::Resolved, resolved_at: env.timestamp, ..settled }
}

pub open spec fn dispute_resolved(env: EnvView, id: u64, release_to_mentor: bool) -> EnvView {
    let escrow = env.storage.escrows[id];
    let settled = resolved_escrow(env, escrow, release_to_mentor);
    let ready = env.logged(Action::ExtendTtl(Key::Admin)).logged(
        Action::ExtendTtl(Key::Escrow(id)),
    );
    let paid = if release_to_mentor {
        released(ready, escrow, id)
    } else {
        ready.paid(escrow, escrow.learner, escrow.amount)
    };
    paid.escrow_stored(id, settled).logged(
        Action::Publish(
            Event::DisputeResolved {
                id,
                release_to_mentor,
                mentor_amount: settled.net_amount,
                learner_amount: settled.amount,
                token_address: escrow.token_address,
                time: env.timestamp,
            },
        ),
    )
}

/// Why the administrator cannot refund: the escrow has to be active or
/// disputed.
pub open spec fn refund_refusal(env: EnvView, id: u64) -> Option<EscrowError> {
    let status = env.storage.escrows[id].status;
    match env.storage.admin {
        None => Some(EscrowError::AdminNotFound),
        Some(admin) => if !env.authorized(admin) {
            Some(EscrowError::AuthRequired(admin))
        } else if !env.storage.escrows.contains_key(id) {
            Some(EscrowError::EscrowNotFound)
        } else if status != EscrowStatus::Active && status != EscrowStatus::Disputed {
            Some(EscrowError::CannotRefund)
        } else {
            None
        },
    }
}

pub open spec fn refunded_escrow(escrow: Escrow) -> Escrow {
    Escrow { status: EscrowStatus::Refunded, ..escrow }
}

pub open spec fn refunded(env: EnvView, id: u64) -> EnvView {
    let escrow = env.storage.escrows[id];
    env.logged(Action::ExtendTtl(Key::Admin)).logged(Action::ExtendTtl(Key::Escrow(id))).paid(
        escrow,
        escrow.learner,
        escrow.amount,
    ).escrow_stored(id, refunded_escrow(escrow)).logged(
        Action::Publish(
            Event::Refunded {
                id,
                data: EscrowRefundedEventData {
                    learner: escrow.learner,
                    amount: escrow.amount,
                    token_address: escrow.token_address,
                },
            },
        ),
    )
}

pub open spec fn submit_review_refusal(env: EnvView, caller: Address, id: u64) -> Option<
    EscrowError,
> {
    let escrow = env.storage.escrows[id];
    if !env.storage.escrows.contains_key(id) {
        Some(EscrowError::EscrowNotFound)
    } else if !env.authorized(caller) {
        Some(EscrowError::AuthRequired(caller))
    } else if caller != escrow.learner {
        Some(EscrowError::NotLearner)
    } else if escrow.status != EscrowStatus::Released {
        Some(EscrowError::NotReleased)
    } else {
        None
    }
}

pub open spec fn review_submitted(
    env: EnvView,
    caller: Address,
    id: u64,
    reason: Symbol,
) -> EnvView {
    env.logged(Action::ExtendTtl(Key::Escrow(id))).with_storage(
        StorageView { reviews: env.storage.reviews.insert(id, reason), ..env.storage },
    ).stored(Key::Review(id)).logged(
        Action::Publish(
            Event::ReviewSubmitted {
                id,
                data: ReviewSubmittedEventData {
                    caller,
                    reason,
                    mentor: env.storage.escrows[id].mentor,
                },
            },
        ),
    )
}

// ---------------------------------------------------------------------------
// Queries
// ---------------------------------------------------------------------------

pub open spec fn get_escrow_refusal(env: EnvView, id: u64) -> Option<EscrowError> {
    if env.storage.escrows.contains_key(id) {
        None
    } else {
        Some(EscrowError::EscrowNotFound)
    }
}

pub open spec fn get_escrow_count_refusal(env: EnvView) -> Option<EscrowError> {
    if env.storage.escrow_count is Some {
        None
    } else {
        Some(EscrowError::EntryMissing(Key::EscrowCount))
    }
}

pub open spec fn get_fee_bps_refusal(env: EnvView) -> Option<EscrowError> {
    if env.storage.fee_bps is Some {
        None
    } else {
        Some(EscrowError::EntryMissing(Key::FeeBps))
    }
}

pub open spec fn get_auto_release_delay_refusal(env: EnvView) -> Option<EscrowError> {
    if env.storage.auto_release_delay is Some {
        None
    } else {
        Some(EscrowError::EntryMissing(Key::AutoReleaseDelay))
    }
}

pub open spec fn get_treasury_refusal(env: EnvView) -> Option<EscrowError> {
    if env.storage.treasury is Some {
        None
    } else {
        Some(EscrowError::TreasuryNotSet)
    }
}

/// The escrows with ids 1 to `count` that are with `mentor`, by increasing id.
pub open spec fn escrows_of(escrows: Map<u64, Escrow>, mentor: Address, count: int) -> Seq<Escrow>
    decreases count,
{
    if count <= 0 {
        Seq::empty()
    } else {
        let before = escrows_of(escrows, mentor, count - 1);
        let id = count as u64;
        if escrows.contains_key(id) && escrows[id].mentor == mentor {
            before.push(escrows[id])
        } else {
            before
        }
    }
}

} // verus!
