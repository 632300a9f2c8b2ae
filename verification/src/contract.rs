//! The entry points of the escrow.
use crate::env::{Env, EnvView};
use crate::model::{
    active_refusal, admin_refusal, admin_release_refusal, admin_released, answers,
    approved_token_set, auto_release_refusal, auto_released, create_escrow_refusal,
    dispute_refusal, dispute_resolved, disputed, dynamic_fee_set, escrow_created, escrows_of,
    fee_due, fee_from_price, fee_updated, fits, funds_released, get_auto_release_delay_refusal,
    get_escrow_count_refusal, get_escrow_refusal, get_fee_bps_refusal, get_treasury_refusal,
    initialize_refusal, initialized, liquidity_pool_set, net_due, next_id, paid_out, partly_released, payout_refusal, refund_refusal, refunded, release_delay,
    release_funds_refusal, release_partial_refusal, released, released_escrow, releaser_refusal,
    replies, resolve_dispute_refusal, review_submitted, share, submit_review_refusal,
    treasury_updated, update_fee_refusal,
};
use crate::types::{
    Action, Address, DisputeOpenedEventData, Escrow, EscrowAutoReleasedEventData,
    EscrowCreatedEventData, EscrowError, EscrowRefundedEventData, EscrowReleasedEventData,
    EscrowStatus, Event, Key, ReviewSubmittedEventData, Symbol, BPS_DENOMINATOR, DEFAULT_FEE_BPS,
    DEFAULT_AUTO_RELEASE_DELAY, MAX_FEE_BPS,
};
use vstd::prelude::*;

verus! {

broadcast use vstd::std_specs::btree::group_btree_axioms;

/// The price, in units of 10^-7, that a liquidity pool quotes.
const POOL_PRICE: i128 = 7_500_000;

/// A released amount, and the parts into which it is split.
#[derive(Clone, Copy)]
struct Payout {
    amount: i128,
    treasury: Address,
    platform_fee: i128,
    net_amount: i128,
}

impl Payout {
    /// Whether the parts are those of the amount when it is released now.
    spec fn is_due(self, env: EnvView) -> bool {
        &&& env.storage.treasury == Some(self.treasury)
        &&& self.platform_fee == fee_due(env, self.amount)
        &&& self.net_amount == net_due(env, self.amount)
    }

    /// Whether the parts can be booked on `escrow`.
    spec fn can_be_booked(self, escrow: Escrow) -> bool {
        &&& fits(escrow.amount - self.amount)
        &&& fits(escrow.platform_fee + self.platform_fee)
        &&& fits(escrow.net_amount + self.net_amount)
    }
}

/// A share of an amount is an amount, and so is what it leaves, as long as the
/// product of which it is taken is in range. All of them have the sign of the
/// amount.
proof fn lemma_share_bounds(amount: int, bps: int)
    requires
        fits(amount),
        fits(amount * bps),
        0 <= bps,
    ensures
        fits(share(amount, bps)),
        fits(amount - share(amount, bps)),
        amount >= 0 ==> amount * bps >= 0 && share(amount, bps) >= 0,
        amount < 0 ==> amount * bps <= 0 && share(amount, bps) <= 0,
        (-amount) * bps == -(amount * bps),
{
    assert(amount >= 0 ==> amount * bps >= 0) by (nonlinear_arith)
        requires
            0 <= bps,
    ;
    assert((-amount) * bps == -(amount * bps)) by (nonlinear_arith);
    assert(amount < 0 ==> (-amount) * bps >= 0) by (nonlinear_arith)
        requires
            0 <= bps,
    ;
}

pub struct EscrowContract;

impl EscrowContract {
    // -----------------------------------------------------------------------
    // Fees
    // -----------------------------------------------------------------------

    /// The fee, in basis points, at a price.
    pub fn _calculate_fee_from_price(price: i128) -> (r: u32)
        ensures
            r == fee_from_price(price as int),
    {
        if price <= 0 {
            return DEFAULT_FEE_BPS;
        }
        if price < 1_000_000 {
            500
        } else if price < 5_000_000 {
            400
        } else if price < 10_000_000 {
            300
        } else {
            200
        }
    }

    /// The price that the pool quotes, or 0 where there is no pool.
    fn _fetch_mnt_usdc_price(env: &Env) -> (r: i128)
        ensures
            r == env@.fetched_price(),
    {
        match env.storage.liquidity_pool {
            Some(_) => POOL_PRICE,
            None => 0,
        }
    }

    /// Whether the fee follows the price.
    fn _dynamic_fee_on(env: &Env) -> (r: bool)
        ensures
            r == env@.dynamic_fee_on(),
    {
        match env.storage.dynamic_fee_enabled {
            Some(enabled) => enabled,
            None => true,
        }
    }

    /// The price that was fetched earlier in this ledger.
    fn _cached_price(env: &Env) -> (r: Option<i128>)
        ensures
            r == env@.cached_price(),
    {
        let fetched_at: u32 = match env.storage.price_cache_time {
            Some(sequence) => sequence,
            None => 0,
        };
        if fetched_at == env.sequence {
            env.storage.price_cache
        } else {
            None
        }
    }

    /// The fee that a release pays now, in basis points.
    fn _current_fee(env: &Env) -> (r: u32)
        ensures
            r == env@.current_fee(),
    {
        if !Self::_dynamic_fee_on(env) {
            return match env.storage.fee_bps {
                Some(fee) => fee,
                None => DEFAULT_FEE_BPS,
            };
        }
        match Self::_cached_price(env) {
            Some(price) => Self::_calculate_fee_from_price(price),
            None => Self::_calculate_fee_from_price(Self::_fetch_mnt_usdc_price(env)),
        }
    }

    /// The fee that a release pays now, in basis points: the configured one
    /// where the dynamic fee is off, and else the one at the price. A price is
    /// fetched once per ledger and kept for the rest of it.
    pub fn get_dynamic_fee(env: &mut Env) -> (r: u32)
        ensures
            r == old(env)@.current_fee(),
            final(env)@ == old(env)@.fee_asked(),
    {
        let fee = Self::_current_fee(env);
        if Self::_dynamic_fee_on(env) && Self::_cached_price(env).is_none() {
            env.storage.price_cache = Some(Self::_fetch_mnt_usdc_price(env));
            env.storage.price_cache_time = Some(env.sequence);
            env.record(Action::Store(Key::PriceCache));
            env.record(Action::Store(Key::PriceCacheTime));
        }
        fee
    }

    // -----------------------------------------------------------------------
    // Paying out
    // -----------------------------------------------------------------------

    /// Splits `amount` that is to be released from `escrow` now.
    fn _payout(env: &Env, escrow: &Escrow, amount: i128) -> (r: Result<Payout, EscrowError>)
        ensures
            payout_refusal(env@, *escrow, amount) matches Some(e) ==> r == Err::<
                Payout,
                EscrowError,
            >(e),
            payout_refusal(env@, *escrow, amount) is None ==> r is Ok && r->Ok_0.amount == amount
                && r->Ok_0.is_due(env@) && fits(escrow.platform_fee + r->Ok_0.platform_fee)
                && fits(escrow.net_amount + r->Ok_0.net_amount),
    {
        let fee_bps = Self::_current_fee(env);
        let product = match amount.checked_mul(fee_bps as i128) {
            Some(product) => product,
            None => return Err(EscrowError::Overflow),
        };
        proof {
            lemma_share_bounds(amount as int, fee_bps as int);
        }
        let platform_fee: i128 = match product.checked_div(BPS_DENOMINATOR) {
            Some(fee) => fee,
            None => return Err(EscrowError::Overflow),
        };
        assert(platform_fee == share(amount as int, fee_bps as int));
        let net_amount: i128 = amount - platform_fee;
        match env.storage.treasury {
            None => Err(EscrowError::TreasuryNotFound),
            Some(treasury) => {
                if escrow.platform_fee.checked_add(platform_fee).is_none()
                    || escrow.net_amount.checked_add(net_amount).is_none() {
                    Err(EscrowError::Overflow)
                } else {
                    Ok(Payout { amount, treasury, platform_fee, net_amount })
                }
            },
        }
    }

    /// Pays a part of `escrow` to the platform and to the mentor.
    fn _pay_out(env: &mut Env, escrow: &Escrow, payout: Payout)
        requires
            payout.is_due(old(env)@),
        ensures
            final(env)@ == paid_out(old(env)@, *escrow, payout.amount),
    {
        Self::get_dynamic_fee(env);
        env.record(Action::ExtendTtl(Key::Treasury));
        let from = env.contract_address;
        let token = escrow.token_address;
        if payout.platform_fee > 0 {
            env.record(
                Action::Transfer { token, from, to: payout.treasury, amount: payout.platform_fee },
            );
        }
        env.record(
            Action::Transfer { token, from, to: escrow.mentor, amount: payout.net_amount },
        );
    }

    /// Books a released part on `escrow`.
    fn _book(escrow: &mut Escrow, payout: Payout)
        requires
            payout.can_be_booked(*old(escrow)),
        ensures
            *final(escrow) == (Escrow {
                amount: (old(escrow).amount - payout.amount) as i128,
                platform_fee: (old(escrow).platform_fee + payout.platform_fee) as i128,
                net_amount: (old(escrow).net_amount + payout.net_amount) as i128,
                ..*old(escrow)
            }),
    {
        escrow.amount = escrow.amount - payout.amount;
        escrow.platform_fee = escrow.platform_fee + payout.platform_fee;
        escrow.net_amount = escrow.net_amount + payout.net_amount;
    }

    /// Writes `escrow` under `id`.
    fn _store_escrow(env: &mut Env, id: u64, escrow: Escrow)
        ensures
            final(env)@ == old(env)@.escrow_stored(id, escrow),
    {
        env.storage.escrows.insert(id, escrow);
        env.record(Action::Store(Key::Escrow(id)));
    }

    /// Writes an entry and extends its lifetime.
    fn _store(env: &mut Env, key: Key)
        ensures
            final(env)@ == old(env)@.stored(key),
    {
        env.record(Action::Store(key));
        env.record(Action::ExtendTtl(key));
    }

    /// Releases all that is left of `escrow`, and writes it under `key`.
    fn _do_release(env: &mut Env, escrow: &mut Escrow, key: u64, payout: Payout)
        requires
            payout.amount == old(escrow).amount,
            payout.is_due(old(env)@),
            payout.can_be_booked(*old(escrow)),
        ensures
            *final(escrow) == released_escrow(old(env)@, *old(escrow)),
            final(env)@ == released(old(env)@, *old(escrow), key),
    {
        Self::_pay_out(env, escrow, payout);
        Self::_book(escrow, payout);
        escrow.status = EscrowStatus::Released;
        Self::_store_escrow(env, key, *escrow);
        env.record(
            Action::Publish(
                Event::Released {
                    id: escrow.id,
                    data: EscrowReleasedEventData {
                        mentor: escrow.mentor,
                        amount: payout.amount,
                        net_amount: payout.net_amount,
                        platform_fee: payout.platform_fee,
                        token_address: escrow.token_address,
                    },
                },
            ),
        );
    }

    // -----------------------------------------------------------------------
    // Administration
    // -----------------------------------------------------------------------

    /// Whether escrows can be opened in the token.
    fn _is_token_approved(env: &Env, token_address: Address) -> (r: bool)
        ensures
            r == env@.token_approved(token_address),
    {
        match env.storage.approved_tokens.get(token_address) {
            Some(approved) => approved,
            None => false,
        }
    }

    /// Approves the token, or no longer does.
    fn _set_token_approved(env: &mut Env, token_address: Address, approved: bool)
        ensures
            final(env)@ == old(env)@.token_set(token_address, approved),
    {
        env.storage.approved_tokens.set(token_address, approved);
        Self::_store(env, Key::ApprovedToken(token_address));
    }

    /// Sets the escrow up, once: who administers it, where the fees go, what
    /// they are, in which tokens escrows can be opened, and how long after a
    /// session its escrow releases itself (0 for the default).
    pub fn initialize(
        env: &mut Env,
        admin: Address,
        treasury: Address,
        fee_bps: u32,
        approved_tokens: &Vec<Address>,
        auto_release_delay_secs: u64,
    ) -> (r: Result<(), EscrowError>)
        ensures
            answers(
                r,
                initialize_refusal(old(env)@, fee_bps),
                (),
                old(env)@,
                final(env)@,
                initialized(
                    old(env)@,
                    admin,
                    treasury,
                    fee_bps,
                    approved_tokens@,
                    auto_release_delay_secs,
                ),
            ),
    {
        if env.storage.admin.is_some() {
            return Err(EscrowError::AlreadyInitialized);
        }
        if fee_bps > MAX_FEE_BPS {
            return Err(EscrowError::FeeTooHigh);
        }
        env.storage.admin = Some(admin);
        Self::_store(env, Key::Admin);
        env.storage.treasury = Some(treasury);
        Self::_store(env, Key::Treasury);
        env.storage.fee_bps = Some(fee_bps);
        Self::_store(env, Key::FeeBps);
        env.storage.escrow_count = Some(0);
        Self::_store(env, Key::EscrowCount);
        let delay: u64 = if auto_release_delay_secs == 0 {
            DEFAULT_AUTO_RELEASE_DELAY
        } else {
            auto_release_delay_secs
        };
        env.storage.auto_release_delay = Some(delay);
        Self::_store(env, Key::AutoReleaseDelay);
        let ghost configured = env@;
        let mut i: usize = 0;
        assert(approved_tokens@.take(0) =~= Seq::<Address>::empty());
        while i < approved_tokens.len()
            invariant
                i <= approved_tokens@.len(),
                env@ == configured.tokens_approved(approved_tokens@.take(i as int)),
            decreases approved_tokens@.len() - i,
        {
            Self::_set_token_approved(env, approved_tokens[i], true);
            proof {
                let done = approved_tokens@.take(i + 1);
                assert(done.drop_last() =~= approved_tokens@.take(i as int));
                assert(done.last() == approved_tokens@[i as int]);
            }
            i += 1;
        }
        assert(approved_tokens@.take(i as int) =~= approved_tokens@);
        Ok(())
    }

    /// Makes sure that the administrator authorized the call.
    fn _require_admin(env: &Env) -> (r: Result<(), EscrowError>)
        ensures
            replies(r, admin_refusal(env@), ()),
    {
        match env.storage.admin {
            None => Err(EscrowError::NotInitialized),
            Some(admin) => {
                if env.is_authorized(admin) {
                    Ok(())
                } else {
                    Err(EscrowError::AuthRequired(admin))
                }
            },
        }
    }

    /// Sets the fee that is paid where the dynamic fee is off. For the
    /// administrator.
    pub fn update_fee(env: &mut Env, new_fee_bps: u32) -> (r: Result<(), EscrowError>)
        ensures
            answers(
                r,
                update_fee_refusal(old(env)@, new_fee_bps),
                (),
                old(env)@,
                final(env)@,
                fee_updated(old(env)@, new_fee_bps),
            ),
    {
        match Self::_require_admin(env) {
            Err(error) => return Err(error),
            Ok(()) => {},
        }
        if new_fee_bps > MAX_FEE_BPS {
            return Err(EscrowError::FeeTooHigh);
        }
        env.record(Action::ExtendTtl(Key::Admin));
        env.storage.fee_bps = Some(new_fee_bps);
        Self::_store(env, Key::FeeBps);
        Ok(())
    }

    /// Sets the pool that quotes the price. For the administrator.
    pub fn set_liquidity_pool(env: &mut Env, pool_address: Address) -> (r: Result<(), EscrowError>)
        ensures
            answers(
                r,
                admin_refusal(old(env)@),
                (),
                old(env)@,
                final(env)@,
                liquidity_pool_set(old(env)@, pool_address),
            ),
    {
        match Self::_require_admin(env) {
            Err(error) => return Err(error),
            Ok(()) => {},
        }
        env.storage.liquidity_pool = Some(pool_address);
        env.record(Action::Store(Key::LiquidityPool));
        Ok(())
    }

    /// Switches the dynamic fee on or off. For the administrator.
    pub fn set_dynamic_fee_enabled(env: &mut Env, enabled: bool) -> (r: Result<(), EscrowError>)
        ensures
            answers(
                r,
                admin_refusal(old(env)@),
                (),
                old(env)@,
                final(env)@,
                dynamic_fee_set(old(env)@, enabled),
            ),
    {
        match Self::_require_admin(env) {
            Err(error) => return Err(error),
            Ok(()) => {},
        }
        env.storage.dynamic_fee_enabled = Some(enabled);
        env.record(Action::Store(Key::DynamicFeeEnabled));
        Ok(())
    }

    /// Sets where the fees go. For the administrator.
    pub fn update_treasury(env: &mut Env, new_treasury: Address) -> (r: Result<(), EscrowError>)
        ensures
            answers(
                r,
                admin_refusal(old(env)@),
                (),
                old(env)@,
                final(env)@,
                treasury_updated(old(env)@, new_treasury),
            ),
    {
        match Self::_require_admin(env) {
            Err(error) => return Err(error),
            Ok(()) => {},
        }
        env.record(Action::ExtendTtl(Key::Admin));
        env.storage.treasury = Some(new_treasury);
        Self::_store(env, Key::Treasury);
        Ok(())
    }

    /// Approves a token, or no longer does. For the administrator.
    pub fn set_approved_token(env: &mut Env, token_address: Address, approved: bool) -> (r: Result<
        (),
        EscrowError,
    >)
        ensures
            answers(
                r,
                admin_refusal(old(env)@),
                (),
                old(env)@,
                final(env)@,
                approved_token_set(old(env)@, token_address, approved),
            ),
    {
        match Self::_require_admin(env) {
            Err(error) => return Err(error),
            Ok(()) => {},
        }
        env.record(Action::ExtendTtl(Key::Admin));
        Self::_set_token_approved(env, token_address, approved);
        Ok(())
    }

    // -----------------------------------------------------------------------
    // Escrow lifecycle
    // -----------------------------------------------------------------------

    /// Opens an escrow: the learner deposits `amount` of an approved token for a
    /// session that has none yet. Answers with the id of the escrow.
    pub fn create_escrow(
        env: &mut Env,
        mentor: Address,
        learner: Address,
        amount: i128,
        session_id: Symbol,
        token_address: Address,
        session_end_time: u64,
    ) -> (r: Result<u64, EscrowError>)
        ensures
            answers(
                r,
                create_escrow_refusal(old(env)@, learner, amount, session_id, token_address),
                next_id(old(env)@),
                old(env)@,
                final(env)@,
                escrow_created(
                    old(env)@,
                    mentor,
                    learner,
                    amount,
                    session_id,
                    token_address,
                    session_end_time,
                ),
            ),
    {
        if amount <= 0 {
            return Err(EscrowError::InvalidAmount);
        }
        if !Self::_is_token_approved(env, token_address) {
            return Err(EscrowError::TokenNotApproved);
        }
        if !env.is_authorized(learner) {
            return Err(EscrowError::AuthRequired(learner));
        }
        if env.balance(token_address, learner) < amount {
            return Err(EscrowError::InsufficientBalance);
        }
        let auto_release_delay: u64 = match env.storage.auto_release_delay {
            Some(delay) => delay,
            None => return Err(EscrowError::EntryMissing(Key::AutoReleaseDelay)),
        };
        if env.storage.sessions.get(session_id).is_some() {
            return Err(EscrowError::SessionExists);
        }
        let opened: u64 = match env.storage.escrow_count {
            Some(count) => count,
            None => 0,
        };
        let count: u64 = match opened.checked_add(1) {
            Some(count) => count,
            None => return Err(EscrowError::CounterOverflow),
        };

        env.record(Action::ExtendTtl(Key::AutoReleaseDelay));
        env.storage.sessions.set(session_id, true);
        Self::_store(env, Key::Session(session_id));
        env.storage.escrow_count = Some(count);
        Self::_store(env, Key::EscrowCount);
        let contract = env.contract_address;
        env.record(
            Action::Transfer { token: token_address, from: learner, to: contract, amount },
        );
        let escrow = Escrow {
            id: count,
            mentor,
            learner,
            amount,
            session_id,
            status: EscrowStatus::Active,
            created_at: env.timestamp,
            token_address,
            platform_fee: 0,
            net_amount: 0,
            session_end_time,
            auto_release_delay,
            dispute_reason: Symbol::empty(),
            resolved_at: 0,
        };
        env.storage.escrows.insert(count, escrow);
        Self::_store(env, Key::Escrow(count));
        env.record(
            Action::Publish(
                Event::Created {
                    id: count,
                    data: EscrowCreatedEventData {
                        mentor,
                        learner,
                        amount,
                        session_id,
                        token_address,
                        session_end_time,
                    },
                },
            ),
        );
        Ok(count)
    }

    /// The escrow under `id`, if it is active.
    fn _active_escrow(env: &Env, id: u64) -> (r: Result<Escrow, EscrowError>)
        ensures
            replies(r, active_refusal(env@, id), env@.storage.escrows[id]),
    {
        match env.escrow(id) {
            None => Err(EscrowError::EscrowNotFound),
            Some(escrow) => {
                if escrow.status != EscrowStatus::Active {
                    Err(EscrowError::NotActive)
                } else {
                    Ok(escrow)
                }
            },
        }
    }

    /// Makes sure that `caller` can release `escrow`.
    fn _require_releaser(env: &Env, escrow: &Escrow, caller: Address) -> (r: Result<
        (),
        EscrowError,
    >)
        ensures
            replies(r, releaser_refusal(env@, *escrow, caller), ()),
    {
        match env.storage.admin {
            None => Err(EscrowError::AdminNotFound),
            Some(admin) => {
                if !env.is_authorized(caller) {
                    Err(EscrowError::AuthRequired(caller))
                } else if caller != escrow.learner && caller != admin {
                    Err(EscrowError::CallerNotAuthorized)
                } else {
                    Ok(())
                }
            },
        }
    }

    /// Releases an active escrow. For the learner and the administrator.
    pub fn release_funds(env: &mut Env, caller: Address, escrow_id: u64) -> (r: Result<
        (),
        EscrowError,
    >)
        ensures
            answers(
                r,
                release_funds_refusal(old(env)@, caller, escrow_id),
                (),
                old(env)@,
                final(env)@,
                funds_released(old(env)@, escrow_id),
            ),
    {
        let mut escrow = match Self::_active_escrow(env, escrow_id) {
            Err(error) => return Err(error),
            Ok(escrow) => escrow,
        };
        match Self::_require_releaser(env, &escrow, caller) {
            Err(error) => return Err(error),
            Ok(()) => {},
        }
        let payout = match Self::_payout(env, &escrow, escrow.amount) {
            Err(error) => return Err(error),
            Ok(payout) => payout,
        };
        env.record(Action::ExtendTtl(Key::Escrow(escrow_id)));
        env.record(Action::ExtendTtl(Key::Admin));
        Self::_do_release(env, &mut escrow, escrow_id, payout);
        Ok(())
    }

    /// Releases a part of an active escrow; with nothing left it is released.
    /// For the learner and the administrator.
    pub fn release_partial(
        env: &mut Env,
        caller: Address,
        escrow_id: u64,
        amount_to_release: i128,
    ) -> (r: Result<(), EscrowError>)
        ensures
            answers(
                r,
                release_partial_refusal(old(env)@, caller, escrow_id, amount_to_release),
                (),
                old(env)@,
                final(env)@,
                partly_released(old(env)@, escrow_id, amount_to_release),
            ),
    {
        let mut escrow = match Self::_active_escrow(env, escrow_id) {
            Err(error) => return Err(error),
            Ok(escrow) => escrow,
        };
        if amount_to_release <= 0 || amount_to_release > escrow.amount {
            return Err(EscrowError::InvalidReleaseAmount);
        }
        match Self::_require_releaser(env, &escrow, caller) {
            Err(error) => return Err(error),
            Ok(()) => {},
        }
        let payout = match Self::_payout(env, &escrow, amount_to_release) {
            Err(error) => return Err(error),
            Ok(payout) => payout,
        };
        env.record(Action::ExtendTtl(Key::Escrow(escrow_id)));
        env.record(Action::ExtendTtl(Key::Admin));
        Self::_pay_out(env, &escrow, payout);
        Self::_book(&mut escrow, payout);
        if escrow.amount == 0 {
            escrow.status = EscrowStatus::Released;
        }
        Self::_store_escrow(env, escrow_id, escrow);
        env.record(
            Action::Publish(
                Event::PartiallyReleased {
                    id: escrow.id,
                    mentor: escrow.mentor,
                    amount: amount_to_release,
                    net_amount: payout.net_amount,
                    platform_fee: payout.platform_fee,
                    token_address: escrow.token_address,
                    remaining: escrow.amount,
                },
            ),
        );
        Ok(())
    }

    /// Releases an active escrow. For the administrator.
    pub fn admin_release(env: &mut Env, escrow_id: u64) -> (r: Result<(), EscrowError>)
        ensures
            answers(
                r,
                admin_release_refusal(old(env)@, escrow_id),
                (),
                old(env)@,
                final(env)@,
                admin_released(old(env)@, escrow_id),
            ),
    {
        let mut escrow = match Self::_active_escrow(env, escrow_id) {
            Err(error) => return Err(error),
            Ok(escrow) => escrow,
        };
        match env.storage.admin {
            None => return Err(EscrowError::AdminNotFound),
            Some(admin) => {
                if !env.is_authorized(admin) {
                    return Err(EscrowError::AuthRequired(admin));
                }
            },
        }
        let payout = match Self::_payout(env, &escrow, escrow.amount) {
            Err(error) => return Err(error),
            Ok(payout) => payout,
        };
        env.record(Action::ExtendTtl(Key::Escrow(escrow_id)));
        env.record(Action::ExtendTtl(Key::Admin));
        let time = env.timestamp;
        env.record(Action::Publish(Event::AdminReleased { id: escrow_id, time }));
        Self::_do_release(env, &mut escrow, escrow_id, payout);
        Ok(())
    }

    /// Releases an active escrow whose time has come. For anyone.
    pub fn try_auto_release(env: &mut Env, escrow_id: u64) -> (r: Result<(), EscrowError>)
        ensures
            answers(
                r,
                auto_release_refusal(old(env)@, escrow_id),
                (),
                old(env)@,
                final(env)@,
                auto_released(old(env)@, escrow_id),
            ),
    {
        let mut escrow = match Self::_active_escrow(env, escrow_id) {
            Err(error) => return Err(error),
            Ok(escrow) => escrow,
        };
        let now = env.timestamp;
        let release_after: u64 = match escrow.session_end_time.checked_add(
            escrow.auto_release_delay,
        ) {
            Some(time) => time,
            None => return Err(EscrowError::TimestampOverflow),
        };
        if now < release_after {
            return Err(EscrowError::WindowNotElapsed);
        }
        let payout = match Self::_payout(env, &escrow, escrow.amount) {
            Err(error) => return Err(error),
            Ok(payout) => payout,
        };
        env.record(Action::ExtendTtl(Key::Escrow(escrow_id)));
        env.record(
            Action::Publish(
                Event::AutoReleased {
                    id: escrow_id,
                    data: EscrowAutoReleasedEventData { time: now },
                },
            ),
        );
        Self::_do_release(env, &mut escrow, escrow_id, payout);
        Ok(())
    }

    /// Opens a dispute on an active escrow. For the mentor and the learner.
    pub fn dispute(env: &mut Env, caller: Address, escrow_id: u64, reason: Symbol) -> (r: Result<
        (),
        EscrowError,
    >)
        ensures
            answers(
                r,
                dispute_refusal(old(env)@, caller, escrow_id),
                (),
                old(env)@,
                final(env)@,
                disputed(old(env)@, caller, escrow_id, reason),
            ),
    {
        let mut escrow = match Self::_active_escrow(env, escrow_id) {
            Err(error) => return Err(error),
            Ok(escrow) => escrow,
        };
        if !env.is_authorized(caller) {
            return Err(EscrowError::AuthRequired(caller));
        }
        if caller != escrow.mentor && caller != escrow.learner {
            return Err(EscrowError::CallerCannotDispute);
        }
        env.record(Action::ExtendTtl(Key::Escrow(escrow_id)));
        escrow.status = EscrowStatus::Disputed;
        escrow.dispute_reason = reason;
        Self::_store_escrow(env, escrow_id, escrow);
        env.record(
            Action::Publish(
                Event::DisputeOpened {
                    id: escrow_id,
                    data: DisputeOpenedEventData {
                        caller,
                        reason,
                        token_address: escrow.token_address,
                    },
                },
            ),
        );
        Ok(())
    }

    /// Settles a disputed escrow: it is released, or goes back to the learner.
    /// For the administrator.
    pub fn resolve_dispute(env: &mut Env, escrow_id: u64, release_to_mentor: bool) -> (r: Result<
        (),
        EscrowError,
    >)
        ensures
            answers(
                r,
                resolve_dispute_refusal(old(env)@, escrow_id, release_to_mentor),
                (),
                old(env)@,
                final(env)@,
                dispute_resolved(old(env)@, escrow_id, release_to_mentor),
            ),
    {
        match Self::_require_admin(env) {
            Err(error) => return Err(error),
            Ok(()) => {},
        }
        let mut escrow = match env.escrow(escrow_id) {
            None => return Err(EscrowError::EscrowNotFound),
            Some(escrow) => escrow,
        };
        if escrow.status != EscrowStatus::Disputed {
            return Err(EscrowError::NotDisputed);
        }
        let now = env.timestamp;
        if release_to_mentor {
            let payout = match Self::_payout(env, &escrow, escrow.amount) {
                Err(error) => return Err(error),
                Ok(payout) => payout,
            };
            env.record(Action::ExtendTtl(Key::Admin));
            env.record(Action::ExtendTtl(Key::Escrow(escrow_id)));
            Self::_do_release(env, &mut escrow, escrow_id, payout);
        } else {
            env.record(Action::ExtendTtl(Key::Admin));
            env.record(Action::ExtendTtl(Key::Escrow(escrow_id)));
            Self::_give_back(env, &escrow);
            escrow.net_amount = 0;
            escrow.platform_fee = escrow.amount;
        }
        escrow.status = EscrowStatus::Resolved;
        escrow.resolved_at = now;
        Self::_store_escrow(env, escrow_id, escrow);
        env.record(
            Action::Publish(
                Event::DisputeResolved {
                    id: escrow_id,
                    release_to_mentor,
                    mentor_amount: escrow.net_amount,
                    learner_amount: escrow.amount,
                    token_address: escrow.token_address,
                    time: now,
                },
            ),
        );
        Ok(())
    }

    /// Moves what is left of `escrow` back to the learner.
    fn _give_back(env: &mut Env, escrow: &Escrow)
        ensures
            final(env)@ == old(env)@.paid(*escrow, escrow.learner, escrow.amount),
    {
        let from = env.contract_address;
        env.record(
            Action::Transfer {
                token: escrow.token_address,
                from,
                to: escrow.learner,
                amount: escrow.amount,
            },
        );
    }

    /// Gives an active or disputed escrow back to the learner. For the
    /// administrator.
    pub fn refund(env: &mut Env, escrow_id: u64) -> (r: Result<(), EscrowError>)
        ensures
            answers(
                r,
                refund_refusal(old(env)@, escrow_id),
                (),
                old(env)@,
                final(env)@,
                refunded(old(env)@, escrow_id),
            ),
    {
        match env.storage.admin {
            None => return Err(EscrowError::AdminNotFound),
            Some(admin) => {
                if !env.is_authorized(admin) {
                    return Err(EscrowError::AuthRequired(admin));
                }
            },
        }
        let mut escrow = match env.escrow(escrow_id) {
            None => return Err(EscrowError::EscrowNotFound),
            Some(escrow) => escrow,
        };
        if escrow.status == EscrowStatus::Released || escrow.status == EscrowStatus::Refunded
            || escrow.status == EscrowStatus::Resolved {
            return Err(EscrowError::CannotRefund);
        }
        env.record(Action::ExtendTtl(Key::Admin));
        env.record(Action::ExtendTtl(Key::Escrow(escrow_id)));
        Self::_give_back(env, &escrow);
        escrow.status = EscrowStatus::Refunded;
        Self::_store_escrow(env, escrow_id, escrow);
        env.record(
            Action::Publish(
                Event::Refunded {
                    id: escrow_id,
                    data: EscrowRefundedEventData {
                        learner: escrow.learner,
                        amount: escrow.amount,
                        token_address: escrow.token_address,
                    },
                },
            ),
        );
        Ok(())
    }

    /// Files a review of a released escrow. For the learner.
    pub fn submit_review(env: &mut Env, caller: Address, escrow_id: u64, reason: Symbol) -> (r:
        Result<(), EscrowError>)
        ensures
            answers(
                r,
                submit_review_refusal(old(env)@, caller, escrow_id),
                (),
                old(env)@,
                final(env)@,
                review_submitted(old(env)@, caller, escrow_id, reason),
            ),
    {
        let escrow = match env.escrow(escrow_id) {
            None => return Err(EscrowError::EscrowNotFound),
            Some(escrow) => escrow,
        };
        if !env.is_authorized(caller) {
            return Err(EscrowError::AuthRequired(caller));
        }
        if caller != escrow.learner {
            return Err(EscrowError::NotLearner);
        }
        if escrow.status != EscrowStatus::Released {
            return Err(EscrowError::NotReleased);
        }
        env.record(Action::ExtendTtl(Key::Escrow(escrow_id)));
        env.storage.reviews.insert(escrow_id, reason);
        Self::_store(env, Key::Review(escrow_id));
        env.record(
            Action::Publish(
                Event::ReviewSubmitted {
                    id: escrow_id,
                    data: ReviewSubmittedEventData { caller, reason, mentor: escrow.mentor },
                },
            ),
        );
        Ok(())
    }

    // -----------------------------------------------------------------------
    // Queries
    // -----------------------------------------------------------------------

    /// The escrow under `escrow_id`.
    pub fn get_escrow(env: &mut Env, escrow_id: u64) -> (r: Result<Escrow, EscrowError>)
        ensures
            answers(
                r,
                get_escrow_refusal(old(env)@, escrow_id),
                old(env)@.storage.escrows[escrow_id],
                old(env)@,
                final(env)@,
                old(env)@.logged(Action::ExtendTtl(Key::Escrow(escrow_id))),
            ),
    {
        match env.escrow(escrow_id) {
            None => Err(EscrowError::EscrowNotFound),
            Some(escrow) => {
                env.record(Action::ExtendTtl(Key::Escrow(escrow_id)));
                Ok(escrow)
            },
        }
    }

    /// The number of escrows that were opened, once the escrow is set up.
    pub fn get_escrow_count(env: &mut Env) -> (r: Result<u64, EscrowError>)
        ensures
            answers(
                r,
                get_escrow_count_refusal(old(env)@),
                old(env)@.escrow_count(),
                old(env)@,
                final(env)@,
                old(env)@.logged(Action::ExtendTtl(Key::EscrowCount)),
            ),
    {
        match env.storage.escrow_count {
            None => Err(EscrowError::EntryMissing(Key::EscrowCount)),
            Some(count) => {
                env.record(Action::ExtendTtl(Key::EscrowCount));
                Ok(count)
            },
        }
    }

    /// The configured fee, in basis points.
    pub fn get_fee_bps(env: &mut Env) -> (r: Result<u32, EscrowError>)
        ensures
            answers(
                r,
                get_fee_bps_refusal(old(env)@),
                old(env)@.storage.fee_bps->0,
                old(env)@,
                final(env)@,
                old(env)@.logged(Action::ExtendTtl(Key::FeeBps)),
            ),
    {
        match env.storage.fee_bps {
            None => Err(EscrowError::EntryMissing(Key::FeeBps)),
            Some(fee) => {
                env.record(Action::ExtendTtl(Key::FeeBps));
                Ok(fee)
            },
        }
    }

    /// Where the fees go.
    pub fn get_treasury(env: &mut Env) -> (r: Result<Address, EscrowError>)
        ensures
            answers(
                r,
                get_treasury_refusal(old(env)@),
                old(env)@.storage.treasury->0,
                old(env)@,
                final(env)@,
                old(env)@.logged(Action::ExtendTtl(Key::Treasury)),
            ),
    {
        match env.storage.treasury {
            None => Err(EscrowError::TreasuryNotSet),
            Some(treasury) => {
                env.record(Action::ExtendTtl(Key::Treasury));
                Ok(treasury)
            },
        }
    }

    /// How long after a session a new escrow releases itself, in seconds.
    pub fn get_auto_release_delay(env: &mut Env) -> (r: Result<u64, EscrowError>)
        ensures
            answers(
                r,
                get_auto_release_delay_refusal(old(env)@),
                release_delay(old(env)@),
                old(env)@,
                final(env)@,
                old(env)@.logged(Action::ExtendTtl(Key::AutoReleaseDelay)),
            ),
    {
        match env.storage.auto_release_delay {
            None => Err(EscrowError::EntryMissing(Key::AutoReleaseDelay)),
            Some(delay) => {
                env.record(Action::ExtendTtl(Key::AutoReleaseDelay));
                Ok(delay)
            },
        }
    }

    /// Whether escrows can be opened in the token.
    pub fn is_token_approved(env: &Env, token_address: Address) -> (r: bool)
        ensures
            r == env@.token_approved(token_address),
    {
        Self::_is_token_approved(env, token_address)
    }

    /// The escrows with `mentor`, by increasing id.
    pub fn get_escrows_by_mentor(env: &Env, mentor: Address) -> (r: Vec<Escrow>)
        ensures
            r@ == escrows_of(env@.storage.escrows, mentor, env@.escrow_count() as int),
    {
        let count: u64 = match env.storage.escrow_count {
            Some(count) => count,
            None => 0,
        };
        let mut result: Vec<Escrow> = Vec::new();
        let mut id: u64 = 0;
        while id < count
            invariant
                id <= count,
                result@ == escrows_of(env@.storage.escrows, mentor, id as int),
            decreases count - id,
        {
            id += 1;
            if let Some(escrow) = env.escrow(id) {
                if escrow.mentor == mentor {
                    result.push(escrow);
                }
            }
        }
        result
    }
}

} // verus!
