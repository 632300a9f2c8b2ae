//! What is read off the surroundings, entry by entry, and what queries answer.
use crate::laws::calls::{refusal, step, Call};
use crate::env::{EnvView, Holding, StorageView};
use crate::model::{answers, fee_due, fee_from_price, net_due, next_id, release_delay, share};
use crate::types::{
    Action, Address, EscrowError, Key, Symbol, BPS_DENOMINATOR, DEFAULT_AUTO_RELEASE_DELAY,
    DEFAULT_FEE_BPS, ESCROW_TTL_BUMP, ESCROW_TTL_THRESHOLD, MAX_FEE_BPS,
};
use vstd::prelude::*;

verus! {

/// The limits: a fee of 5% where none is configured and of 10% at most, 72 hours
/// to the automatic release, and entries that live for a million ledgers when
/// they are extended, which they are below half of that.
pub proof fn law_limits()
    ensures
        DEFAULT_FEE_BPS * 100 == 5 * BPS_DENOMINATOR,
        MAX_FEE_BPS * 100 == 10 * BPS_DENOMINATOR,
        BPS_DENOMINATOR == 10_000,
        DEFAULT_AUTO_RELEASE_DELAY == 72 * 60 * 60,
        ESCROW_TTL_BUMP == 1_000_000,
        2 * ESCROW_TTL_THRESHOLD == ESCROW_TTL_BUMP,
{
}

/// A call authorized by somebody is one in whose list they stand.
pub proof fn law_authorizations_are_listed(env: EnvView, who: Address)
    ensures
        env.authorized(who) <==> exists|i: int|
            0 <= i < env.authorizers.len() && #[trigger] env.authorizers[i] == who,
{
}

/// A holding is what the token reports, and nothing where it reports none.
pub proof fn law_balances_are_reported(env: EnvView, token: Address, holder: Address)
    ensures
        env.balances.dom().contains(Holding { token, holder }) ==> env.balance(token, holder)
            == env.balances[Holding { token, holder }],
        !env.balances.dom().contains(Holding { token, holder }) ==> env.balance(token, holder)
            == 0,
{
}

/// A token is approved where its entry says so, and not without an entry.
pub proof fn law_approvals_are_entries(env: EnvView, token: Address)
    ensures
        env.token_approved(token) <==> env.storage.approved_tokens.dom().contains(token)
            && env.storage.approved_tokens[token] == true,
{
}

/// The count is its entry, or nothing; the next id is one more; and the delay is
/// its entry.
pub proof fn law_counts_are_entries(env: EnvView)
    ensures
        env.storage.escrow_count is None ==> env.escrow_count() == 0,
        env.storage.escrow_count is Some ==> Some(env.escrow_count())
            == env.storage.escrow_count,
        env.escrow_count() < u64::MAX ==> next_id(env) - env.escrow_count() == 1,
        env.storage.auto_release_delay is Some ==> Some(release_delay(env))
            == env.storage.auto_release_delay,
{
}

/// A contract that was never called has no entries.
pub proof fn law_nothing_is_stored_at_first(id: u64, token: Address, session_id: Symbol)
    ensures
        ({
            let s = StorageView::empty();
            &&& s.admin is None && s.treasury is None && s.fee_bps is None
            &&& s.escrow_count is None && s.auto_release_delay is None
            &&& s.price_cache is None && s.price_cache_time is None
            &&& s.dynamic_fee_enabled is None && s.liquidity_pool is None
            &&& !s.sessions.dom().contains(session_id)
            &&& !s.approved_tokens.dom().contains(token)
            &&& !s.escrows.dom().contains(id)
            &&& !s.reviews.dom().contains(id)
        }),
{
}

/// The blank symbol has no character.
pub proof fn law_blank_is_blank(i: int)
    requires
        0 <= i < 32,
    ensures
        Symbol::blank().text[i] == 0,
{
    broadcast use vstd::array::group_array_axioms;

}

/// A call answers with the reason for which it is refused, and then leaves
/// everything as it was; where there is none it answers with its value, and
/// leaves what it does.
pub proof fn law_answers_are_plain<T>(
    result: Result<T, EscrowError>,
    reason: Option<EscrowError>,
    value: T,
    before: EnvView,
    after: EnvView,
    done: EnvView,
)
    requires
        answers(result, reason, value, before, after, done),
    ensures
        result is Err <==> reason is Some,
        result is Err ==> reason == Some(result->Err_0) && after == before,
        result is Ok ==> result->Ok_0 == value && after == done,
{
}

/// The price at which a release happens now: the one that was kept in this
/// ledger, or else the pool's 0.75, or 0 without a pool.
pub open spec fn price_now(env: EnvView) -> int {
    if is_price_kept(env) {
        env.storage.price_cache->0 as int
    } else if env.storage.liquidity_pool is Some {
        7_500_000
    } else {
        0
    }
}

/// Whether a price was kept in this ledger. A price without the ledger in which
/// it was kept counts as kept in ledger 0.
pub open spec fn is_price_kept(env: EnvView) -> bool {
    env.storage.price_cache is Some && (env.storage.price_cache_time == Some(env.sequence)
        || env.storage.price_cache_time is None && env.sequence == 0)
}

/// The fee in force: where it follows the price, 5% below 0.10, 4% below 0.50,
/// 3% below 1.00 and 2% from there on; where that was switched off, the
/// configured one, and 5% if there is none.
pub proof fn law_the_fee_in_force(env: EnvView)
    ensures
        ({
            let s = env.storage;
            let fee = env.current_fee();
            if s.dynamic_fee_enabled == Some(false) {
                &&& s.fee_bps is Some ==> Some(fee) == s.fee_bps
                &&& s.fee_bps is None ==> fee == 500
            } else {
                &&& price_now(env) < 1_000_000 ==> fee == 500
                &&& 1_000_000 <= price_now(env) < 5_000_000 ==> fee == 400
                &&& 5_000_000 <= price_now(env) < 10_000_000 ==> fee == 300
                &&& 10_000_000 <= price_now(env) ==> fee == 200
            }
        }),
{
}

/// The fee by price has its steps at 0.10, 0.50 and 1.00, in units of 10^-7, and
/// nowhere else.
pub proof fn law_fee_steps(price: int)
    ensures
        fee_from_price(price) == 500 <==> price < 1_000_000,
        fee_from_price(price) == 400 <==> 1_000_000 <= price < 5_000_000,
        fee_from_price(price) == 300 <==> 5_000_000 <= price < 10_000_000,
        fee_from_price(price) == 200 <==> 10_000_000 <= price,
{
}

/// What the platform takes of a positive amount is the greatest number whose ten
/// thousandfold is at most the amount times the fee; the mentor gets the rest.
pub proof fn law_the_split(env: EnvView, amount: i128)
    requires
        0 < amount,
    ensures
        fee_due(env, amount) * 10_000 <= amount * env.current_fee(),
        amount * env.current_fee() < (fee_due(env, amount) + 1) * 10_000,
        0 <= fee_due(env, amount),
        fee_due(env, amount) + net_due(env, amount) == amount,
{
    let fee = env.current_fee() as int;
    assert(0 <= amount * fee) by (nonlinear_arith)
        requires
            0 <= fee,
            0 < amount,
    ;
}

/// A share of a negative amount is that of the positive one, with the sign.
pub proof fn law_shares_are_symmetric(amount: int, bps: int)
    ensures
        share(-amount, bps) == -share(amount, bps),
{
    assert(0 * bps == 0) by (nonlinear_arith);
    assert(-(-amount) == amount);
}

/// Whether asking for the fee fetches a price: where it follows the price, and
/// none was kept in this ledger.
pub open spec fn is_price_fetched(env: EnvView) -> bool {
    env.storage.dynamic_fee_enabled != Some(false) && !is_price_kept(env)
}

/// What is stored once the fee was asked for: a price that was fetched is kept,
/// with the ledger.
pub open spec fn priced(env: EnvView) -> StorageView {
    if is_price_fetched(env) {
        StorageView {
            price_cache: Some(price_now(env) as i128),
            price_cache_time: Some(env.sequence),
            ..env.storage
        }
    } else {
        env.storage
    }
}

/// What is written once the fee was asked for.
pub open spec fn pricing(env: EnvView) -> Seq<Action> {
    if is_price_fetched(env) {
        seq![Action::Store(Key::PriceCache), Action::Store(Key::PriceCacheTime)]
    } else {
        Seq::empty()
    }
}

/// Asking for the fee is never refused. Where the fee follows the price and no
/// price was kept in this ledger, the price is kept, with the ledger, and both
/// are written; nothing else changes, and otherwise nothing at all.
pub proof fn law_asking_for_the_fee(env: EnvView)
    ensures
        ({
            let call = Call::GetDynamicFee;
            &&& refusal(env, call) is None
            &&& step(env, call).storage == priced(env)
            &&& step(env, call).log == env.log + pricing(env)
        }),
{
    reveal(step);
    assert(env.log + Seq::<Action>::empty() =~= env.log);
}

/// A query is refused where what it reads is not there, and only there. It
/// changes no entry, and asks for nothing but that what it read is extended.
pub proof fn law_queries(env: EnvView, id: u64)
    ensures
        ({
            let (call, key) = (Call::GetEscrow { id }, Key::Escrow(id));
            if env.storage.escrows.dom().contains(id) {
                &&& refusal(env, call) is None
                &&& step(env, call).storage == env.storage
                &&& step(env, call).log == env.log + seq![Action::ExtendTtl(key)]
            } else {
                refusal(env, call) == Some(EscrowError::EscrowNotFound)
            }
        }),
        ({
            let (call, key) = (Call::GetEscrowCount, Key::EscrowCount);
            if env.storage.escrow_count is Some {
                &&& refusal(env, call) is None
                &&& step(env, call).storage == env.storage
                &&& step(env, call).log == env.log + seq![Action::ExtendTtl(key)]
            } else {
                refusal(env, call) == Some(EscrowError::EntryMissing(key))
            }
        }),
        ({
            let (call, key) = (Call::GetFeeBps, Key::FeeBps);
            if env.storage.fee_bps is Some {
                &&& refusal(env, call) is None
                &&& step(env, call).storage == env.storage
                &&& step(env, call).log == env.log + seq![Action::ExtendTtl(key)]
            } else {
                refusal(env, call) == Some(EscrowError::EntryMissing(key))
            }
        }),
        ({
            let (call, key) = (Call::GetTreasury, Key::Treasury);
            if env.storage.treasury is Some {
                &&& refusal(env, call) is None
                &&& step(env, call).storage == env.storage
                &&& step(env, call).log == env.log + seq![Action::ExtendTtl(key)]
            } else {
                refusal(env, call) == Some(EscrowError::TreasuryNotSet)
            }
        }),
        ({
            let (call, key) = (Call::GetAutoReleaseDelay, Key::AutoReleaseDelay);
            if env.storage.auto_release_delay is Some {
                &&& refusal(env, call) is None
                &&& step(env, call).storage == env.storage
                &&& step(env, call).log == env.log + seq![Action::ExtendTtl(key)]
            } else {
                refusal(env, call) == Some(EscrowError::EntryMissing(key))
            }
        }),
{
    reveal(step);
}

} // verus!
