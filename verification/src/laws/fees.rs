//! What is promised of the fees.
use crate::laws::calls::{step, Call};
use crate::env::EnvView;
use crate::model::{fee_due, fee_from_price, fits, initialized, net_due, payout_refusal};
use crate::laws::soundness::{
    is_open, lemma_drawn, lemma_split, lemma_tokens_approved, sound, well_formed,
};
use crate::types::{Escrow, EscrowError, MAX_FEE_BPS};
use vstd::prelude::*;

verus! {

/// A higher price never means a higher fee, and every price means 2% to 5%.
pub proof fn law_fee_falls_with_the_price(low: int, high: int)
    requires
        low <= high,
    ensures
        200 <= fee_from_price(high) <= fee_from_price(low) <= 500,
{
}

/// No release pays more than 10%: the fee is never above the maximum, what the
/// platform takes of a positive amount is at most a tenth, and nothing of it is
/// lost between the platform and the mentor. It takes the most that is within
/// its share: what does not come out even is the mentor's.
pub proof fn law_fee_is_capped(env: EnvView, amount: i128)
    requires
        well_formed(env.storage),
        0 < amount,
    ensures
        env.current_fee() <= MAX_FEE_BPS,
        0 <= fee_due(env, amount),
        10 * fee_due(env, amount) <= amount,
        0 < net_due(env, amount),
        fee_due(env, amount) + net_due(env, amount) == amount,
        fee_due(env, amount) * 10_000 <= amount * env.current_fee(),
        amount * env.current_fee() < (fee_due(env, amount) + 1) * 10_000,
{
    lemma_split(env, amount);
}

/// Asking for the fee does not change it: asked again, it is the same, and
/// nothing more is done.
pub proof fn law_asking_keeps_the_fee(env: EnvView)
    ensures
        env.fee_asked().current_fee() == env.current_fee(),
        env.fee_asked().fee_asked() == env.fee_asked(),
{
}

/// The price is fetched once per ledger: once it was, no call changes it, nor
/// the fee, unless it switches the dynamic fee off. Another pool and another
/// configured fee make no difference before the next ledger.
pub proof fn law_price_is_fixed_within_a_ledger(env: EnvView, call: Call)
    requires
        env.dynamic_fee_on(),
        env.cached_price() is Some,
        !(call is SetDynamicFeeEnabled),
    ensures
        step(env, call).dynamic_fee_on(),
        step(env, call).cached_price() == env.cached_price(),
        step(env, call).current_fee() == env.current_fee(),
{
    reveal(step);
    if let Call::Initialize {
        admin,
        treasury,
        fee_bps,
        approved_tokens,
        auto_release_delay_secs,
    } = call {
        let set_up = initialized(
            env,
            admin,
            treasury,
            fee_bps,
            Seq::empty(),
            auto_release_delay_secs,
        );
        lemma_tokens_approved(set_up, approved_tokens);
    }
}

/// Once the escrow is set up, a part of an open escrow can always be paid out,
/// unless the product of the part and the fee is out of range; no part up to a
/// thousandth of the range of amounts is.
pub proof fn law_only_huge_amounts_are_stuck(
    env: EnvView,
    id: u64,
    escrow: Escrow,
    amount: i128,
)
    requires
        well_formed(env.storage),
        env.storage.admin is Some,
        sound(id, escrow),
        is_open(escrow),
        0 < amount <= escrow.amount,
    ensures
        payout_refusal(env, escrow, amount) == (if fits(amount * env.current_fee()) {
            None
        } else {
            Some(EscrowError::Overflow)
        }),
        amount <= i128::MAX / 1000 ==> payout_refusal(env, escrow, amount) is None,
{
    lemma_split(env, amount);
    lemma_drawn(env, id, escrow, amount);
    let fee = env.current_fee() as int;
    assert(0 <= amount * fee <= amount * 1000) by (nonlinear_arith)
        requires
            0 <= fee <= 1000,
            0 < amount,
    ;
}

} // verus!
