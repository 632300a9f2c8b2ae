//! The calls of the entry points as values, so that something can be said of
//! all of them at once.
use crate::env::EnvView;
use crate::model::{
    admin_refusal, admin_release_refusal, admin_released, approved_token_set,
    auto_release_refusal, auto_released, create_escrow_refusal, dispute_refusal,
    dispute_resolved, disputed, dynamic_fee_set, escrow_created, fee_updated, funds_released,
    get_auto_release_delay_refusal, get_escrow_count_refusal, get_escrow_refusal,
    get_fee_bps_refusal, get_treasury_refusal, initialize_refusal, initialized, liquidity_pool_set, partly_released, refund_refusal, refunded, release_funds_refusal,
    release_partial_refusal, resolve_dispute_refusal, review_submitted, submit_review_refusal,
    treasury_updated, update_fee_refusal,
};
use crate::types::{
    Action, Address, EscrowAutoReleasedEventData, EscrowError, Event, Key, Symbol,
};
use vstd::prelude::*;

verus! {

/// A call of an entry point that can change its surroundings.
pub enum Call {
    Initialize {
        admin: Address,
        treasury: Address,
        fee_bps: u32,
        approved_tokens: Seq<Address>,
        auto_release_delay_secs: u64,
    },
    UpdateFee { new_fee_bps: u32 },
    SetLiquidityPool { pool: Address },
    SetDynamicFeeEnabled { enabled: bool },
    UpdateTreasury { new_treasury: Address },
    SetApprovedToken { token: Address, approved: bool },
    CreateEscrow {
        mentor: Address,
        learner: Address,
        amount: i128,
        session_id: Symbol,
        token: Address,
        session_end_time: u64,
    },
    ReleaseFunds { caller: Address, id: u64 },
    ReleasePartial { caller: Address, id: u64, amount: i128 },
    AdminRelease { id: u64 },
    TryAutoRelease { id: u64 },
    Dispute { caller: Address, id: u64, reason: Symbol },
    ResolveDispute { id: u64, release_to_mentor: bool },
    Refund { id: u64 },
    SubmitReview { caller: Address, id: u64, reason: Symbol },
    GetDynamicFee,
    GetEscrow { id: u64 },
    GetEscrowCount,
    GetFeeBps,
    GetTreasury,
    GetAutoReleaseDelay,
}

/// Why a call is refused, if it is.
pub open spec fn refusal(env: EnvView, call: Call) -> Option<EscrowError> {
    match call {
        Call::Initialize { fee_bps, .. } => initialize_refusal(env, fee_bps),
        Call::UpdateFee { new_fee_bps } => update_fee_refusal(env, new_fee_bps),
        Call::SetLiquidityPool { .. } => admin_refusal(env),
        Call::SetDynamicFeeEnabled { .. } => admin_refusal(env),
        Call::UpdateTreasury { .. } => admin_refusal(env),
        Call::SetApprovedToken { .. } => admin_refusal(env),
        Call::CreateEscrow { learner, amount, session_id, token, .. } => create_escrow_refusal(
            env,
            learner,
            amount,
            session_id,
            token,
        ),
        Call::ReleaseFunds { caller, id } => release_funds_refusal(env, caller, id),
        Call::ReleasePartial { caller, id, amount } => release_partial_refusal(
            env,
            caller,
            id,
            amount,
        ),
        Call::AdminRelease { id } => admin_release_refusal(env, id),
        Call::TryAutoRelease { id } => auto_release_refusal(env, id),
        Call::Dispute { caller, id, .. } => dispute_refusal(env, caller, id),
        Call::ResolveDispute { id, release_to_mentor } => resolve_dispute_refusal(
            env,
            id,
            release_to_mentor,
        ),
        Call::Refund { id } => refund_refusal(env, id),
        Call::SubmitReview { caller, id, .. } => submit_review_refusal(env, caller, id),
        Call::GetEscrow { id } => get_escrow_refusal(env, id),
        Call::GetTreasury => get_treasury_refusal(env),
        Call::GetDynamicFee => None,
        Call::GetEscrowCount => get_escrow_count_refusal(env),
        Call::GetFeeBps => get_fee_bps_refusal(env),
        Call::GetAutoReleaseDelay => get_auto_release_delay_refusal(env),
    }
}

/// Whether a call pays out of an escrow, where it is not refused.
pub open spec fn pays_out(call: Call) -> bool {
    match call {
        Call::ReleaseFunds { .. } => true,
        Call::ReleasePartial { .. } => true,
        Call::AdminRelease { .. } => true,
        Call::TryAutoRelease { .. } => true,
        Call::ResolveDispute { release_to_mentor, .. } => release_to_mentor,
        _ => false,
    }
}

/// The state in which a call that pays out of an escrow begins to do so: what it
/// works on was extended, and a release that is not the parties' own was
/// announced.
pub open spec fn payout_start(env: EnvView, call: Call) -> EnvView {
    let admin = Action::ExtendTtl(Key::Admin);
    match call {
        Call::ReleaseFunds { id, .. } => env.logged(Action::ExtendTtl(Key::Escrow(id))).logged(
            admin,
        ),
        Call::ReleasePartial { id, .. } => env.logged(Action::ExtendTtl(Key::Escrow(id))).logged(
            admin,
        ),
        Call::AdminRelease { id } => env.logged(Action::ExtendTtl(Key::Escrow(id))).logged(
            admin,
        ).logged(Action::Publish(Event::AdminReleased { id, time: env.timestamp })),
        Call::TryAutoRelease { id } => env.logged(Action::ExtendTtl(Key::Escrow(id))).logged(
            Action::Publish(
                Event::AutoReleased {
                    id,
                    data: EscrowAutoReleasedEventData { time: env.timestamp },
                },
            ),
        ),
        Call::ResolveDispute { id, .. } => env.logged(admin).logged(
            Action::ExtendTtl(Key::Escrow(id)),
        ),
        _ => env,
    }
}

/// What a call leaves behind where it is not refused.
pub open spec fn effect(env: EnvView, call: Call) -> EnvView {
    match call {
        Call::Initialize {
            admin,
            treasury,
            fee_bps,
            approved_tokens,
            auto_release_delay_secs,
        } => initialized(env, admin, treasury, fee_bps, approved_tokens, auto_release_delay_secs),
        Call::UpdateFee { new_fee_bps } => fee_updated(env, new_fee_bps),
        Call::SetLiquidityPool { pool } => liquidity_pool_set(env, pool),
        Call::SetDynamicFeeEnabled { enabled } => dynamic_fee_set(env, enabled),
        Call::UpdateTreasury { new_treasury } => treasury_updated(env, new_treasury),
        Call::SetApprovedToken { token, approved } => approved_token_set(env, token, approved),
        Call::CreateEscrow { mentor, learner, amount, session_id, token, session_end_time } =>
        escrow_created(env, mentor, learner, amount, session_id, token, session_end_time),
        Call::ReleaseFunds { id, .. } => funds_released(env, id),
        Call::ReleasePartial { id, amount, .. } => partly_released(env, id, amount),
        Call::AdminRelease { id } => admin_released(env, id),
        Call::TryAutoRelease { id } => auto_released(env, id),
        Call::Dispute { caller, id, reason } => disputed(env, caller, id, reason),
        Call::ResolveDispute { id, release_to_mentor } => dispute_resolved(
            env,
            id,
            release_to_mentor,
        ),
        Call::Refund { id } => refunded(env, id),
        Call::SubmitReview { caller, id, reason } => review_submitted(env, caller, id, reason),
        Call::GetDynamicFee => env.fee_asked(),
        Call::GetEscrow { id } => env.logged(Action::ExtendTtl(Key::Escrow(id))),
        Call::GetEscrowCount => env.logged(Action::ExtendTtl(Key::EscrowCount)),
        Call::GetFeeBps => env.logged(Action::ExtendTtl(Key::FeeBps)),
        Call::GetTreasury => env.logged(Action::ExtendTtl(Key::Treasury)),
        Call::GetAutoReleaseDelay => env.logged(Action::ExtendTtl(Key::AutoReleaseDelay)),
    }
}

/// What a call leaves behind: a refused one, everything as it was. It is opaque
/// because of its many cases, which most of what is said over histories does not
/// need.
#[verifier::opaque]
pub open spec fn step(env: EnvView, call: Call) -> EnvView {
    if refusal(env, call) is Some {
        env
    } else {
        effect(env, call)
    }
}

/// A refused call changes nothing.
pub proof fn law_refused_calls_change_nothing(env: EnvView, call: Call)
    requires
        refusal(env, call) is Some,
    ensures
        step(env, call) == env,
{
    reveal(step);
}

} // verus!
