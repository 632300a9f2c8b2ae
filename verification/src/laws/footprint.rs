//! Which entries a call works on, so that no others have to be at hand.
use crate::laws::calls::{effect, payout_start, pays_out, refusal, step, Call};
use crate::env::{EnvView, StorageView};
use crate::laws::lifecycle::{lemma_maps, subject};
use crate::model::{
    dispute_resolved, initialized, next_id, paid_out, released, resolved_escrow,
};
use crate::laws::soundness::{lemma_fee_asked, lemma_tokens_approved};
use crate::types::{Action, Address, Escrow, Event, Key};
use vstd::prelude::*;

verus! {

/// Whether a call asks who the administrator is, or sets that.
pub open spec fn concerns_admin(call: Call) -> bool {
    match call {
        Call::Initialize { .. } => true,
        Call::UpdateFee { .. } => true,
        Call::SetLiquidityPool { .. } => true,
        Call::SetDynamicFeeEnabled { .. } => true,
        Call::UpdateTreasury { .. } => true,
        Call::SetApprovedToken { .. } => true,
        Call::ReleaseFunds { .. } => true,
        Call::ReleasePartial { .. } => true,
        Call::AdminRelease { .. } => true,
        Call::ResolveDispute { .. } => true,
        Call::Refund { .. } => true,
        _ => false,
    }
}

/// Whether a call works on the entry under a key: on the settings that it asks
/// for or sets, on the escrow that it names or opens, on that escrow's review,
/// and on the session and the tokens that it names. The configured fee concerns
/// a release only where the dynamic fee is off. The instance entries are kept
/// as one, and are at hand in every call.
pub open spec fn touches(env: EnvView, call: Call, key: Key) -> bool {
    match key {
        Key::Session(session_id) => call matches Call::CreateEscrow { session_id: named, .. }
            && session_id == named,
        Key::ApprovedToken(token) => match call {
            Call::CreateEscrow { token: named, .. } => token == named,
            Call::SetApprovedToken { token: named, .. } => token == named,
            Call::Initialize { approved_tokens, .. } => approved_tokens.contains(token),
            _ => false,
        },
        Key::Escrow(id) => subject(call) == Some(id) || call is CreateEscrow && id == next_id(env),
        Key::Review(id) => call matches Call::SubmitReview { id: named, .. } && id == named,
        Key::Admin => concerns_admin(call),
        Key::Treasury => call is Initialize || call is UpdateTreasury || call is GetTreasury
            || pays_out(call),
        Key::FeeBps => call is Initialize || call is UpdateFee || call is GetFeeBps || (
        call is GetDynamicFee || pays_out(call)) && !env.dynamic_fee_on(),
        Key::EscrowCount => call is Initialize || call is CreateEscrow || call is GetEscrowCount,
        Key::AutoReleaseDelay => call is Initialize || call is CreateEscrow
            || call is GetAutoReleaseDelay,
        Key::PriceCache => true,
        Key::PriceCacheTime => true,
        Key::DynamicFeeEnabled => true,
        Key::LiquidityPool => true,
    }
}

/// Whether two maps have the same under a key.
pub open spec fn same_under<K, V>(a: Map<K, V>, b: Map<K, V>, key: K) -> bool {
    &&& a.contains_key(key) == b.contains_key(key)
    &&& a.contains_key(key) ==> a[key] == b[key]
}

/// Whether two storages have the same entry under a key.
pub open spec fn same_entry(a: StorageView, b: StorageView, key: Key) -> bool {
    match key {
        Key::Admin => a.admin == b.admin,
        Key::Treasury => a.treasury == b.treasury,
        Key::FeeBps => a.fee_bps == b.fee_bps,
        Key::EscrowCount => a.escrow_count == b.escrow_count,
        Key::AutoReleaseDelay => a.auto_release_delay == b.auto_release_delay,
        Key::Session(session_id) => same_under(a.sessions, b.sessions, session_id),
        Key::ApprovedToken(token) => same_under(a.approved_tokens, b.approved_tokens, token),
        Key::Escrow(id) => same_under(a.escrows, b.escrows, id),
        Key::Review(id) => same_under(a.reviews, b.reviews, id),
        Key::PriceCache => a.price_cache == b.price_cache,
        Key::PriceCacheTime => a.price_cache_time == b.price_cache_time,
        Key::DynamicFeeEnabled => a.dynamic_fee_enabled == b.dynamic_fee_enabled,
        Key::LiquidityPool => a.liquidity_pool == b.liquidity_pool,
    }
}

/// Whether two states differ in nothing but their storages.
pub open spec fn same_but_for_storage(a: EnvView, b: EnvView) -> bool {
    b == a.with_storage(b.storage)
}

/// Whether two states are the same to a call.
pub open spec fn alike(a: EnvView, b: EnvView, call: Call) -> bool {
    &&& same_but_for_storage(a, b)
    &&& forall|key: Key|
        touches(a, call, key) ==> #[trigger] same_entry(a.storage, b.storage, key)
}

/// Whether a call writes the entry under a key, where it is not refused.
pub open spec fn writes(env: EnvView, call: Call, key: Key) -> bool {
    match key {
        Key::Admin => call is Initialize,
        Key::Treasury => call is Initialize || call is UpdateTreasury,
        Key::FeeBps => call is Initialize || call is UpdateFee,
        Key::EscrowCount => call is Initialize || call is CreateEscrow,
        Key::AutoReleaseDelay => call is Initialize,
        Key::Session(session_id) => call matches Call::CreateEscrow { session_id: named, .. }
            && session_id == named,
        Key::ApprovedToken(token) => match call {
            Call::SetApprovedToken { token: named, .. } => token == named,
            Call::Initialize { approved_tokens, .. } => approved_tokens.contains(token),
            _ => false,
        },
        Key::Escrow(id) => if call is CreateEscrow {
            id == next_id(env)
        } else {
            subject(call) == Some(id) && !(call is SubmitReview) && !(call is GetEscrow)
        },
        Key::Review(id) => call matches Call::SubmitReview { id: named, .. } && id == named,
        Key::PriceCache => call is GetDynamicFee || pays_out(call),
        Key::PriceCacheTime => call is GetDynamicFee || pays_out(call),
        Key::DynamicFeeEnabled => call is SetDynamicFeeEnabled,
        Key::LiquidityPool => call is SetLiquidityPool,
    }
}

/// Whether two storages have the same settings.
#[verifier::opaque]
spec fn same_settings(a: StorageView, b: StorageView) -> bool {
    &&& a.admin == b.admin
    &&& a.treasury == b.treasury
    &&& a.fee_bps == b.fee_bps
    &&& a.escrow_count == b.escrow_count
    &&& a.auto_release_delay == b.auto_release_delay
    &&& a.dynamic_fee_enabled == b.dynamic_fee_enabled
    &&& a.liquidity_pool == b.liquidity_pool
}

proof fn lemma_paid_out_settings(env: EnvView, escrow: Escrow, amount: i128)
    ensures
        same_settings(env.storage, paid_out(env, escrow, amount).storage),
{
    reveal(same_settings);
    lemma_fee_asked(env);
}

proof fn lemma_released_settings(env: EnvView, escrow: Escrow, id: u64)
    ensures
        same_settings(env.storage, released(env, escrow, id).storage),
{
    lemma_paid_out_settings(env, escrow, escrow.amount);
    reveal(same_settings);
}

/// Paying out keeps the settings.
proof fn lemma_payout_settings(env: EnvView, call: Call)
    requires
        pays_out(call),
    ensures
        same_settings(env.storage, effect(env, call).storage),
{
    match call {
        Call::ReleaseFunds { id, .. } | Call::AdminRelease { id } | Call::TryAutoRelease {
            id,
        } => {
            lemma_released_settings(payout_start(env, call), env.storage.escrows[id], id);
        },
        Call::ReleasePartial { id, amount, .. } => {
            lemma_paid_out_settings(payout_start(env, call), env.storage.escrows[id], amount);
            reveal(same_settings);
        },
        Call::ResolveDispute { id, .. } => {
            lemma_released_settings(payout_start(env, call), env.storage.escrows[id], id);
            reveal(same_settings);
        },
        _ => {},
    }
}

/// The settings after a call.
pub(crate) proof fn lemma_settings(env: EnvView, call: Call)
    requires
        !(call is Initialize),
    ensures
        ({
            let (before, after) = (env.storage, effect(env, call).storage);
            &&& after.admin == before.admin
            &&& after.auto_release_delay == before.auto_release_delay
            &&& !(call is UpdateTreasury) ==> after.treasury == before.treasury
            &&& !(call is UpdateFee) ==> after.fee_bps == before.fee_bps
            &&& !(call is CreateEscrow) ==> after.escrow_count == before.escrow_count
            &&& !(call is SetDynamicFeeEnabled) ==> after.dynamic_fee_enabled
                == before.dynamic_fee_enabled
            &&& !(call is SetLiquidityPool) ==> after.liquidity_pool == before.liquidity_pool
            &&& !(call is GetDynamicFee || pays_out(call)) ==> after.price_cache
                == before.price_cache && after.price_cache_time == before.price_cache_time
        }),
{
    if pays_out(call) {
        lemma_payout_settings(env, call);
        reveal(same_settings);
    } else if call is GetDynamicFee {
        lemma_fee_asked(env);
    }
}

/// A call changes no entry that it does not write, and none where it is refused;
/// and it writes none on which it does not work.
pub proof fn law_other_entries_are_untouched(env: EnvView, call: Call, key: Key)
    ensures
        !writes(env, call, key) || refusal(env, call) is Some ==> same_entry(
            env.storage,
            step(env, call).storage,
            key,
        ),
        writes(env, call, key) ==> touches(env, call, key),
{
    reveal(step);
    if let Call::Initialize {
        admin,
        treasury,
        fee_bps,
        approved_tokens,
        auto_release_delay_secs,
    } = call {
        let set_up = initialized(
            env,
            admin,
            treasury,
            fee_bps,
            Seq::empty(),
            auto_release_delay_secs,
        );
        lemma_tokens_approved(set_up, approved_tokens);
    } else {
        lemma_maps(env, call);
        lemma_settings(env, call);
    }
}

/// Whether two states differ in nothing but their storages, and there in no
/// setting on which a call works.
#[verifier::opaque]
spec fn same_settings_for(a: EnvView, b: EnvView, call: Call) -> bool {
    &&& same_but_for_storage(a, b)
    &&& touches(a, call, Key::Admin) ==> a.storage.admin == b.storage.admin
    &&& touches(a, call, Key::Treasury) ==> a.storage.treasury == b.storage.treasury
    &&& touches(a, call, Key::FeeBps) ==> a.storage.fee_bps == b.storage.fee_bps
    &&& touches(a, call, Key::EscrowCount) ==> a.storage.escrow_count == b.storage.escrow_count
    &&& touches(a, call, Key::AutoReleaseDelay) ==> a.storage.auto_release_delay
        == b.storage.auto_release_delay
    &&& a.storage.price_cache == b.storage.price_cache
    &&& a.storage.price_cache_time == b.storage.price_cache_time
    &&& a.storage.dynamic_fee_enabled == b.storage.dynamic_fee_enabled
    &&& a.storage.liquidity_pool == b.storage.liquidity_pool
}

proof fn lemma_tokens_alike(a: EnvView, b: EnvView, call: Call, tokens: Seq<Address>)
    requires
        same_settings_for(a, b, call),
    ensures
        same_settings_for(a.tokens_approved(tokens), b.tokens_approved(tokens), call),
    decreases tokens.len(),
{
    reveal(same_settings_for);
    if tokens.len() > 0 {
        lemma_tokens_alike(a, b, call, tokens.drop_last());
    }
}

proof fn lemma_initialized_alike(a: EnvView, b: EnvView, call: Call)
    requires
        same_settings_for(a, b, call),
        call is Initialize,
    ensures
        same_settings_for(effect(a, call), effect(b, call), call),
{
    reveal(same_settings_for);
    if let Call::Initialize {
        admin,
        treasury,
        fee_bps,
        approved_tokens,
        auto_release_delay_secs,
    } = call {
        lemma_tokens_alike(
            initialized(a, admin, treasury, fee_bps, Seq::empty(), auto_release_delay_secs),
            initialized(b, admin, treasury, fee_bps, Seq::empty(), auto_release_delay_secs),
            call,
            approved_tokens,
        );
    }
}

proof fn lemma_paid_out_alike(a: EnvView, b: EnvView, call: Call, escrow: Escrow, amount: i128)
    requires
        same_settings_for(a, b, call),
        pays_out(call),
    ensures
        same_settings_for(paid_out(a, escrow, amount), paid_out(b, escrow, amount), call),
{
    reveal(same_settings_for);
}

proof fn lemma_released_alike(a: EnvView, b: EnvView, call: Call, escrow: Escrow, id: u64)
    requires
        same_settings_for(a, b, call),
        pays_out(call),
    ensures
        same_settings_for(released(a, escrow, id), released(b, escrow, id), call),
{
    lemma_paid_out_alike(a, b, call, escrow, escrow.amount);
    reveal(same_settings_for);
}

proof fn lemma_start_alike(a: EnvView, b: EnvView, call: Call)
    requires
        same_settings_for(a, b, call),
    ensures
        same_settings_for(payout_start(a, call), payout_start(b, call), call),
        payout_start(a, call).storage == a.storage,
        payout_start(b, call).storage == b.storage,
{
    reveal(same_settings_for);
}

proof fn lemma_refusal_alike(a: EnvView, b: EnvView, call: Call)
    requires
        alike(a, b, call),
    ensures
        refusal(a, call) == refusal(b, call),
        same_settings_for(a, b, call),
        subject(call) matches Some(id) ==> same_under(a.storage.escrows, b.storage.escrows, id),
        call matches Call::CreateEscrow { session_id, .. } ==> same_under(
            a.storage.sessions,
            b.storage.sessions,
            session_id,
        ),
{
    reveal(same_settings_for);
    let (x, y) = (a.storage, b.storage);
    assert(touches(a, call, Key::Admin) ==> same_entry(x, y, Key::Admin));
    assert(touches(a, call, Key::Treasury) ==> same_entry(x, y, Key::Treasury));
    assert(touches(a, call, Key::FeeBps) ==> same_entry(x, y, Key::FeeBps));
    assert(touches(a, call, Key::EscrowCount) ==> same_entry(x, y, Key::EscrowCount));
    assert(touches(a, call, Key::AutoReleaseDelay) ==> same_entry(x, y, Key::AutoReleaseDelay));
    assert(same_entry(x, y, Key::PriceCache) && same_entry(x, y, Key::PriceCacheTime));
    assert(same_entry(x, y, Key::DynamicFeeEnabled) && same_entry(x, y, Key::LiquidityPool));
    match call {
        Call::CreateEscrow { session_id, token, .. } => {
            assert(same_entry(x, y, Key::Session(session_id)));
            assert(same_entry(x, y, Key::ApprovedToken(token)));
        },
        _ => {
            if let Some(id) = subject(call) {
                assert(same_entry(x, y, Key::Escrow(id)));
            }
        },
    }
}

/// A call that pays out of an escrow does so alike in two states that have the
/// same settings for it.
proof fn lemma_payout_alike(a: EnvView, b: EnvView, call: Call, id: u64)
    requires
        same_settings_for(a, b, call),
        pays_out(call),
        subject(call) == Some(id),
        a.storage.escrows[id] == b.storage.escrows[id],
    ensures
        same_settings_for(effect(a, call), effect(b, call), call),
{
    let escrow = a.storage.escrows[id];
    let (x, y) = (payout_start(a, call), payout_start(b, call));
    lemma_start_alike(a, b, call);
    match call {
        Call::ReleaseFunds { .. } | Call::AdminRelease { .. } | Call::TryAutoRelease { .. } => {
            lemma_released_alike(x, y, call, escrow, id);
        },
        Call::ReleasePartial { amount, .. } => {
            lemma_paid_out_alike(x, y, call, escrow, amount);
            assert(same_settings_for(effect(a, call), effect(b, call), call)) by {
                reveal(same_settings_for);
            }
        },
        Call::ResolveDispute { release_to_mentor, .. } => {
            lemma_resolved_alike(a, b, id, release_to_mentor);
        },
        _ => {},
    }
}

/// The escrow that a call names decides, with the settings, what the call does.
proof fn lemma_effect_alike(a: EnvView, b: EnvView, call: Call)
    requires
        same_settings_for(a, b, call),
        refusal(a, call) is None,
        subject(call) matches Some(id) ==> a.storage.escrows.contains_key(id)
            && b.storage.escrows.contains_key(id) && a.storage.escrows[id]
            == b.storage.escrows[id],
    ensures
        same_settings_for(effect(a, call), effect(b, call), call),
{
    if call is Initialize {
        lemma_initialized_alike(a, b, call);
    } else if pays_out(call) {
        lemma_payout_alike(a, b, call, subject(call)->0);
    } else if let Call::ResolveDispute { id, release_to_mentor } = call {
        lemma_resolved_alike(a, b, id, release_to_mentor);
    } else {
        reveal(same_settings_for);
    }
}

proof fn lemma_given_back_alike(a: EnvView, b: EnvView, call: Call, escrow: Escrow)
    requires
        same_settings_for(a, b, call),
    ensures
        same_settings_for(
            a.paid(escrow, escrow.learner, escrow.amount),
            b.paid(escrow, escrow.learner, escrow.amount),
            call,
        ),
{
    reveal(same_settings_for);
}

proof fn lemma_announced_alike(
    a: EnvView,
    b: EnvView,
    call: Call,
    id: u64,
    escrow: Escrow,
    event: Event,
)
    requires
        same_settings_for(a, b, call),
    ensures
        same_settings_for(
            a.escrow_stored(id, escrow).logged(Action::Publish(event)),
            b.escrow_stored(id, escrow).logged(Action::Publish(event)),
            call,
        ),
{
    reveal(same_settings_for);
}

proof fn lemma_resolved_alike(a: EnvView, b: EnvView, id: u64, release_to_mentor: bool)
    requires
        same_settings_for(a, b, Call::ResolveDispute { id, release_to_mentor }),
        a.storage.escrows[id] == b.storage.escrows[id],
    ensures
        same_settings_for(
            dispute_resolved(a, id, release_to_mentor),
            dispute_resolved(b, id, release_to_mentor),
            Call::ResolveDispute { id, release_to_mentor },
        ),
{
    let call = Call::ResolveDispute { id, release_to_mentor };
    let escrow = a.storage.escrows[id];
    let settled = resolved_escrow(a, escrow, release_to_mentor);
    let (x, y) = (payout_start(a, call), payout_start(b, call));
    assert(settled == resolved_escrow(b, escrow, release_to_mentor) && a.timestamp == b.timestamp)
        by {
        reveal(same_settings_for);
    }
    lemma_start_alike(a, b, call);
    let resolved = Event::DisputeResolved {
        id,
        release_to_mentor,
        mentor_amount: settled.net_amount,
        learner_amount: settled.amount,
        token_address: escrow.token_address,
        time: a.timestamp,
    };
    if release_to_mentor {
        lemma_released_alike(x, y, call, escrow, id);
        lemma_announced_alike(
            released(x, escrow, id),
            released(y, escrow, id),
            call,
            id,
            settled,
            resolved,
        );
    } else {
        lemma_given_back_alike(x, y, call, escrow);
        lemma_announced_alike(
            x.paid(escrow, escrow.learner, escrow.amount),
            y.paid(escrow, escrow.learner, escrow.amount),
            call,
            id,
            settled,
            resolved,
        );
    }
}

/// A call decides by the entries on which it works alone: in two states that
/// have the same under these, it is refused alike, asks for the same host work,
/// and leaves the same under these.
pub proof fn law_touched_entries_decide(a: EnvView, b: EnvView, call: Call, key: Key)
    requires
        alike(a, b, call),
    ensures
        refusal(a, call) == refusal(b, call),
        same_but_for_storage(step(a, call), step(b, call)),
        touches(a, call, key) ==> same_entry(step(a, call).storage, step(b, call).storage, key),
{
    reveal(step);
    lemma_refusal_alike(a, b, call);
    if refusal(a, call) is Some {
        reveal(same_settings_for);
    } else {
        lemma_effect_alike(a, b, call);
        assert(same_but_for_storage(effect(a, call), effect(b, call))) by {
            reveal(same_settings_for);
        }
        if touches(a, call, key) {
            assert(same_entry(a.storage, b.storage, key));
            lemma_touched_alike(a, b, call, key);
        }
    }
}

/// What two calls that are alike leave under a key on which they work.
proof fn lemma_touched_alike(a: EnvView, b: EnvView, call: Call, key: Key)
    requires
        same_settings_for(a, b, call),
        same_settings_for(effect(a, call), effect(b, call), call),
        refusal(a, call) is None,
        refusal(b, call) is None,
        touches(a, call, key),
        same_entry(a.storage, b.storage, key),
        subject(call) matches Some(id) ==> same_under(a.storage.escrows, b.storage.escrows, id),
    ensures
        same_entry(effect(a, call).storage, effect(b, call).storage, key),
{
    if let Call::Initialize {
        admin,
        treasury,
        fee_bps,
        approved_tokens,
        auto_release_delay_secs,
    } = call {
        reveal(same_settings_for);
        lemma_tokens_approved(
            initialized(a, admin, treasury, fee_bps, Seq::empty(), auto_release_delay_secs),
            approved_tokens,
        );
        lemma_tokens_approved(
            initialized(b, admin, treasury, fee_bps, Seq::empty(), auto_release_delay_secs),
            approved_tokens,
        );
    } else if key is Session || key is ApprovedToken || key is Escrow || key is Review {
        lemma_maps(a, call);
        lemma_maps(b, call);
        reveal(same_settings_for);
    } else {
        lemma_settings(a, call);
        reveal(same_settings_for);
    }
}

} // verus!
