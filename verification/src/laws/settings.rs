//! Who decides on the settings, and that they are read back.
use crate::laws::calls::{refusal, step, Call};
use crate::env::EnvView;
use crate::laws::footprint::lemma_settings;
use crate::laws::lifecycle::lemma_maps;
use crate::model::{escrows_of, release_delay};
use crate::laws::soundness::{lemma_initialized, well_formed};
use crate::types::{Address, EscrowError, DEFAULT_AUTO_RELEASE_DELAY, MAX_FEE_BPS};
use vstd::prelude::*;

verus! {

/// Whether two states have the same settings.
pub open spec fn same_settings(a: EnvView, b: EnvView) -> bool {
    &&& a.storage.admin == b.storage.admin
    &&& a.storage.treasury == b.storage.treasury
    &&& a.storage.fee_bps == b.storage.fee_bps
    &&& a.storage.auto_release_delay == b.storage.auto_release_delay
    &&& a.storage.approved_tokens == b.storage.approved_tokens
    &&& a.storage.dynamic_fee_enabled == b.storage.dynamic_fee_enabled
    &&& a.storage.liquidity_pool == b.storage.liquidity_pool
}

/// Once the escrow is set up, its settings change only with the administrator's
/// authorization; the administrator and the release delay never do.
pub proof fn law_settings_are_the_administrators(env: EnvView, call: Call)
    requires
        env.storage.admin is Some,
    ensures
        step(env, call).storage.admin == env.storage.admin,
        step(env, call).storage.auto_release_delay == env.storage.auto_release_delay,
        !same_settings(step(env, call), env) ==> env.authorized(env.storage.admin->0),
{
    reveal(step);
    if refusal(env, call) is None {
        lemma_settings(env, call);
        lemma_maps(env, call);
    }
}

/// The escrow is set up once: after that, setting it up is refused, whatever is
/// called in between.
pub proof fn law_set_up_once(
    env: EnvView,
    call: Call,
    admin: Address,
    treasury: Address,
    fee_bps: u32,
    approved_tokens: Seq<Address>,
    auto_release_delay_secs: u64,
)
    requires
        env.storage.admin is Some,
    ensures
        refusal(
            step(env, call),
            Call::Initialize {
                admin,
                treasury,
                fee_bps,
                approved_tokens,
                auto_release_delay_secs,
            },
        ) == Some(EscrowError::AlreadyInitialized),
{
    law_settings_are_the_administrators(env, call);
}

/// Setting up is for everyone, once, with a fee of at most 10%; afterwards the
/// settings are those that were given, exactly the given tokens are approved,
/// and no escrow was opened.
pub proof fn law_set_up_is_read_back(
    env: EnvView,
    admin: Address,
    treasury: Address,
    fee_bps: u32,
    approved_tokens: Seq<Address>,
    auto_release_delay_secs: u64,
)
    requires
        well_formed(env.storage),
        env.storage.admin is None,
        fee_bps <= MAX_FEE_BPS,
    ensures
        ({
            let after = step(
                env,
                Call::Initialize {
                    admin,
                    treasury,
                    fee_bps,
                    approved_tokens,
                    auto_release_delay_secs,
                },
            );
            &&& after.storage.admin == Some(admin)
            &&& after.storage.treasury == Some(treasury)
            &&& after.storage.fee_bps == Some(fee_bps)
            &&& after.escrow_count() == 0
            &&& release_delay(after) == (if auto_release_delay_secs == 0 {
                DEFAULT_AUTO_RELEASE_DELAY
            } else {
                auto_release_delay_secs
            })
            &&& forall|token: Address| #[trigger]
                after.token_approved(token) <==> approved_tokens.contains(token)
        }),
{
    reveal(step);
    lemma_initialized(env, admin, treasury, fee_bps, approved_tokens, auto_release_delay_secs);
}

/// What the administrator sets is what is read afterwards.
pub proof fn law_settings_are_read_back(env: EnvView, call: Call)
    requires
        refusal(env, call) is None,
    ensures
        ({
            let after = step(env, call);
            match call {
                Call::UpdateFee { new_fee_bps } => after.storage.fee_bps == Some(new_fee_bps),
                Call::UpdateTreasury { new_treasury } => after.storage.treasury == Some(
                    new_treasury,
                ),
                Call::SetApprovedToken { token, approved } => after.token_approved(token)
                    == approved,
                Call::SetLiquidityPool { pool } => after.storage.liquidity_pool == Some(pool),
                Call::SetDynamicFeeEnabled { enabled } => after.dynamic_fee_on() == enabled,
                _ => true,
            }
        }),
{
    reveal(step);
}

/// A fee above 10% is refused, from whomever.
pub proof fn law_fees_above_the_maximum_are_refused(env: EnvView, new_fee_bps: u32)
    requires
        new_fee_bps > MAX_FEE_BPS,
    ensures
        refusal(env, Call::UpdateFee { new_fee_bps }) is Some,
{
}

/// The escrows with a mentor are listed completely: each of them once, by
/// increasing id, and none that is another mentor's.
pub proof fn law_listing_is_complete(env: EnvView, mentor: Address)
    requires
        well_formed(env.storage),
    ensures
        ({
            let escrows = env.storage.escrows;
            let listed = escrows_of(escrows, mentor, env.escrow_count() as int);
            &&& forall|i: int|
                #![trigger listed[i]]
                0 <= i < listed.len() ==> escrows.contains_key(listed[i].id)
                    && escrows[listed[i].id] == listed[i] && listed[i].mentor == mentor
            &&& forall|i: int, j: int|
                0 <= i < j < listed.len() ==> (#[trigger] listed[i]).id < (#[trigger] listed[j]).id
            &&& forall|id: u64| #[trigger]
                escrows.contains_key(id) && escrows[id].mentor == mentor ==> listed.contains(
                    escrows[id],
                )
        }),
{
    lemma_listing(env, mentor, env.escrow_count() as int);
}

proof fn lemma_listing(env: EnvView, mentor: Address, count: int)
    requires
        well_formed(env.storage),
        0 <= count <= env.escrow_count(),
    ensures
        ({
            let escrows = env.storage.escrows;
            let listed = escrows_of(escrows, mentor, count);
            &&& forall|i: int|
                #![trigger listed[i]]
                0 <= i < listed.len() ==> escrows.contains_key(listed[i].id)
                    && escrows[listed[i].id] == listed[i] && listed[i].mentor == mentor
                    && listed[i].id <= count
            &&& forall|i: int, j: int|
                0 <= i < j < listed.len() ==> (#[trigger] listed[i]).id < (#[trigger] listed[j]).id
            &&& forall|id: u64| #[trigger]
                escrows.contains_key(id) && id <= count && escrows[id].mentor == mentor
                    ==> listed.contains(escrows[id])
        }),
    decreases count,
{
    if count > 0 {
        lemma_listing(env, mentor, count - 1);
        let escrows = env.storage.escrows;
        let before = escrows_of(escrows, mentor, count - 1);
        let listed = escrows_of(escrows, mentor, count);
        let last = count as u64;
        assert(escrows.contains_key(last));
        assert forall|id: u64| #[trigger]
            escrows.contains_key(id) && id <= count && escrows[id].mentor
                == mentor implies listed.contains(escrows[id]) by {
            if id == last {
                assert(listed[listed.len() - 1] == escrows[id]);
            } else {
                assert(before.contains(escrows[id]));
                let i = before.index_of(escrows[id]);
                assert(listed[i] == escrows[id]);
            }
        }
    }
}

} // verus!
