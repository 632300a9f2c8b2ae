//! What becomes of the calls that are for setting up and for the administrator:
//! when each is refused, and all that it changes where it is not.
use crate::laws::calls::{refusal, step, Call};
use crate::env::{EnvView, StorageView};
use crate::laws::soundness::lemma_tokens_approved;
use crate::model::initialized;
use crate::types::{Action, Address, EscrowError, Key};
use vstd::prelude::*;

verus! {

/// Setting up is refused where it was done before, and with a fee above 10%, and
/// else never, whoever calls and whatever else is given.
pub proof fn law_who_can_set_up(
    env: EnvView,
    admin: Address,
    treasury: Address,
    fee_bps: u32,
    approved_tokens: Seq<Address>,
    auto_release_delay_secs: u64,
)
    ensures
        ({
            let reason = refusal(
                env,
                Call::Initialize {
                    admin,
                    treasury,
                    fee_bps,
                    approved_tokens,
                    auto_release_delay_secs,
                },
            );
            &&& env.storage.admin is Some <==> reason == Some(EscrowError::AlreadyInitialized)
            &&& env.storage.admin is None && fee_bps > 1_000 <==> reason == Some(
                EscrowError::FeeTooHigh,
            )
            &&& env.storage.admin is None && fee_bps <= 1_000 <==> reason is None
        }),
{
}

/// Approving tokens asks, for each of them in turn, that it is written and
/// extended.
proof fn lemma_tokens_log(env: EnvView, tokens: Seq<Address>)
    ensures
        ({
            let after = env.tokens_approved(tokens);
            let n = env.log.len() as int;
            &&& after.log.len() == n + 2 * tokens.len()
            &&& forall|i: int| 0 <= i < n ==> #[trigger] after.log[i] == env.log[i]
            &&& forall|i: int|
                #![trigger tokens[i]]
                0 <= i < tokens.len() ==> after.log[n + 2 * i] == Action::Store(
                    Key::ApprovedToken(tokens[i]),
                ) && after.log[n + 2 * i + 1] == Action::ExtendTtl(Key::ApprovedToken(tokens[i]))
        }),
    decreases tokens.len(),
{
    if tokens.len() > 0 {
        let front = tokens.drop_last();
        lemma_tokens_log(env, front);
        let halfway = env.tokens_approved(front);
        let after = env.tokens_approved(tokens);
        let n = env.log.len() as int;
        let last = tokens.last();
        assert(after.log == halfway.log.push(Action::Store(Key::ApprovedToken(last))).push(
            Action::ExtendTtl(Key::ApprovedToken(last)),
        ));
        assert forall|i: int|
            #![trigger tokens[i]]
            0 <= i < tokens.len() implies after.log[n + 2 * i] == Action::Store(
            Key::ApprovedToken(tokens[i]),
        ) && after.log[n + 2 * i + 1] == Action::ExtendTtl(Key::ApprovedToken(tokens[i])) by {
            if i < front.len() {
                assert(front[i] == tokens[i]);
            }
        }
    }
}

/// Setting up stores what was given: the administrator, the treasury and the fee
/// as they are, the delay, or 72 hours for none, and a count of 0. The tokens
/// that were named are approved, and what is stored of others stays. Nothing
/// else is stored. All of it is written and extended, in this order.
pub proof fn law_what_setting_up_stores(
    env: EnvView,
    admin: Address,
    treasury: Address,
    fee_bps: u32,
    approved_tokens: Seq<Address>,
    auto_release_delay_secs: u64,
    token: Address,
    i: int,
)
    requires
        env.storage.admin is None,
        fee_bps <= 1_000,
    ensures
        ({
            let after = step(
                env,
                Call::Initialize {
                    admin,
                    treasury,
                    fee_bps,
                    approved_tokens,
                    auto_release_delay_secs,
                },
            );
            let n = env.log.len() as int;
            &&& after.storage == (StorageView {
                admin: Some(admin),
                treasury: Some(treasury),
                fee_bps: Some(fee_bps),
                escrow_count: Some(0),
                auto_release_delay: Some(
                    if auto_release_delay_secs == 0 {
                        259_200
                    } else {
                        auto_release_delay_secs
                    },
                ),
                approved_tokens: after.storage.approved_tokens,
                ..env.storage
            })
            &&& approved_tokens.contains(token) ==> after.storage.approved_tokens.dom().contains(
                token,
            ) && after.storage.approved_tokens[token]
            &&& !approved_tokens.contains(token) ==> after.storage.approved_tokens.dom().contains(
                token,
            ) == env.storage.approved_tokens.dom().contains(token)
                && after.storage.approved_tokens[token] == env.storage.approved_tokens[token]
            &&& after.log.len() == n + 10 + 2 * approved_tokens.len()
            &&& after.log.take(n + 10) == env.log + seq![
                Action::Store(Key::Admin),
                Action::ExtendTtl(Key::Admin),
                Action::Store(Key::Treasury),
                Action::ExtendTtl(Key::Treasury),
                Action::Store(Key::FeeBps),
                Action::ExtendTtl(Key::FeeBps),
                Action::Store(Key::EscrowCount),
                Action::ExtendTtl(Key::EscrowCount),
                Action::Store(Key::AutoReleaseDelay),
                Action::ExtendTtl(Key::AutoReleaseDelay),
            ]
            &&& 0 <= i < approved_tokens.len() ==> after.log[n + 10 + 2 * i] == Action::Store(
                Key::ApprovedToken(approved_tokens[i]),
            ) && after.log[n + 11 + 2 * i] == Action::ExtendTtl(
                Key::ApprovedToken(approved_tokens[i]),
            )
        }),
{
    reveal(step);
    let set_up = initialized(
        env,
        admin,
        treasury,
        fee_bps,
        Seq::empty(),
        auto_release_delay_secs,
    );
    let after = set_up.tokens_approved(approved_tokens);
    lemma_tokens_approved(set_up, approved_tokens);
    lemma_tokens_log(set_up, approved_tokens);
    assert(after.log.take(env.log.len() as int + 10) =~= set_up.log);
    assert(after.storage.approved_tokens.contains_key(token)
        || !after.storage.approved_tokens.contains_key(token));
}

/// A setting is refused before the set-up, and without the administrator's
/// authorization, and else never; only a fee has to be at most 10% besides.
pub proof fn law_who_can_change_settings(env: EnvView, call: Call)
    requires
        call is UpdateFee || call is SetLiquidityPool || call is SetDynamicFeeEnabled
            || call is UpdateTreasury || call is SetApprovedToken,
    ensures
        match env.storage.admin {
            None => refusal(env, call) == Some(EscrowError::NotInitialized),
            Some(admin) => if !env.authorizers.contains(admin) {
                refusal(env, call) == Some(EscrowError::AuthRequired(admin))
            } else {
                match call {
                    Call::UpdateFee { new_fee_bps } => if new_fee_bps > 1_000 {
                        refusal(env, call) == Some(EscrowError::FeeTooHigh)
                    } else {
                        refusal(env, call) is None
                    },
                    _ => refusal(env, call) is None,
                }
            },
        },
{
}

/// A new fee is stored as it is given, and nothing else is.
pub proof fn law_what_a_new_fee_changes(env: EnvView, new_fee_bps: u32)
    requires
        refusal(env, Call::UpdateFee { new_fee_bps }) is None,
    ensures
        ({
            let after = step(env, Call::UpdateFee { new_fee_bps });
            &&& after.storage == (StorageView { fee_bps: Some(new_fee_bps), ..env.storage })
            &&& after.log == env.log + seq![
                Action::ExtendTtl(Key::Admin),
                Action::Store(Key::FeeBps),
                Action::ExtendTtl(Key::FeeBps),
            ]
        }),
{
    reveal(step);
}

/// A new treasury is stored as it is given, and nothing else is.
pub proof fn law_what_a_new_treasury_changes(env: EnvView, new_treasury: Address)
    requires
        refusal(env, Call::UpdateTreasury { new_treasury }) is None,
    ensures
        ({
            let after = step(env, Call::UpdateTreasury { new_treasury });
            &&& after.storage == (StorageView { treasury: Some(new_treasury), ..env.storage })
            &&& after.log == env.log + seq![
                Action::ExtendTtl(Key::Admin),
                Action::Store(Key::Treasury),
                Action::ExtendTtl(Key::Treasury),
            ]
        }),
{
    reveal(step);
}

/// An approval, or its end, is stored as it is given, for the token that is
/// named, and nothing else is.
pub proof fn law_what_an_approval_changes(env: EnvView, token: Address, approved: bool)
    requires
        refusal(env, Call::SetApprovedToken { token, approved }) is None,
    ensures
        ({
            let after = step(env, Call::SetApprovedToken { token, approved });
            &&& after.storage == (StorageView {
                approved_tokens: env.storage.approved_tokens.insert(token, approved),
                ..env.storage
            })
            &&& after.log == env.log + seq![
                Action::ExtendTtl(Key::Admin),
                Action::Store(Key::ApprovedToken(token)),
                Action::ExtendTtl(Key::ApprovedToken(token)),
            ]
        }),
{
    reveal(step);
}

/// A pool is stored as it is given, and nothing else is.
pub proof fn law_what_a_new_pool_changes(env: EnvView, pool: Address)
    requires
        refusal(env, Call::SetLiquidityPool { pool }) is None,
    ensures
        ({
            let after = step(env, Call::SetLiquidityPool { pool });
            &&& after.storage == (StorageView { liquidity_pool: Some(pool), ..env.storage })
            &&& after.log == env.log + seq![Action::Store(Key::LiquidityPool)]
        }),
{
    reveal(step);
}

/// The switch of the dynamic fee is stored as it is given, and nothing else is.
pub proof fn law_what_the_switch_changes(env: EnvView, enabled: bool)
    requires
        refusal(env, Call::SetDynamicFeeEnabled { enabled }) is None,
    ensures
        ({
            let after = step(env, Call::SetDynamicFeeEnabled { enabled });
            &&& after.storage == (StorageView {
                dynamic_fee_enabled: Some(enabled),
                ..env.storage
            })
            &&& after.log == env.log + seq![Action::Store(Key::DynamicFeeEnabled)]
        }),
{
    reveal(step);
}

} // verus!
