//! What is promised of the host work that calls decide on.
use crate::laws::calls::{effect, payout_start, refusal, step, Call};
use crate::env::{EnvView, StorageView};
use crate::laws::lifecycle::subject;
use crate::model::{initialized, paid_out, released};
use crate::laws::soundness::{
    is_open, lemma_fee_asked, lemma_initialized, lemma_split, well_formed,
};
use crate::types::{Action, Address, Key};
use vstd::prelude::*;

verus! {

/// Whether the storage has an entry under the key.
pub open spec fn has_entry(s: StorageView, key: Key) -> bool {
    match key {
        Key::Admin => s.admin is Some,
        Key::Treasury => s.treasury is Some,
        Key::FeeBps => s.fee_bps is Some,
        Key::EscrowCount => s.escrow_count is Some,
        Key::AutoReleaseDelay => s.auto_release_delay is Some,
        Key::Session(session_id) => s.sessions.contains_key(session_id),
        Key::ApprovedToken(token) => s.approved_tokens.contains_key(token),
        Key::Escrow(id) => s.escrows.contains_key(id),
        Key::Review(id) => s.reviews.contains_key(id),
        Key::PriceCache => s.price_cache is Some,
        Key::PriceCacheTime => s.price_cache_time is Some,
        Key::DynamicFeeEnabled => s.dynamic_fee_enabled is Some,
        Key::LiquidityPool => s.liquidity_pool is Some,
    }
}

/// Whether a transfer is one that the call stands for: the learner's deposit
/// into a new escrow, or a part of what an open escrow has left, in its token,
/// from the contract to the mentor, the learner or the treasury.
pub open spec fn due_transfer(
    env: EnvView,
    call: Call,
    token: Address,
    from: Address,
    to: Address,
    amount: i128,
) -> bool {
    ||| (call matches Call::CreateEscrow { learner, amount: deposit, token: deposited, .. }
        && token == deposited && from == learner && to == env.contract_address && amount
        == deposit)
    ||| (subject(call) matches Some(id) && env.storage.escrows.contains_key(id) && {
        let escrow = env.storage.escrows[id];
        &&& is_open(escrow)
        &&& token == escrow.token_address
        &&& from == env.contract_address
        &&& to == escrow.mentor || to == escrow.learner || Some(to) == env.storage.treasury
        &&& 0 < amount <= escrow.amount
    })
}

/// Whether a call has reason to ask for a piece of host work: a transfer is due,
/// and an entry that is to be written or extended is there.
pub open spec fn fitting(env: EnvView, call: Call, action: Action) -> bool {
    let after = effect(env, call).storage;
    match action {
        Action::Store(key) => has_entry(after, key),
        Action::ExtendTtl(key) => has_entry(after, key),
        Action::Transfer { token, from, to, amount } => due_transfer(
            env,
            call,
            token,
            from,
            to,
            amount,
        ),
        Action::Publish(_) => true,
    }
}

/// Whether `state` is on the way from `env` through a call: the surroundings are
/// the same but for the storage, and for fitting host work that was added.
#[verifier::opaque]
spec fn underway(env: EnvView, call: Call, state: EnvView) -> bool {
    &&& state.contract_address == env.contract_address
    &&& state.sequence == env.sequence
    &&& state.timestamp == env.timestamp
    &&& state.authorizers == env.authorizers
    &&& state.balances == env.balances
    &&& env.log.len() <= state.log.len()
    &&& forall|i: int| 0 <= i < env.log.len() ==> #[trigger] state.log[i] == env.log[i]
    &&& forall|i: int|
        env.log.len() <= i < state.log.len() ==> fitting(env, call, #[trigger] state.log[i])
}

proof fn lemma_underway_at_first(env: EnvView, call: Call)
    ensures
        underway(env, call, env),
{
    reveal(underway);
}

broadcast proof fn lemma_underway_logged(env: EnvView, call: Call, state: EnvView, action: Action)
    requires
        underway(env, call, state),
        fitting(env, call, action),
    ensures
        #[trigger] underway(env, call, state.logged(action)),
{
    reveal(underway);
}

broadcast proof fn lemma_underway_stored(
    env: EnvView,
    call: Call,
    state: EnvView,
    storage: StorageView,
)
    requires
        underway(env, call, state),
    ensures
        #[trigger] underway(env, call, state.with_storage(storage)),
{
    reveal(underway);
}

proof fn lemma_tokens_underway(env: EnvView, call: Call, state: EnvView, tokens: Seq<Address>)
    requires
        underway(env, call, state),
        forall|token: Address| #[trigger]
            tokens.contains(token) ==> effect(env, call).storage.approved_tokens.contains_key(
                token,
            ),
    ensures
        underway(env, call, state.tokens_approved(tokens)),
    decreases tokens.len(),
{
    broadcast use {lemma_underway_logged, lemma_underway_stored};

    if tokens.len() > 0 {
        let front = tokens.drop_last();
        assert forall|token: Address| #[trigger]
            front.contains(token) implies tokens.contains(token) by {
            let i = front.index_of(token);
            assert(tokens[i] == token);
        }
        lemma_tokens_underway(env, call, state, front);
        assert(tokens.contains(tokens.last()));
    }
}

/// Paying out an amount that is due is fitting.
proof fn lemma_paid_out_underway(
    env: EnvView,
    call: Call,
    state: EnvView,
    id: u64,
    amount: i128,
)
    requires
        well_formed(env.storage),
        underway(env, call, state),
        state.storage == env.storage,
        state.sequence == env.sequence,
        state.contract_address == env.contract_address,
        subject(call) == Some(id),
        env.storage.escrows.contains_key(id),
        is_open(env.storage.escrows[id]),
        env.storage.treasury is Some,
        0 < amount <= env.storage.escrows[id].amount,
        has_entry(effect(env, call).storage, Key::Treasury),
        env.fee_asked().storage.price_cache is Some ==> has_entry(
            effect(env, call).storage,
            Key::PriceCache,
        ) && has_entry(effect(env, call).storage, Key::PriceCacheTime),
    ensures
        underway(env, call, paid_out(state, env.storage.escrows[id], amount)),
{
    broadcast use {lemma_underway_logged, lemma_underway_stored};

    lemma_split(env, amount);
    assert(underway(env, call, state.fee_asked()));
}

proof fn lemma_released_underway(env: EnvView, call: Call, state: EnvView, id: u64)
    requires
        well_formed(env.storage),
        underway(env, call, state),
        state.storage == env.storage,
        state.sequence == env.sequence,
        state.contract_address == env.contract_address,
        subject(call) == Some(id),
        env.storage.escrows.contains_key(id),
        is_open(env.storage.escrows[id]),
        env.storage.treasury is Some,
        has_entry(effect(env, call).storage, Key::Treasury),
        has_entry(effect(env, call).storage, Key::Escrow(id)),
        env.fee_asked().storage.price_cache is Some ==> has_entry(
            effect(env, call).storage,
            Key::PriceCache,
        ) && has_entry(effect(env, call).storage, Key::PriceCacheTime),
    ensures
        underway(env, call, released(state, env.storage.escrows[id], id)),
{
    broadcast use {lemma_underway_logged, lemma_underway_stored};

    lemma_paid_out_underway(env, call, state, id, env.storage.escrows[id].amount);
}

/// A call that is not refused asks for fitting host work only.
proof fn lemma_effect_underway(env: EnvView, call: Call)
    requires
        well_formed(env.storage),
        refusal(env, call) is None,
    ensures
        underway(env, call, effect(env, call)),
{
    broadcast use {lemma_underway_logged, lemma_underway_stored};

    lemma_underway_at_first(env, call);
    lemma_fee_asked(env);
    match call {
        Call::Initialize {
            admin,
            treasury,
            fee_bps,
            approved_tokens,
            auto_release_delay_secs,
        } => {
            lemma_initialized(
                env,
                admin,
                treasury,
                fee_bps,
                approved_tokens,
                auto_release_delay_secs,
            );
            let set_up = initialized(
                env,
                admin,
                treasury,
                fee_bps,
                Seq::empty(),
                auto_release_delay_secs,
            );
            assert(underway(env, call, set_up));
            assert forall|token: Address| #[trigger]
                approved_tokens.contains(
                    token,
                ) implies effect(env, call).storage.approved_tokens.contains_key(token) by {
                assert(effect(env, call).token_approved(token));
            }
            lemma_tokens_underway(env, call, set_up, approved_tokens);
        },
        Call::ReleaseFunds { id, .. } | Call::AdminRelease { id } | Call::TryAutoRelease {
            id,
        } => {
            lemma_released_underway(env, call, payout_start(env, call), id);
        },
        Call::ReleasePartial { id, amount, .. } => {
            lemma_paid_out_underway(env, call, payout_start(env, call), id, amount);
        },
        Call::ResolveDispute { id, release_to_mentor } => {
            if release_to_mentor {
                lemma_released_underway(env, call, payout_start(env, call), id);
            }
        },
        Call::CreateEscrow { token, .. } => {
            assert(env.storage.approved_tokens.contains_key(token));
        },
        _ => {},
    }
}

/// A call does not change whose contract it is, nor the setting in which it is
/// made, and takes back no host work that was decided on before.
pub proof fn law_calls_only_add(env: EnvView, call: Call)
    requires
        well_formed(env.storage),
    ensures
        step(env, call).contract_address == env.contract_address,
        step(env, call).sequence == env.sequence,
        step(env, call).timestamp == env.timestamp,
        step(env, call).authorizers == env.authorizers,
        step(env, call).balances == env.balances,
        env.log.is_prefix_of(step(env, call).log),
{
    reveal(step);
    reveal(underway);
    if refusal(env, call) is None {
        lemma_effect_underway(env, call);
    }
}

/// Tokens move in no other way than they are due.
pub proof fn law_only_due_transfers(env: EnvView, call: Call, i: int)
    requires
        well_formed(env.storage),
        env.log.len() <= i < step(env, call).log.len(),
    ensures
        step(env, call).log[i] matches Action::Transfer { token, from, to, amount }
            ==> due_transfer(env, call, token, from, to, amount),
{
    reveal(step);
    reveal(underway);
    if refusal(env, call) is None {
        lemma_effect_underway(env, call);
        assert(fitting(env, call, effect(env, call).log[i]));
    }
}

/// Host work is only ever asked for on entries that are there: what is to be
/// written has a value, and what is to be extended was written.
pub proof fn law_host_work_is_on_entries(env: EnvView, call: Call, i: int)
    requires
        well_formed(env.storage),
        env.log.len() <= i < step(env, call).log.len(),
    ensures
        step(env, call).log[i] matches Action::Store(key) ==> has_entry(
            step(env, call).storage,
            key,
        ),
        step(env, call).log[i] matches Action::ExtendTtl(key) ==> has_entry(
            step(env, call).storage,
            key,
        ),
{
    reveal(step);
    reveal(underway);
    if refusal(env, call) is None {
        lemma_effect_underway(env, call);
        assert(fitting(env, call, effect(env, call).log[i]));
    }
}

} // verus!
