//! What holds of the storage after any calls.
use crate::laws::calls::{effect, payout_start, refusal, step, Call};
use crate::env::{EnvView, StorageView};
use crate::model::{
    create_escrow_refusal, dispute_resolved, disputed_escrow, drawn, escrow_created, fee_due,
    initialized, net_due, next_id, partly_released, partly_released_escrow,
    refunded_escrow, release_partial_refusal, released, released_escrow,
    resolve_dispute_refusal, resolved_escrow,
};
use crate::types::{
    Address, Escrow, EscrowStatus, Symbol, DEFAULT_AUTO_RELEASE_DELAY, MAX_FEE_BPS,
};
use vstd::prelude::*;

verus! {

/// Whether the contract still has the rest of the escrow's deposit to give.
pub open spec fn is_open(escrow: Escrow) -> bool {
    escrow.status == EscrowStatus::Active || escrow.status == EscrowStatus::Disputed
}

/// What holds of the escrow under `id`: it is booked under its own id, nothing
/// in it is negative, an open one has something left, of a deposit that is an
/// amount, a released one has nothing left, and only a resolved one was resolved
/// at some time.
pub open spec fn sound(id: u64, escrow: Escrow) -> bool {
    &&& escrow.id == id
    &&& 0 <= escrow.amount
    &&& 0 <= escrow.platform_fee
    &&& 0 <= escrow.net_amount
    &&& is_open(escrow) ==> 0 < escrow.amount && escrow.amount + escrow.platform_fee
        + escrow.net_amount <= i128::MAX
    &&& escrow.status == EscrowStatus::Released ==> escrow.amount == 0
    &&& escrow.resolved_at != 0 ==> escrow.status == EscrowStatus::Resolved
}

/// Whether the escrow was set up: either all of its settings are there, or
/// none, and then it holds nothing.
pub open spec fn configured(s: StorageView) -> bool {
    if s.admin is Some {
        s.treasury is Some && s.fee_bps is Some && s.escrow_count is Some
            && s.auto_release_delay is Some
    } else {
        &&& s.treasury is None && s.fee_bps is None && s.escrow_count is None
            && s.auto_release_delay is None
        &&& forall|token: Address| !#[trigger] s.approved_tokens.contains_key(token)
    }
}

/// What holds of the storage after any calls.
pub open spec fn well_formed(s: StorageView) -> bool {
    let count = match s.escrow_count {
        Some(count) => count,
        None => 0,
    };
    &&& configured(s)
    &&& s.fee_bps matches Some(fee) ==> fee <= MAX_FEE_BPS
    &&& s.price_cache is Some <==> s.price_cache_time is Some
    // the ids are 1 to the count
    &&& forall|id: u64| #[trigger] s.escrows.contains_key(id) <==> 1 <= id <= count
    &&& forall|id: u64| #[trigger] s.escrows.contains_key(id) ==> sound(id, s.escrows[id])
    // every escrow has a session of its own
    &&& forall|id: u64| #[trigger]
        s.escrows.contains_key(id) ==> s.sessions.contains_key(s.escrows[id].session_id)
    &&& forall|i: u64, j: u64|
        #![trigger s.escrows.contains_key(i), s.escrows.contains_key(j)]
        s.escrows.contains_key(i) && s.escrows.contains_key(j) && i != j
            ==> s.escrows[i].session_id != s.escrows[j].session_id
    // what has a review was released
    &&& forall|id: u64| #[trigger]
        s.reviews.contains_key(id) ==> s.escrows.contains_key(id) && s.escrows[id].status
            == EscrowStatus::Released
}

/// Asking for the fee leaves it what it is, and keeps all but the price.
pub(crate) proof fn lemma_fee_asked(env: EnvView)
    ensures
        env.fee_asked().current_fee() == env.current_fee(),
        env.fee_asked().storage == (StorageView {
            price_cache: env.fee_asked().storage.price_cache,
            price_cache_time: env.fee_asked().storage.price_cache_time,
            ..env.storage
        }),
        well_formed(env.storage) ==> well_formed(env.fee_asked().storage),
{
}

/// Replacing an escrow that has no review by a sound one of the same session
/// keeps the storage well-formed.
pub(crate) proof fn lemma_escrow_replaced(s: StorageView, id: u64, escrow: Escrow)
    requires
        well_formed(s),
        s.escrows.contains_key(id),
        sound(id, escrow),
        escrow.session_id == s.escrows[id].session_id,
        s.reviews.contains_key(id) ==> escrow.status == EscrowStatus::Released,
    ensures
        well_formed(StorageView { escrows: s.escrows.insert(id, escrow), ..s }),
{
}

/// Of a positive amount the fee is at most a tenth and not negative, and the
/// mentor's part is positive.
pub(crate) proof fn lemma_split(env: EnvView, amount: i128)
    requires
        well_formed(env.storage),
        0 < amount,
    ensures
        env.current_fee() <= MAX_FEE_BPS,
        0 <= fee_due(env, amount),
        10 * fee_due(env, amount) <= amount,
        0 < net_due(env, amount),
        fee_due(env, amount) + net_due(env, amount) == amount,
{
    let bps = env.current_fee() as int;
    assert(bps <= MAX_FEE_BPS);
    assert(0 <= amount * bps <= amount * 1000) by (nonlinear_arith)
        requires
            0 <= bps <= 1000,
            0 < amount,
    ;
    assert(0 <= (amount * bps) / 10_000 && 10 * ((amount * bps) / 10_000) <= amount);
}

/// Taking from an open escrow what it has leaves its sum the same, and the
/// rest sound.
pub(crate) proof fn lemma_drawn(env: EnvView, id: u64, escrow: Escrow, amount: i128)
    requires
        well_formed(env.storage),
        sound(id, escrow),
        is_open(escrow),
        0 < amount <= escrow.amount,
    ensures
        ({
            let left = drawn(env, escrow, amount);
            &&& left.amount == escrow.amount - amount
            &&& left.platform_fee == escrow.platform_fee + fee_due(env, amount)
            &&& left.net_amount == escrow.net_amount + net_due(env, amount)
            &&& 0 <= left.platform_fee
            &&& 0 <= left.net_amount
            &&& left.amount + left.platform_fee + left.net_amount == escrow.amount
                + escrow.platform_fee + escrow.net_amount
        }),
{
    lemma_split(env, amount);
}

/// Releasing an open escrow keeps the storage well-formed.
pub(crate) proof fn lemma_released_well_formed(env: EnvView, id: u64)
    requires
        well_formed(env.storage),
        env.storage.escrows.contains_key(id),
        is_open(env.storage.escrows[id]),
    ensures
        well_formed(released(env, env.storage.escrows[id], id).storage),
        released(env, env.storage.escrows[id], id).storage.escrows
            == env.storage.escrows.insert(id, released_escrow(env, env.storage.escrows[id])),
        released(env, env.storage.escrows[id], id).storage.reviews == env.storage.reviews,
{
    let escrow = env.storage.escrows[id];
    lemma_fee_asked(env);
    lemma_drawn(env, id, escrow, escrow.amount);
    lemma_escrow_replaced(env.fee_asked().storage, id, released_escrow(env, escrow));
}

/// Approving tokens makes these approved, and changes nothing else of the
/// storage, nor the ledger.
pub(crate) proof fn lemma_tokens_approved(env: EnvView, tokens: Seq<Address>)
    ensures
        ({
            let before = env.storage.approved_tokens;
            let after = env.tokens_approved(tokens).storage.approved_tokens;
            &&& env.tokens_approved(tokens).sequence == env.sequence
            &&& env.tokens_approved(tokens).storage == (StorageView {
                approved_tokens: after,
                ..env.storage
            })
            &&& forall|token: Address|
                #![trigger after.contains_key(token)]
                #![trigger after[token]]
                if tokens.contains(token) {
                    after.contains_key(token) && after[token]
                } else {
                    after.contains_key(token) == before.contains_key(token) && after[token]
                        == before[token]
                }
        }),
    decreases tokens.len(),
{
    if tokens.len() > 0 {
        let front = tokens.drop_last();
        lemma_tokens_approved(env, front);
        let before = env.storage.approved_tokens;
        let halfway = env.tokens_approved(front).storage.approved_tokens;
        let after = env.tokens_approved(tokens).storage.approved_tokens;
        assert forall|token: Address|
            #![trigger after.contains_key(token)]
            #![trigger after[token]]
            if tokens.contains(token) {
                after.contains_key(token) && after[token]
            } else {
                after.contains_key(token) == before.contains_key(token) && after[token]
                    == before[token]
            } by {
            assert(halfway.contains_key(token) || !halfway.contains_key(token));
            if tokens.contains(token) && token != tokens.last() {
                let i = tokens.index_of(token);
                assert(front[i] == token);
            }
            if front.contains(token) {
                let i = front.index_of(token);
                assert(tokens[i] == token);
            }
        }
    }
}

/// The storage is well-formed before the first call, and every call keeps it
/// so: the settings are there together or not at all, the fee is at most 10%,
/// the ids count up from 1 without a gap, every session has one escrow at most,
/// no amount is negative, open escrows have something left and released ones
/// nothing, only released escrows have a review, and only resolved ones a time
/// at which they were resolved.
pub proof fn law_storage_stays_well_formed(env: EnvView, call: Call)
    ensures
        well_formed(StorageView::empty()),
        well_formed(env.storage) ==> well_formed(step(env, call).storage),
{
    reveal(step);
    if well_formed(env.storage) && refusal(env, call) is None {
        lemma_effect_well_formed(env, call);
    }
}

/// What setting up leaves in the storage.
pub(crate) proof fn lemma_initialized(
    env: EnvView,
    admin: Address,
    treasury: Address,
    fee_bps: u32,
    approved_tokens: Seq<Address>,
    auto_release_delay_secs: u64,
)
    ensures
        ({
            let after = initialized(
                env,
                admin,
                treasury,
                fee_bps,
                approved_tokens,
                auto_release_delay_secs,
            );
            &&& after.storage == (StorageView {
                admin: Some(admin),
                treasury: Some(treasury),
                fee_bps: Some(fee_bps),
                escrow_count: Some(0),
                auto_release_delay: after.storage.auto_release_delay,
                approved_tokens: after.storage.approved_tokens,
                ..env.storage
            })
            &&& after.storage.auto_release_delay == Some(
                if auto_release_delay_secs == 0 {
                    DEFAULT_AUTO_RELEASE_DELAY
                } else {
                    auto_release_delay_secs
                },
            )
            &&& forall|token: Address| #[trigger]
                after.token_approved(token) <==> approved_tokens.contains(token)
                    || env.token_approved(token)
        }),
{
    let set_up = initialized(
        env,
        admin,
        treasury,
        fee_bps,
        Seq::empty(),
        auto_release_delay_secs,
    );
    assert(forall|token: Address|
        set_up.token_approved(token) == #[trigger] env.token_approved(token));
    lemma_tokens_approved(set_up, approved_tokens);
}

pub(crate) proof fn lemma_created_well_formed(
    env: EnvView,
    mentor: Address,
    learner: Address,
    amount: i128,
    session_id: Symbol,
    token: Address,
    session_end_time: u64,
)
    requires
        well_formed(env.storage),
        create_escrow_refusal(env, learner, amount, session_id, token) is None,
    ensures
        well_formed(
            escrow_created(
                env,
                mentor,
                learner,
                amount,
                session_id,
                token,
                session_end_time,
            ).storage,
        ),
{
    let s = env.storage;
    let id = next_id(env);
    assert(!s.escrows.contains_key(id));
    assert(s.admin is Some) by {
        if s.admin is None {
            assert(!s.approved_tokens.contains_key(token));
        }
    }
    let after = escrow_created(
        env,
        mentor,
        learner,
        amount,
        session_id,
        token,
        session_end_time,
    ).storage;
    assert forall|i: u64| #[trigger] after.escrows.contains_key(i) implies sound(
        i,
        after.escrows[i],
    ) && after.sessions.contains_key(after.escrows[i].session_id) by {
        assert(i == id || s.escrows.contains_key(i));
    }
    assert forall|i: u64, j: u64|
        #![trigger after.escrows.contains_key(i), after.escrows.contains_key(j)]
        after.escrows.contains_key(i) && after.escrows.contains_key(j) && i
            != j implies after.escrows[i].session_id != after.escrows[j].session_id by {
        assert(i == id || s.escrows.contains_key(i));
        assert(j == id || s.escrows.contains_key(j));
    }
}

pub(crate) proof fn lemma_partly_released_well_formed(env: EnvView, caller: Address, id: u64, amount: i128)
    requires
        well_formed(env.storage),
        release_partial_refusal(env, caller, id, amount) is None,
    ensures
        well_formed(partly_released(env, id, amount).storage),
{
    let escrow = env.storage.escrows[id];
    let ready = payout_start(env, Call::ReleasePartial { caller, id, amount });
    lemma_fee_asked(ready);
    lemma_drawn(env, id, escrow, amount);
    lemma_escrow_replaced(
        ready.fee_asked().storage,
        id,
        partly_released_escrow(env, escrow, amount),
    );
}

pub(crate) proof fn lemma_resolved_well_formed(env: EnvView, id: u64, release_to_mentor: bool)
    requires
        well_formed(env.storage),
        resolve_dispute_refusal(env, id, release_to_mentor) is None,
    ensures
        well_formed(dispute_resolved(env, id, release_to_mentor).storage),
{
    let escrow = env.storage.escrows[id];
    let ready = payout_start(env, Call::ResolveDispute { id, release_to_mentor });
    let settled = resolved_escrow(env, escrow, release_to_mentor);
    if release_to_mentor {
        lemma_released_well_formed(ready, id);
        lemma_drawn(env, id, escrow, escrow.amount);
        lemma_escrow_replaced(released(ready, escrow, id).storage, id, settled);
    } else {
        lemma_escrow_replaced(env.storage, id, settled);
    }
}

pub(crate) proof fn lemma_effect_well_formed(env: EnvView, call: Call)
    requires
        well_formed(env.storage),
        refusal(env, call) is None,
    ensures
        well_formed(effect(env, call).storage),
{
    match call {
        Call::Initialize {
            admin,
            treasury,
            fee_bps,
            approved_tokens,
            auto_release_delay_secs,
        } => {
            lemma_initialized(
                env,
                admin,
                treasury,
                fee_bps,
                approved_tokens,
                auto_release_delay_secs,
            );
        },
        Call::CreateEscrow { mentor, learner, amount, session_id, token, session_end_time } => {
            lemma_created_well_formed(
                env,
                mentor,
                learner,
                amount,
                session_id,
                token,
                session_end_time,
            );
        },
        Call::ReleaseFunds { id, .. } | Call::AdminRelease { id } | Call::TryAutoRelease {
            id,
        } => {
            lemma_released_well_formed(payout_start(env, call), id);
        },
        Call::ReleasePartial { caller, id, amount } => {
            lemma_partly_released_well_formed(env, caller, id, amount);
        },
        Call::Dispute { caller, id, reason } => {
            lemma_escrow_replaced(
                env.storage,
                id,
                disputed_escrow(env.storage.escrows[id], reason),
            );
        },
        Call::ResolveDispute { id, release_to_mentor } => {
            lemma_resolved_well_formed(env, id, release_to_mentor);
        },
        Call::Refund { id } => {
            lemma_escrow_replaced(env.storage, id, refunded_escrow(env.storage.escrows[id]));
        },
        Call::GetDynamicFee => {
            lemma_fee_asked(env);
        },
        _ => {},
    }
}

} // verus!
