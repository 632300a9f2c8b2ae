//! The deposits that the contract keeps, and that they are there.
use crate::laws::calls::{effect, payout_start, refusal, step, Call};
use crate::env::EnvView;
use crate::laws::soundness::{is_open, lemma_drawn, lemma_initialized, lemma_split, well_formed};
use crate::model::{
    dispute_resolved, disputed_escrow, escrow_created, initialized, next_id, new_escrow,
    paid_out, partly_released, partly_released_escrow, refunded_escrow, released,
    released_escrow, resolved_escrow,
};
use crate::types::{Action, Address, Escrow, Symbol};
use vstd::prelude::*;

verus! {

/// What a piece of host work adds to what `contract` has of a token.
pub open spec fn inflow(action: Action, contract: Address, token: Address) -> int {
    match action {
        Action::Transfer { token: moved, from, to, amount } => if moved == token {
            (if to == contract {
                amount as int
            } else {
                0
            }) - (if from == contract {
                amount as int
            } else {
                0
            })
        } else {
            0
        },
        _ => 0,
    }
}

/// What `contract` has of a token after the host work in `log`.
pub open spec fn held(log: Seq<Action>, contract: Address, token: Address) -> int
    decreases log.len(),
{
    if log.len() == 0 {
        0
    } else {
        held(log.drop_last(), contract, token) + inflow(log.last(), contract, token)
    }
}

pub broadcast proof fn lemma_held_push(
    log: Seq<Action>,
    action: Action,
    contract: Address,
    token: Address,
)
    ensures
        #[trigger] held(log.push(action), contract, token) == held(log, contract, token) + inflow(
            action,
            contract,
            token,
        ),
{
    assert(log.push(action).drop_last() =~= log);
}

/// What the contract still has to give, of a token, for the escrow under `id`.
pub open spec fn worth(escrows: Map<u64, Escrow>, id: u64, token: Address) -> int {
    if escrows.contains_key(id) && is_open(escrows[id]) && escrows[id].token_address == token {
        escrows[id].amount as int
    } else {
        0
    }
}

/// What the contract still has to give, of a token, for the escrows with ids 1
/// to `count`.
pub open spec fn owed(escrows: Map<u64, Escrow>, token: Address, count: int) -> int
    decreases count,
{
    if count <= 0 {
        0
    } else {
        owed(escrows, token, count - 1) + worth(escrows, count as u64, token)
    }
}

/// Whether the contract has what it still has to give, of every token.
pub open spec fn covered(env: EnvView) -> bool {
    forall|token: Address| #[trigger]
        owed(env.storage.escrows, token, env.escrow_count() as int) <= held(
            env.log,
            env.contract_address,
            token,
        )
}

/// Whether the contract has exactly what it still has to give, of every token.
pub open spec fn balanced(env: EnvView) -> bool {
    forall|token: Address| #[trigger]
        owed(env.storage.escrows, token, env.escrow_count() as int) == held(
            env.log,
            env.contract_address,
            token,
        )
}

/// Whether neither the treasury nor a party of an escrow is the contract
/// itself.
pub open spec fn outsiders_only(env: EnvView) -> bool {
    &&& env.storage.treasury != Some(env.contract_address)
    &&& forall|id: u64| #[trigger]
        env.storage.escrows.contains_key(id) ==> env.storage.escrows[id].mentor
            != env.contract_address && env.storage.escrows[id].learner != env.contract_address
}

/// Replacing one escrow changes what is owed by the difference in its worth.
proof fn lemma_owed_replaced(
    escrows: Map<u64, Escrow>,
    id: u64,
    escrow: Escrow,
    token: Address,
    count: int,
)
    requires
        count <= u64::MAX,
    ensures
        owed(escrows.insert(id, escrow), token, count) == owed(escrows, token, count) + (if 1 <= id
            <= count {
            worth(escrows.insert(id, escrow), id, token) - worth(escrows, id, token)
        } else {
            0
        }),
    decreases count,
{
    if count > 0 {
        lemma_owed_replaced(escrows, id, escrow, token, count - 1);
    }
}

/// How a call moves the books of one token: what was paid in or out, and what
/// is owed more or less.
spec fn books_move(before: EnvView, after: EnvView, token: Address) -> bool {
    let paid = held(after.log, after.contract_address, token) - held(
        before.log,
        before.contract_address,
        token,
    );
    let due = owed(after.storage.escrows, token, after.escrow_count() as int) - owed(
        before.storage.escrows,
        token,
        before.escrow_count() as int,
    );
    &&& after.contract_address == before.contract_address
    &&& due <= paid
    &&& outsiders_only(before) && outsiders_only(after) ==> due == paid
}

/// Paying out a part of an open escrow takes no more from the contract than
/// that part.
proof fn lemma_paid_out(env: EnvView, escrow: Escrow, amount: i128, token: Address)
    requires
        well_formed(env.storage),
        env.storage.treasury is Some,
        0 < amount,
    ensures
        ({
            let after = paid_out(env, escrow, amount);
            let part = if escrow.token_address == token {
                amount as int
            } else {
                0
            };
            let paid = held(env.log, env.contract_address, token) - held(
                after.log,
                env.contract_address,
                token,
            );
            &&& after.contract_address == env.contract_address
            &&& after.storage.escrows == env.storage.escrows
            &&& after.storage.escrow_count == env.storage.escrow_count
            &&& after.storage.treasury == env.storage.treasury
            &&& paid <= part
            &&& env.storage.treasury != Some(env.contract_address) && escrow.mentor
                != env.contract_address ==> paid == part
        }),
{
    broadcast use lemma_held_push;

    lemma_split(env, amount);
}

/// Releasing the rest of an open escrow takes no more from what is held than
/// from what is owed.
proof fn lemma_released_books(env: EnvView, id: u64, token: Address)
    requires
        well_formed(env.storage),
        env.storage.treasury is Some,
        env.storage.escrows.contains_key(id),
        is_open(env.storage.escrows[id]),
    ensures
        books_move(env, released(env, env.storage.escrows[id], id), token),
{
    broadcast use lemma_held_push;

    let escrow = env.storage.escrows[id];
    lemma_paid_out(env, escrow, escrow.amount, token);
    lemma_drawn(env, id, escrow, escrow.amount);
    lemma_owed_replaced(
        env.storage.escrows,
        id,
        released_escrow(env, escrow),
        token,
        env.escrow_count() as int,
    );
}

proof fn lemma_partly_released_books(
    env: EnvView,
    caller: Address,
    id: u64,
    amount: i128,
    token: Address,
)
    requires
        well_formed(env.storage),
        env.storage.treasury is Some,
        env.storage.escrows.contains_key(id),
        is_open(env.storage.escrows[id]),
        0 < amount <= env.storage.escrows[id].amount,
    ensures
        books_move(env, partly_released(env, id, amount), token),
{
    broadcast use lemma_held_push;

    let escrow = env.storage.escrows[id];
    let ready = payout_start(env, Call::ReleasePartial { caller, id, amount });
    lemma_paid_out(ready, escrow, amount, token);
    lemma_drawn(env, id, escrow, amount);
    lemma_owed_replaced(
        env.storage.escrows,
        id,
        partly_released_escrow(env, escrow, amount),
        token,
        env.escrow_count() as int,
    );
}

proof fn lemma_resolved_books(env: EnvView, id: u64, release_to_mentor: bool, token: Address)
    requires
        well_formed(env.storage),
        env.storage.treasury is Some,
        env.storage.escrows.contains_key(id),
        is_open(env.storage.escrows[id]),
    ensures
        books_move(env, dispute_resolved(env, id, release_to_mentor), token),
{
    broadcast use lemma_held_push;

    let escrow = env.storage.escrows[id];
    let settled = resolved_escrow(env, escrow, release_to_mentor);
    let count = env.escrow_count() as int;
    let ready = payout_start(env, Call::ResolveDispute { id, release_to_mentor });
    lemma_owed_replaced(env.storage.escrows, id, settled, token, count);
    if release_to_mentor {
        lemma_paid_out(ready, escrow, escrow.amount, token);
        let released_first = released_escrow(env, escrow);
        assert(env.storage.escrows.insert(id, released_first).insert(id, settled)
            =~= env.storage.escrows.insert(id, settled));
    }
}

proof fn lemma_created_books(
    env: EnvView,
    mentor: Address,
    learner: Address,
    amount: i128,
    session_id: Symbol,
    token_address: Address,
    session_end_time: u64,
    token: Address,
)
    requires
        well_formed(env.storage),
        env.escrow_count() < u64::MAX,
        learner != env.contract_address,
    ensures
        books_move(
            env,
            escrow_created(
                env,
                mentor,
                learner,
                amount,
                session_id,
                token_address,
                session_end_time,
            ),
            token,
        ),
{
    broadcast use lemma_held_push;

    let id = next_id(env);
    let escrow = new_escrow(
        env,
        mentor,
        learner,
        amount,
        session_id,
        token_address,
        session_end_time,
    );
    assert(!env.storage.escrows.contains_key(id));
    lemma_owed_replaced(env.storage.escrows, id, escrow, token, env.escrow_count() as int);
}

proof fn lemma_tokens_approved_books(env: EnvView, tokens: Seq<Address>, token: Address)
    ensures
        env.tokens_approved(tokens).contract_address == env.contract_address,
        held(env.tokens_approved(tokens).log, env.contract_address, token) == held(
            env.log,
            env.contract_address,
            token,
        ),
    decreases tokens.len(),
{
    broadcast use lemma_held_push;

    if tokens.len() > 0 {
        lemma_tokens_approved_books(env, tokens.drop_last(), token);
    }
}

proof fn lemma_owed_by_nobody(escrows: Map<u64, Escrow>, token: Address, count: int)
    requires
        forall|id: u64| !#[trigger] escrows.contains_key(id),
    ensures
        owed(escrows, token, count) == 0,
    decreases count,
{
    if count > 0 {
        lemma_owed_by_nobody(escrows, token, count - 1);
    }
}

proof fn lemma_initialized_books(
    env: EnvView,
    admin: Address,
    treasury: Address,
    fee_bps: u32,
    approved_tokens: Seq<Address>,
    auto_release_delay_secs: u64,
    token: Address,
)
    requires
        well_formed(env.storage),
        env.storage.admin is None,
    ensures
        books_move(
            env,
            initialized(env, admin, treasury, fee_bps, approved_tokens, auto_release_delay_secs),
            token,
        ),
{
    broadcast use lemma_held_push;

    let set_up = initialized(
        env,
        admin,
        treasury,
        fee_bps,
        Seq::empty(),
        auto_release_delay_secs,
    );
    lemma_initialized(
        env,
        admin,
        treasury,
        fee_bps,
        approved_tokens,
        auto_release_delay_secs,
    );
    lemma_tokens_approved_books(set_up, approved_tokens, token);
    lemma_owed_by_nobody(env.storage.escrows, token, 0);
}

/// A call moves the books of every token so that what the contract has follows
/// what it owes.
proof fn lemma_books(env: EnvView, call: Call, token: Address)
    requires
        well_formed(env.storage),
        refusal(env, call) is None,
        call matches Call::CreateEscrow { learner, .. } ==> learner != env.contract_address,
    ensures
        books_move(env, effect(env, call), token),
{
    broadcast use lemma_held_push;

    match call {
        Call::Initialize {
            admin,
            treasury,
            fee_bps,
            approved_tokens,
            auto_release_delay_secs,
        } => {
            lemma_initialized_books(
                env,
                admin,
                treasury,
                fee_bps,
                approved_tokens,
                auto_release_delay_secs,
                token,
            );
        },
        Call::CreateEscrow {
            mentor,
            learner,
            amount,
            session_id,
            token: token_address,
            session_end_time,
        } => {
            lemma_created_books(
                env,
                mentor,
                learner,
                amount,
                session_id,
                token_address,
                session_end_time,
                token,
            );
        },
        Call::ReleaseFunds { id, .. } | Call::AdminRelease { id } | Call::TryAutoRelease {
            id,
        } => {
            lemma_released_books(payout_start(env, call), id, token);
        },
        Call::ReleasePartial { caller, id, amount } => {
            lemma_partly_released_books(env, caller, id, amount, token);
        },
        Call::Dispute { caller, id, reason } => {
            lemma_owed_replaced(
                env.storage.escrows,
                id,
                disputed_escrow(env.storage.escrows[id], reason),
                token,
                env.escrow_count() as int,
            );
        },
        Call::ResolveDispute { id, release_to_mentor } => {
            lemma_resolved_books(env, id, release_to_mentor, token);
        },
        Call::Refund { id } => {
            lemma_owed_replaced(
                env.storage.escrows,
                id,
                refunded_escrow(env.storage.escrows[id]),
                token,
                env.escrow_count() as int,
            );
        },
        _ => {},
    }
}

/// Every deposit is there until it was given out: of every token the contract
/// has at least what all open escrows have left. Whoever opens an escrow has to
/// be another than the contract: a deposit from the contract to itself brings
/// nothing in.
pub proof fn law_deposits_stay_covered(env: EnvView, call: Call)
    requires
        well_formed(env.storage),
        covered(env),
        call matches Call::CreateEscrow { learner, .. } ==> learner != env.contract_address,
    ensures
        covered(step(env, call)),
{
    reveal(step);
    if refusal(env, call) is None {
        let after = effect(env, call);
        assert forall|token: Address| #[trigger]
            owed(after.storage.escrows, token, after.escrow_count() as int) <= held(
                after.log,
                after.contract_address,
                token,
            ) by {
            lemma_books(env, call, token);
            assert(owed(env.storage.escrows, token, env.escrow_count() as int) <= held(
                env.log,
                env.contract_address,
                token,
            ));
        }
    }
}

/// Where the contract itself is neither the treasury nor a party, nothing stays
/// behind either: of every token it has exactly what all open escrows have
/// left.
pub proof fn law_books_stay_balanced(env: EnvView, call: Call)
    requires
        well_formed(env.storage),
        balanced(env),
        outsiders_only(env),
        outsiders_only(step(env, call)),
    ensures
        balanced(step(env, call)),
{
    reveal(step);
    if refusal(env, call) is None {
        let after = effect(env, call);
        if call is CreateEscrow {
            assert(after.storage.escrows.contains_key(next_id(env)));
        }
        assert forall|token: Address| #[trigger]
            owed(after.storage.escrows, token, after.escrow_count() as int) == held(
                after.log,
                after.contract_address,
                token,
            ) by {
            lemma_books(env, call, token);
            assert(owed(env.storage.escrows, token, env.escrow_count() as int) == held(
                env.log,
                env.contract_address,
                token,
            ));
        }
    }
}

} // verus!
