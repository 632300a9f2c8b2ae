//! How escrows change, and who can change them.
use crate::laws::calls::{effect, payout_start, refusal, step, Call};
use crate::env::EnvView;
use crate::model::{
    dispute_resolved, disputed_escrow, new_escrow, next_id, partly_released_escrow,
    refunded_escrow, released, released_escrow, resolved_escrow,
};
use crate::laws::soundness::{is_open, lemma_drawn, lemma_initialized, well_formed};
use crate::types::{Action, Address, Escrow, EscrowStatus, Symbol};
use vstd::prelude::*;

verus! {

/// The escrow that a call works on, if it works on one that is there.
pub open spec fn subject(call: Call) -> Option<u64> {
    match call {
        Call::ReleaseFunds { id, .. } => Some(id),
        Call::ReleasePartial { id, .. } => Some(id),
        Call::AdminRelease { id } => Some(id),
        Call::TryAutoRelease { id } => Some(id),
        Call::Dispute { id, .. } => Some(id),
        Call::ResolveDispute { id, .. } => Some(id),
        Call::Refund { id } => Some(id),
        Call::SubmitReview { id, .. } => Some(id),
        Call::GetEscrow { id } => Some(id),
        _ => None,
    }
}

/// What becomes of an escrow in a call that works on it and is not refused.
pub open spec fn turned(env: EnvView, call: Call, escrow: Escrow) -> Escrow {
    match call {
        Call::ReleaseFunds { .. } => released_escrow(env, escrow),
        Call::AdminRelease { .. } => released_escrow(env, escrow),
        Call::TryAutoRelease { .. } => released_escrow(env, escrow),
        Call::ReleasePartial { amount, .. } => partly_released_escrow(env, escrow, amount),
        Call::Dispute { reason, .. } => disputed_escrow(escrow, reason),
        Call::ResolveDispute { release_to_mentor, .. } => resolved_escrow(
            env,
            escrow,
            release_to_mentor,
        ),
        Call::Refund { .. } => refunded_escrow(escrow),
        _ => escrow,
    }
}

proof fn lemma_released_maps(env: EnvView, id: u64)
    ensures
        ({
            let escrow = env.storage.escrows[id];
            let after = released(env, escrow, id).storage;
            &&& after.escrows == env.storage.escrows.insert(id, released_escrow(env, escrow))
            &&& after.sessions == env.storage.sessions
            &&& after.approved_tokens == env.storage.approved_tokens
            &&& after.reviews == env.storage.reviews
        }),
{
}

proof fn lemma_resolved_maps(env: EnvView, id: u64, release_to_mentor: bool)
    ensures
        ({
            let escrow = env.storage.escrows[id];
            let after = dispute_resolved(env, id, release_to_mentor).storage;
            &&& after.escrows == env.storage.escrows.insert(
                id,
                resolved_escrow(env, escrow, release_to_mentor),
            )
            &&& after.sessions == env.storage.sessions
            &&& after.approved_tokens == env.storage.approved_tokens
            &&& after.reviews == env.storage.reviews
        }),
{
    let escrow = env.storage.escrows[id];
    let settled = resolved_escrow(env, escrow, release_to_mentor);
    assert(env.storage.escrows.insert(id, released_escrow(env, escrow)).insert(id, settled)
        =~= env.storage.escrows.insert(id, settled));
    lemma_released_maps(payout_start(env, Call::ResolveDispute { id, release_to_mentor }), id);
}

/// The maps in the storage after a call.
#[verifier::rlimit(40)]
pub(crate) proof fn lemma_maps(env: EnvView, call: Call)
    requires
        !(call is Initialize),
    ensures
        effect(env, call).storage.escrows == (match call {
            Call::CreateEscrow {
                mentor,
                learner,
                amount,
                session_id,
                token,
                session_end_time,
            } => env.storage.escrows.insert(
                next_id(env),
                new_escrow(env, mentor, learner, amount, session_id, token, session_end_time),
            ),
            _ => match subject(call) {
                Some(id) => if call is SubmitReview || call is GetEscrow {
                    env.storage.escrows
                } else {
                    env.storage.escrows.insert(id, turned(env, call, env.storage.escrows[id]))
                },
                None => env.storage.escrows,
            },
        }),
        effect(env, call).storage.sessions == (match call {
            Call::CreateEscrow { session_id, .. } => env.storage.sessions.insert(session_id, true),
            _ => env.storage.sessions,
        }),
        effect(env, call).storage.approved_tokens == (match call {
            Call::SetApprovedToken { token, approved } => env.storage.approved_tokens.insert(
                token,
                approved,
            ),
            _ => env.storage.approved_tokens,
        }),
        effect(env, call).storage.reviews == (match call {
            Call::SubmitReview { id, reason, .. } => env.storage.reviews.insert(id, reason),
            _ => env.storage.reviews,
        }),
{
    match call {
        Call::ReleaseFunds { id, .. } | Call::AdminRelease { id } | Call::TryAutoRelease {
            id,
        } => {
            lemma_released_maps(payout_start(env, call), id);
        },
        Call::ResolveDispute { id, release_to_mentor } => {
            lemma_resolved_maps(env, id, release_to_mentor);
        },
        _ => {},
    }
}

/// An escrow after a call: changed where the call works on it.
proof fn lemma_turned(env: EnvView, call: Call, id: u64)
    requires
        well_formed(env.storage),
        refusal(env, call) is None,
        env.storage.escrows.contains_key(id),
    ensures
        effect(env, call).storage.escrows.contains_key(id),
        effect(env, call).storage.escrows[id] == (if subject(call) == Some(id) {
            turned(env, call, env.storage.escrows[id])
        } else {
            env.storage.escrows[id]
        }),
{
    if call is Initialize {
        assert(env.storage.escrow_count is None);
    } else {
        lemma_maps(env, call);
    }
}

/// A call changes no escrow but the one that it names.
pub proof fn law_other_escrows_are_untouched(env: EnvView, call: Call, id: u64)
    requires
        well_formed(env.storage),
        env.storage.escrows.contains_key(id),
        subject(call) != Some(id),
    ensures
        step(env, call).storage.escrows.contains_key(id),
        step(env, call).storage.escrows[id] == env.storage.escrows[id],
{
    reveal(step);
    if refusal(env, call) is None {
        lemma_turned(env, call, id);
    }
}

/// What was released, refunded or resolved stays as it is: no call changes it
/// again, and none pays it out a second time.
pub proof fn law_settled_escrows_are_final(env: EnvView, call: Call, id: u64)
    requires
        well_formed(env.storage),
        env.storage.escrows.contains_key(id),
        !is_open(env.storage.escrows[id]),
    ensures
        step(env, call).storage.escrows.contains_key(id),
        step(env, call).storage.escrows[id] == env.storage.escrows[id],
        subject(call) == Some(id) && refusal(env, call) is None ==> call is SubmitReview
            || call is GetEscrow,
{
    reveal(step);
    if refusal(env, call) is None {
        lemma_turned(env, call, id);
    }
}

/// Whether an escrow can go from one status to another in one call.
pub open spec fn status_can_follow(before: EscrowStatus, after: EscrowStatus) -> bool {
    match before {
        EscrowStatus::Active => after != EscrowStatus::Resolved,
        EscrowStatus::Disputed => after == EscrowStatus::Disputed || after
            == EscrowStatus::Resolved || after == EscrowStatus::Refunded,
        _ => after == before,
    }
}

/// An active escrow is released, disputed or refunded, a disputed one is
/// resolved or refunded, and nothing else ever happens to the status.
pub proof fn law_status_only_advances(env: EnvView, call: Call, id: u64)
    requires
        well_formed(env.storage),
        env.storage.escrows.contains_key(id),
    ensures
        status_can_follow(
            env.storage.escrows[id].status,
            step(env, call).storage.escrows[id].status,
        ),
{
    reveal(step);
    if refusal(env, call) is None {
        lemma_turned(env, call, id);
    }
}

/// Whether two states of an escrow are on the same terms.
pub open spec fn same_terms(before: Escrow, after: Escrow) -> bool {
    &&& after.id == before.id
    &&& after.mentor == before.mentor
    &&& after.learner == before.learner
    &&& after.session_id == before.session_id
    &&& after.created_at == before.created_at
    &&& after.token_address == before.token_address
    &&& after.session_end_time == before.session_end_time
    &&& after.auto_release_delay == before.auto_release_delay
}

/// The terms of an escrow are fixed when it is opened.
pub proof fn law_terms_are_fixed(env: EnvView, call: Call, id: u64)
    requires
        well_formed(env.storage),
        env.storage.escrows.contains_key(id),
    ensures
        step(env, call).storage.escrows.contains_key(id),
        same_terms(env.storage.escrows[id], step(env, call).storage.escrows[id]),
{
    reveal(step);
    if refusal(env, call) is None {
        lemma_turned(env, call, id);
    }
}

/// What an escrow has left never grows. Together with what went to the platform
/// and to the mentor it stays the deposit, except where this escrow's dispute is
/// resolved for the learner: that books the rest as fee and leaves it standing.
pub proof fn law_deposit_is_accounted_for(env: EnvView, call: Call, id: u64)
    requires
        well_formed(env.storage),
        env.storage.escrows.contains_key(id),
    ensures
        ({
            let before = env.storage.escrows[id];
            let after = step(env, call).storage.escrows[id];
            &&& after.amount <= before.amount
            &&& !(call == (Call::ResolveDispute { id, release_to_mentor: false }) && refusal(
                env,
                call,
            ) is None) ==> after.amount + after.platform_fee + after.net_amount == before.amount
                + before.platform_fee + before.net_amount
        }),
{
    reveal(step);
    let escrow = env.storage.escrows[id];
    if refusal(env, call) is None {
        lemma_turned(env, call, id);
        if is_open(escrow) {
            lemma_drawn(env, id, escrow, escrow.amount);
            if let Call::ReleasePartial { amount, .. } = call {
                if subject(call) == Some(id) {
                    lemma_drawn(env, id, escrow, amount);
                }
            }
        }
    }
}

/// Whether an escrow accounts for a deposit: what it has left and what went to
/// the platform and to the mentor make up the deposit. The one exception is a
/// dispute that was resolved for the learner: what went back is part of the
/// deposit, and is booked as what is left and as fee.
pub open spec fn accounts_for(escrow: Escrow, deposit: int) -> bool {
    ||| escrow.amount + escrow.platform_fee + escrow.net_amount == deposit
    ||| escrow.status == EscrowStatus::Resolved && 0 < escrow.amount <= deposit
        && escrow.platform_fee == escrow.amount && escrow.net_amount == 0
}

/// An escrow that accounts for a deposit does so after every call.
pub(crate) proof fn lemma_accounts(env: EnvView, call: Call, id: u64, deposit: int)
    requires
        well_formed(env.storage),
        env.storage.escrows.contains_key(id),
        accounts_for(env.storage.escrows[id], deposit),
    ensures
        accounts_for(step(env, call).storage.escrows[id], deposit),
{
    reveal(step);
    law_deposit_is_accounted_for(env, call, id);
    if refusal(env, call) is None {
        lemma_turned(env, call, id);
    }
}

/// Escrows change only with the consent of those who have a say: a release
/// needs the learner, the administrator, or the time after which the escrow
/// releases itself; a dispute needs the mentor or the learner; a refund and the
/// end of a dispute need the administrator.
pub proof fn law_changes_need_consent(env: EnvView, call: Call, id: u64)
    requires
        well_formed(env.storage),
        env.storage.escrows.contains_key(id),
        step(env, call).storage.escrows[id] != env.storage.escrows[id],
    ensures
        ({
            let before = env.storage.escrows[id];
            let after = step(env, call).storage.escrows[id];
            let by_learner = env.authorizers.contains(before.learner);
            let by_mentor = env.authorizers.contains(before.mentor);
            let by_admin = env.storage.admin is Some && env.authorizers.contains(
                env.storage.admin->0,
            );
            match after.status {
                EscrowStatus::Disputed => by_mentor || by_learner,
                EscrowStatus::Refunded => by_admin,
                EscrowStatus::Resolved => by_admin,
                _ => by_learner || by_admin || env.timestamp >= before.session_end_time
                    + before.auto_release_delay,
            }
        }),
{
    reveal(step);
    lemma_turned(env, call, id);
}

/// Escrows are numbered in the order in which they are opened: a call that
/// opens one takes the next number, and no other call changes the count.
pub proof fn law_ids_count_up(env: EnvView, call: Call)
    requires
        well_formed(env.storage),
    ensures
        step(env, call).escrow_count() == (if call is CreateEscrow && refusal(env, call) is None {
            env.escrow_count() + 1
        } else {
            env.escrow_count() as int
        }),
{
    reveal(step);
    if let Call::Initialize {
        admin,
        treasury,
        fee_bps,
        approved_tokens,
        auto_release_delay_secs,
    } = call {
        lemma_initialized(
            env,
            admin,
            treasury,
            fee_bps,
            approved_tokens,
            auto_release_delay_secs,
        );
    }
}

/// A new escrow can be read back: it is under the next id, active, with the
/// whole deposit left, and with the parties and the terms of the call.
pub proof fn law_new_escrow_is_found(
    env: EnvView,
    mentor: Address,
    learner: Address,
    amount: i128,
    session_id: Symbol,
    token: Address,
    session_end_time: u64,
)
    requires
        refusal(
            env,
            Call::CreateEscrow { mentor, learner, amount, session_id, token, session_end_time },
        ) is None,
    ensures
        ({
            let after = step(
                env,
                Call::CreateEscrow { mentor, learner, amount, session_id, token, session_end_time },
            );
            let id = next_id(env);
            &&& refusal(after, Call::GetEscrow { id }) is None
            &&& after.storage.escrows[id] == new_escrow(
                env,
                mentor,
                learner,
                amount,
                session_id,
                token,
                session_end_time,
            )
            &&& is_open(after.storage.escrows[id])
        }),
{
    reveal(step);
}

/// A session has one escrow at most: once one was opened for it, no call makes
/// it free again, and opening another is refused.
pub proof fn law_sessions_are_used_once(
    env: EnvView,
    call: Call,
    mentor: Address,
    learner: Address,
    amount: i128,
    session_id: Symbol,
    token: Address,
    session_end_time: u64,
)
    requires
        env.storage.sessions.contains_key(session_id),
    ensures
        step(env, call).storage.sessions.contains_key(session_id),
        refusal(
            env,
            Call::CreateEscrow { mentor, learner, amount, session_id, token, session_end_time },
        ) is Some,
{
    reveal(step);
    if let Call::Initialize {
        admin,
        treasury,
        fee_bps,
        approved_tokens,
        auto_release_delay_secs,
    } = call {
        lemma_initialized(
            env,
            admin,
            treasury,
            fee_bps,
            approved_tokens,
            auto_release_delay_secs,
        );
    }
}

/// No deposit is locked in: the administrator can always give an open escrow
/// back, whatever it holds, and what goes back is all that it has left.
pub proof fn law_open_escrows_can_be_refunded(env: EnvView, id: u64)
    requires
        env.storage.escrows.contains_key(id),
        is_open(env.storage.escrows[id]),
        env.storage.admin is Some,
        env.authorized(env.storage.admin->0),
    ensures
        ({
            let escrow = env.storage.escrows[id];
            let after = step(env, Call::Refund { id });
            &&& refusal(env, Call::Refund { id }) is None
            &&& after.storage.escrows[id].status == EscrowStatus::Refunded
            &&& after.log.contains(
                Action::Transfer {
                    token: escrow.token_address,
                    from: env.contract_address,
                    to: escrow.learner,
                    amount: escrow.amount,
                },
            )
        }),
{
    reveal(step);
    let after = step(env, Call::Refund { id });
    assert(after.log[env.log.len() as int + 2] is Transfer);
}

} // verus!
