//! Disputes, refunds and reviews: when they are refused, when they have to
//! succeed, and all that they do.
use crate::laws::calls::{payout_start, refusal, step, Call};
use crate::env::{EnvView, StorageView};
use crate::laws::reading::priced;
use crate::laws::releasing::{
    fee_part, law_what_can_be_stuck, lemma_parts, lemma_paying, paying, stuck,
};
use crate::laws::soundness::well_formed;
use crate::types::{
    Action, Address, DisputeOpenedEventData, Escrow, EscrowError, EscrowRefundedEventData,
    EscrowReleasedEventData, EscrowStatus, Event, Key, ReviewSubmittedEventData, Symbol,
};
use vstd::prelude::*;

verus! {

/// A dispute is refused for these reasons, in this order, and for no other: the
/// mentor and the learner of an active escrow can dispute it at any time, for
/// any reason.
pub proof fn law_who_can_dispute(env: EnvView, caller: Address, id: u64, reason: Symbol)
    ensures
        ({
            let escrow = env.storage.escrows[id];
            refusal(env, Call::Dispute { caller, id, reason }) == (
            if !env.storage.escrows.dom().contains(id) {
                Some(EscrowError::EscrowNotFound)
            } else if escrow.status != EscrowStatus::Active {
                Some(EscrowError::NotActive)
            } else if !env.authorizers.contains(caller) {
                Some(EscrowError::AuthRequired(caller))
            } else if caller == escrow.mentor || caller == escrow.learner {
                None
            } else {
                Some(EscrowError::CallerCannotDispute)
            })
        }),
{
}

/// A dispute stores the reason as it is given, with the escrow as disputed, and
/// nothing else. It moves no token, and announces who disputes, and why.
pub proof fn law_what_a_dispute_does(env: EnvView, caller: Address, id: u64, reason: Symbol)
    requires
        refusal(env, Call::Dispute { caller, id, reason }) is None,
    ensures
        ({
            let escrow = env.storage.escrows[id];
            let after = step(env, Call::Dispute { caller, id, reason });
            &&& after.storage == (StorageView {
                escrows: env.storage.escrows.insert(
                    id,
                    Escrow {
                        status: EscrowStatus::Disputed,
                        dispute_reason: reason,
                        ..escrow
                    },
                ),
                ..env.storage
            })
            &&& after.log == env.log + seq![
                Action::ExtendTtl(Key::Escrow(id)),
                Action::Store(Key::Escrow(id)),
                Action::Publish(
                    Event::DisputeOpened {
                        id,
                        data: DisputeOpenedEventData {
                            caller,
                            reason,
                            token_address: escrow.token_address,
                        },
                    },
                ),
            ]
        }),
{
    reveal(step);
}

/// Resolving a dispute is refused for these reasons, in this order, and for no
/// other: with the administrator's authorization, a disputed escrow can be
/// resolved at any time, for the learner always.
pub proof fn law_who_can_resolve(env: EnvView, id: u64, release_to_mentor: bool)
    requires
        env.storage.escrows.dom().contains(id) ==> 0 < env.storage.escrows[id].amount
            || env.storage.escrows[id].status != EscrowStatus::Disputed,
    ensures
        ({
            let escrow = env.storage.escrows[id];
            refusal(env, Call::ResolveDispute { id, release_to_mentor }) == (
            if env.storage.admin is None {
                Some(EscrowError::NotInitialized)
            } else if !env.authorizers.contains(env.storage.admin->0) {
                Some(EscrowError::AuthRequired(env.storage.admin->0))
            } else if !env.storage.escrows.dom().contains(id) {
                Some(EscrowError::EscrowNotFound)
            } else if escrow.status != EscrowStatus::Disputed {
                Some(EscrowError::NotDisputed)
            } else if release_to_mentor {
                stuck(env, escrow, escrow.amount)
            } else {
                None
            })
        }),
{
    let escrow = env.storage.escrows[id];
    if escrow.amount > 0 {
        lemma_parts(env, escrow.amount);
    }
}

/// A disputed escrow can be settled at any time, either way, by the
/// administrator; for the mentor, unless its amount is out of range when it is
/// multiplied by the fee. It is then resolved, at the time of the ledger.
pub proof fn law_disputes_can_be_settled(env: EnvView, id: u64, release_to_mentor: bool)
    requires
        well_formed(env.storage),
        env.storage.escrows.dom().contains(id),
        env.storage.escrows[id].status == EscrowStatus::Disputed,
        env.storage.admin is Some,
        env.authorizers.contains(env.storage.admin->0),
        release_to_mentor ==> env.storage.escrows[id].amount * env.current_fee() <= i128::MAX,
    ensures
        ({
            let call = Call::ResolveDispute { id, release_to_mentor };
            let after = step(env, call).storage.escrows[id];
            &&& refusal(env, call) is None
            &&& after.status == EscrowStatus::Resolved
            &&& after.resolved_at == env.timestamp
        }),
{
    reveal(step);
    law_what_can_be_stuck(env, id, env.storage.escrows[id].amount);
    law_who_can_resolve(env, id, release_to_mentor);
}

/// A dispute that is resolved for the mentor pays out and books what is left,
/// like a release, which is announced. The escrow is then resolved, at the time
/// of the ledger, and that is announced with all that the mentor got. Nothing
/// else is stored or done.
pub proof fn law_what_a_resolution_for_the_mentor_does(env: EnvView, id: u64)
    requires
        refusal(env, Call::ResolveDispute { id, release_to_mentor: true }) is None,
        0 < env.storage.escrows[id].amount,
    ensures
        ({
            let escrow = env.storage.escrows[id];
            let fee = fee_part(env, escrow.amount);
            let after = step(env, Call::ResolveDispute { id, release_to_mentor: true });
            let resolved = after.storage.escrows[id];
            &&& resolved.platform_fee == escrow.platform_fee + fee
            &&& resolved.net_amount == escrow.net_amount + escrow.amount - fee
            &&& resolved == (Escrow {
                status: EscrowStatus::Resolved,
                amount: 0,
                platform_fee: resolved.platform_fee,
                net_amount: resolved.net_amount,
                resolved_at: env.timestamp,
                ..escrow
            })
            &&& after.storage == (StorageView {
                escrows: env.storage.escrows.insert(id, resolved),
                ..priced(env)
            })
            &&& after.log == env.log + seq![
                Action::ExtendTtl(Key::Admin),
                Action::ExtendTtl(Key::Escrow(id)),
            ] + paying(env, escrow, escrow.amount) + seq![
                Action::Store(Key::Escrow(id)),
                Action::Publish(
                    Event::Released {
                        id: escrow.id,
                        data: EscrowReleasedEventData {
                            mentor: escrow.mentor,
                            amount: escrow.amount,
                            net_amount: (escrow.amount - fee) as i128,
                            platform_fee: fee as i128,
                            token_address: escrow.token_address,
                        },
                    },
                ),
                Action::Store(Key::Escrow(id)),
                Action::Publish(
                    Event::DisputeResolved {
                        id,
                        release_to_mentor: true,
                        mentor_amount: resolved.net_amount,
                        learner_amount: 0,
                        token_address: escrow.token_address,
                        time: env.timestamp,
                    },
                ),
            ]
        }),
{
    reveal(step);
    let call = Call::ResolveDispute { id, release_to_mentor: true };
    let escrow = env.storage.escrows[id];
    let start = payout_start(env, call);
    lemma_parts(env, escrow.amount);
    lemma_paying(env, start, escrow, escrow.amount);
    assert(start.log =~= env.log + seq![
        Action::ExtendTtl(Key::Admin),
        Action::ExtendTtl(Key::Escrow(id)),
    ]);
    let after = step(env, call);
    let resolved = after.storage.escrows[id];
    assert(after.storage.escrows =~= env.storage.escrows.insert(id, resolved));
}

/// A dispute that is resolved for the learner gives all that is left back to
/// them, and books it as fee. The escrow is then resolved, at the time of the
/// ledger, and that is announced with what went back. Nothing else is stored or
/// done.
pub proof fn law_what_a_resolution_for_the_learner_does(env: EnvView, id: u64)
    requires
        refusal(env, Call::ResolveDispute { id, release_to_mentor: false }) is None,
    ensures
        ({
            let escrow = env.storage.escrows[id];
            let after = step(env, Call::ResolveDispute { id, release_to_mentor: false });
            &&& after.storage == (StorageView {
                escrows: env.storage.escrows.insert(
                    id,
                    Escrow {
                        status: EscrowStatus::Resolved,
                        net_amount: 0,
                        platform_fee: escrow.amount,
                        resolved_at: env.timestamp,
                        ..escrow
                    },
                ),
                ..env.storage
            })
            &&& after.log == env.log + seq![
                Action::ExtendTtl(Key::Admin),
                Action::ExtendTtl(Key::Escrow(id)),
                Action::Transfer {
                    token: escrow.token_address,
                    from: env.contract_address,
                    to: escrow.learner,
                    amount: escrow.amount,
                },
                Action::Store(Key::Escrow(id)),
                Action::Publish(
                    Event::DisputeResolved {
                        id,
                        release_to_mentor: false,
                        mentor_amount: 0,
                        learner_amount: escrow.amount,
                        token_address: escrow.token_address,
                        time: env.timestamp,
                    },
                ),
            ]
        }),
{
    reveal(step);
}

/// A refund is refused for these reasons, in this order, and for no other: with
/// the administrator's authorization, an active or disputed escrow can be
/// refunded at any time.
pub proof fn law_who_can_refund(env: EnvView, id: u64)
    ensures
        ({
            let status = env.storage.escrows[id].status;
            refusal(env, Call::Refund { id }) == (if env.storage.admin is None {
                Some(EscrowError::AdminNotFound)
            } else if !env.authorizers.contains(env.storage.admin->0) {
                Some(EscrowError::AuthRequired(env.storage.admin->0))
            } else if !env.storage.escrows.dom().contains(id) {
                Some(EscrowError::EscrowNotFound)
            } else if status == EscrowStatus::Active || status == EscrowStatus::Disputed {
                None
            } else {
                Some(EscrowError::CannotRefund)
            })
        }),
{
}

/// A refund gives all that is left back to the learner, and announces that. The
/// escrow is then refunded, and nothing else in it changes. Nothing else is
/// stored or done.
pub proof fn law_what_a_refund_does(env: EnvView, id: u64)
    requires
        refusal(env, Call::Refund { id }) is None,
    ensures
        ({
            let escrow = env.storage.escrows[id];
            let after = step(env, Call::Refund { id });
            &&& after.storage == (StorageView {
                escrows: env.storage.escrows.insert(
                    id,
                    Escrow { status: EscrowStatus::Refunded, ..escrow },
                ),
                ..env.storage
            })
            &&& after.log == env.log + seq![
                Action::ExtendTtl(Key::Admin),
                Action::ExtendTtl(Key::Escrow(id)),
                Action::Transfer {
                    token: escrow.token_address,
                    from: env.contract_address,
                    to: escrow.learner,
                    amount: escrow.amount,
                },
                Action::Store(Key::Escrow(id)),
                Action::Publish(
                    Event::Refunded {
                        id,
                        data: EscrowRefundedEventData {
                            learner: escrow.learner,
                            amount: escrow.amount,
                            token_address: escrow.token_address,
                        },
                    },
                ),
            ]
        }),
{
    reveal(step);
}

/// A review is refused for these reasons, in this order, and for no other: the
/// learner of a released escrow can file one at any time, and again.
pub proof fn law_who_can_review(env: EnvView, caller: Address, id: u64, reason: Symbol)
    ensures
        ({
            let escrow = env.storage.escrows[id];
            refusal(env, Call::SubmitReview { caller, id, reason }) == (
            if !env.storage.escrows.dom().contains(id) {
                Some(EscrowError::EscrowNotFound)
            } else if !env.authorizers.contains(caller) {
                Some(EscrowError::AuthRequired(caller))
            } else if caller != escrow.learner {
                Some(EscrowError::NotLearner)
            } else if escrow.status == EscrowStatus::Released {
                None
            } else {
                Some(EscrowError::NotReleased)
            })
        }),
{
}

/// A review is stored under the id of its escrow as it is given, and announced
/// with its mentor. Nothing else is stored or done.
pub proof fn law_what_a_review_does(env: EnvView, caller: Address, id: u64, reason: Symbol)
    requires
        refusal(env, Call::SubmitReview { caller, id, reason }) is None,
    ensures
        ({
            let after = step(env, Call::SubmitReview { caller, id, reason });
            &&& after.storage == (StorageView {
                reviews: env.storage.reviews.insert(id, reason),
                ..env.storage
            })
            &&& after.log == env.log + seq![
                Action::ExtendTtl(Key::Escrow(id)),
                Action::Store(Key::Review(id)),
                Action::ExtendTtl(Key::Review(id)),
                Action::Publish(
                    Event::ReviewSubmitted {
                        id,
                        data: ReviewSubmittedEventData {
                            caller,
                            reason,
                            mentor: env.storage.escrows[id].mentor,
                        },
                    },
                ),
            ]
        }),
{
    reveal(step);
}

} // verus!
