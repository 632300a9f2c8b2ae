//! Opening an escrow: when it is refused, and all that it does where it is not.
use crate::laws::calls::{refusal, step, Call};
use crate::env::{EnvView, Holding, StorageView};
use crate::types::{
    Action, Address, EscrowCreatedEventData, EscrowError, EscrowStatus, Event, Key, Symbol,
};
use vstd::prelude::*;

verus! {

/// Opening an escrow is refused for an amount that is not positive, in a token
/// that is not approved, without the learner's authorization, with less than the
/// amount in the learner's hands, before the set-up, for a session that was used
/// before, and when the ids are used up; in this order, and else never. Neither
/// the mentor nor the time, the end of the session included, plays a part.
pub proof fn law_who_can_open(
    env: EnvView,
    mentor: Address,
    learner: Address,
    amount: i128,
    session_id: Symbol,
    token: Address,
    session_end_time: u64,
)
    ensures
        ({
            let s = env.storage;
            let holding = Holding { token, holder: learner };
            let approved = s.approved_tokens.dom().contains(token) && s.approved_tokens[token];
            let has_enough = if env.balances.dom().contains(holding) {
                amount <= env.balances[holding]
            } else {
                amount <= 0
            };
            refusal(
                env,
                Call::CreateEscrow { mentor, learner, amount, session_id, token, session_end_time },
            ) == (if amount <= 0 {
                Some(EscrowError::InvalidAmount)
            } else if !approved {
                Some(EscrowError::TokenNotApproved)
            } else if !env.authorizers.contains(learner) {
                Some(EscrowError::AuthRequired(learner))
            } else if !has_enough {
                Some(EscrowError::InsufficientBalance)
            } else if s.auto_release_delay is None {
                Some(EscrowError::EntryMissing(Key::AutoReleaseDelay))
            } else if s.sessions.dom().contains(session_id) {
                Some(EscrowError::SessionExists)
            } else if s.escrow_count == Some(u64::MAX) {
                Some(EscrowError::CounterOverflow)
            } else {
                None
            })
        }),
{
}

/// Opening an escrow takes the next id, marks the session as used, and stores
/// the escrow: with the parties, the amount, the session, the token and the end
/// of the session as they were given, at the time of the ledger, with the delay
/// that is configured, active, with nothing paid out, without a reason for a
/// dispute and unresolved. Every other entry stays what it was.
pub proof fn law_what_opening_stores(
    env: EnvView,
    mentor: Address,
    learner: Address,
    amount: i128,
    session_id: Symbol,
    token: Address,
    session_end_time: u64,
)
    requires
        refusal(
            env,
            Call::CreateEscrow { mentor, learner, amount, session_id, token, session_end_time },
        ) is None,
    ensures
        ({
            let after = step(
                env,
                Call::CreateEscrow { mentor, learner, amount, session_id, token, session_end_time },
            ).storage;
            let id = after.escrow_count->0;
            let escrow = after.escrows[id];
            &&& after.escrow_count is Some
            &&& id == 1 + (match env.storage.escrow_count {
                Some(count) => count as int,
                None => 0,
            })
            &&& after == (StorageView {
                escrow_count: Some(id),
                sessions: env.storage.sessions.insert(session_id, true),
                escrows: env.storage.escrows.insert(id, escrow),
                ..env.storage
            })
            &&& escrow.id == id
            &&& escrow.mentor == mentor
            &&& escrow.learner == learner
            &&& escrow.amount == amount
            &&& escrow.session_id == session_id
            &&& escrow.token_address == token
            &&& escrow.session_end_time == session_end_time
            &&& escrow.created_at == env.timestamp
            &&& Some(escrow.auto_release_delay) == env.storage.auto_release_delay
            &&& escrow.status == EscrowStatus::Active
            &&& escrow.platform_fee == 0
            &&& escrow.net_amount == 0
            &&& forall|i: int| 0 <= i < 32 ==> #[trigger] escrow.dispute_reason.text[i] == 0
            &&& escrow.resolved_at == 0
        }),
{
    broadcast use vstd::array::group_array_axioms;

    reveal(step);
}

/// Opening an escrow moves the deposit from the learner to the contract, and
/// announces the escrow as it was asked for. Nothing else is done but writing
/// and extending.
pub proof fn law_what_opening_does(
    env: EnvView,
    mentor: Address,
    learner: Address,
    amount: i128,
    session_id: Symbol,
    token: Address,
    session_end_time: u64,
)
    requires
        refusal(
            env,
            Call::CreateEscrow { mentor, learner, amount, session_id, token, session_end_time },
        ) is None,
    ensures
        ({
            let after = step(
                env,
                Call::CreateEscrow { mentor, learner, amount, session_id, token, session_end_time },
            );
            let id = after.storage.escrow_count->0;
            after.log == env.log + seq![
                Action::ExtendTtl(Key::AutoReleaseDelay),
                Action::Store(Key::Session(session_id)),
                Action::ExtendTtl(Key::Session(session_id)),
                Action::Store(Key::EscrowCount),
                Action::ExtendTtl(Key::EscrowCount),
                Action::Transfer { token, from: learner, to: env.contract_address, amount },
                Action::Store(Key::Escrow(id)),
                Action::ExtendTtl(Key::Escrow(id)),
                Action::Publish(
                    Event::Created {
                        id,
                        data: EscrowCreatedEventData {
                            mentor,
                            learner,
                            amount,
                            session_id,
                            token_address: token,
                            session_end_time,
                        },
                    },
                ),
            ]
        }),
{
    reveal(step);
}

} // verus!
