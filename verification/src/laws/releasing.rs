//! Releasing: when it is refused, when it has to succeed, and all that it does.
use crate::laws::calls::{payout_start, refusal, step, Call};
use crate::env::{EnvView, StorageView};
use crate::laws::reading::{law_the_split, priced, pricing};
use crate::laws::soundness::{lemma_drawn, well_formed};
use crate::model::{fee_due, net_due, paid_out};
use crate::types::{
    Action, Address, Escrow, EscrowAutoReleasedEventData, EscrowError, EscrowReleasedEventData,
    EscrowStatus, Event, Key,
};
use vstd::prelude::*;

verus! {

/// What of a released amount is the platform's.
pub open spec fn fee_part(env: EnvView, amount: i128) -> int {
    amount * env.current_fee() / 10_000
}

/// What can still stop a release that is otherwise in order: an amount that is
/// out of range when it is multiplied by the fee, no treasury, or books that
/// would get out of range.
pub open spec fn stuck(env: EnvView, escrow: Escrow, amount: i128) -> Option<EscrowError> {
    let fee = fee_part(env, amount);
    if amount * env.current_fee() > i128::MAX {
        Some(EscrowError::Overflow)
    } else if env.storage.treasury is None {
        Some(EscrowError::TreasuryNotFound)
    } else if i128::MIN <= escrow.platform_fee + fee <= i128::MAX && i128::MIN
        <= escrow.net_amount + amount - fee <= i128::MAX {
        None
    } else {
        Some(EscrowError::Overflow)
    }
}

/// The parts of a positive amount, as they are paid out.
pub(crate) proof fn lemma_parts(env: EnvView, amount: i128)
    requires
        0 < amount,
    ensures
        fee_due(env, amount) == fee_part(env, amount),
        net_due(env, amount) == amount - fee_part(env, amount),
        0 <= fee_part(env, amount),
        0 <= amount * env.current_fee(),
        amount * env.current_fee() <= i128::MAX ==> fee_part(env, amount) <= i128::MAX && i128::MIN
            <= amount - fee_part(env, amount) <= i128::MAX,
{
    law_the_split(env, amount);
}

/// In a state that calls can lead to, an open escrow is stuck only where its
/// amount is out of range when it is multiplied by the fee.
pub proof fn law_what_can_be_stuck(env: EnvView, id: u64, amount: i128)
    requires
        well_formed(env.storage),
        env.storage.escrows.dom().contains(id),
        env.storage.escrows[id].status == EscrowStatus::Active || env.storage.escrows[id].status
            == EscrowStatus::Disputed,
        0 < amount <= env.storage.escrows[id].amount,
    ensures
        env.storage.admin is Some,
        stuck(env, env.storage.escrows[id], amount) is None <==> amount * env.current_fee()
            <= i128::MAX,
{
    lemma_parts(env, amount);
    lemma_drawn(env, id, env.storage.escrows[id], amount);
    if env.storage.admin is None {
        assert(env.storage.escrows.contains_key(id));
    }
}

/// A release of all that is left, by the learner or the administrator, is
/// refused for these reasons, in this order, and for no other. The time, the
/// parties and the session play no part.
pub proof fn law_who_can_release(env: EnvView, caller: Address, id: u64)
    requires
        env.storage.escrows.dom().contains(id) ==> 0 < env.storage.escrows[id].amount
            || env.storage.escrows[id].status != EscrowStatus::Active,
    ensures
        ({
            let escrow = env.storage.escrows[id];
            refusal(env, Call::ReleaseFunds { caller, id }) == (
            if !env.storage.escrows.dom().contains(id) {
                Some(EscrowError::EscrowNotFound)
            } else if escrow.status != EscrowStatus::Active {
                Some(EscrowError::NotActive)
            } else if env.storage.admin is None {
                Some(EscrowError::AdminNotFound)
            } else if !env.authorizers.contains(caller) {
                Some(EscrowError::AuthRequired(caller))
            } else if caller != escrow.learner && Some(caller) != env.storage.admin {
                Some(EscrowError::CallerNotAuthorized)
            } else {
                stuck(env, escrow, escrow.amount)
            })
        }),
{
    let escrow = env.storage.escrows[id];
    if escrow.amount > 0 {
        lemma_parts(env, escrow.amount);
    }
}

/// A release of a part is refused for these reasons, in this order, and for no
/// other.
pub proof fn law_who_can_release_a_part(env: EnvView, caller: Address, id: u64, amount: i128)
    ensures
        ({
            let escrow = env.storage.escrows[id];
            refusal(env, Call::ReleasePartial { caller, id, amount }) == (
            if !env.storage.escrows.dom().contains(id) {
                Some(EscrowError::EscrowNotFound)
            } else if escrow.status != EscrowStatus::Active {
                Some(EscrowError::NotActive)
            } else if !(1 <= amount <= escrow.amount) {
                Some(EscrowError::InvalidReleaseAmount)
            } else if env.storage.admin is None {
                Some(EscrowError::AdminNotFound)
            } else if !env.authorizers.contains(caller) {
                Some(EscrowError::AuthRequired(caller))
            } else if caller != escrow.learner && Some(caller) != env.storage.admin {
                Some(EscrowError::CallerNotAuthorized)
            } else {
                stuck(env, escrow, amount)
            })
        }),
{
    if amount > 0 {
        lemma_parts(env, amount);
    }
}

/// A release by the administrator is refused for these reasons, in this order,
/// and for no other.
pub proof fn law_when_the_administrator_can_release(env: EnvView, id: u64)
    requires
        env.storage.escrows.dom().contains(id) ==> 0 < env.storage.escrows[id].amount
            || env.storage.escrows[id].status != EscrowStatus::Active,
    ensures
        ({
            let escrow = env.storage.escrows[id];
            refusal(env, Call::AdminRelease { id }) == (
            if !env.storage.escrows.dom().contains(id) {
                Some(EscrowError::EscrowNotFound)
            } else if escrow.status != EscrowStatus::Active {
                Some(EscrowError::NotActive)
            } else if env.storage.admin is None {
                Some(EscrowError::AdminNotFound)
            } else if !env.authorizers.contains(env.storage.admin->0) {
                Some(EscrowError::AuthRequired(env.storage.admin->0))
            } else {
                stuck(env, escrow, escrow.amount)
            })
        }),
{
    let escrow = env.storage.escrows[id];
    if escrow.amount > 0 {
        lemma_parts(env, escrow.amount);
    }
}

/// An automatic release is refused for these reasons, in this order, and for no
/// other: whoever calls, an active escrow releases itself from the end of its
/// session plus its delay on, to the second, and not before.
pub proof fn law_when_escrows_release_themselves(env: EnvView, id: u64)
    requires
        env.storage.escrows.dom().contains(id) ==> 0 < env.storage.escrows[id].amount
            || env.storage.escrows[id].status != EscrowStatus::Active,
    ensures
        ({
            let escrow = env.storage.escrows[id];
            refusal(env, Call::TryAutoRelease { id }) == (
            if !env.storage.escrows.dom().contains(id) {
                Some(EscrowError::EscrowNotFound)
            } else if escrow.status != EscrowStatus::Active {
                Some(EscrowError::NotActive)
            } else if escrow.session_end_time + escrow.auto_release_delay > u64::MAX {
                Some(EscrowError::TimestampOverflow)
            } else if env.timestamp < escrow.session_end_time + escrow.auto_release_delay {
                Some(EscrowError::WindowNotElapsed)
            } else {
                stuck(env, escrow, escrow.amount)
            })
        }),
{
    let escrow = env.storage.escrows[id];
    if escrow.amount > 0 {
        lemma_parts(env, escrow.amount);
    }
}

/// An active escrow can be released at any time: by the learner and by the
/// administrator, unless its amount is out of range when it is multiplied by the
/// fee. It is then released, with nothing left.
pub proof fn law_active_escrows_can_be_released(env: EnvView, caller: Address, id: u64)
    requires
        well_formed(env.storage),
        env.storage.escrows.dom().contains(id),
        env.storage.escrows[id].status == EscrowStatus::Active,
        env.storage.escrows[id].amount * env.current_fee() <= i128::MAX,
        env.authorizers.contains(caller),
        caller == env.storage.escrows[id].learner || Some(caller) == env.storage.admin,
    ensures
        ({
            let after = step(env, Call::ReleaseFunds { caller, id }).storage.escrows[id];
            &&& refusal(env, Call::ReleaseFunds { caller, id }) is None
            &&& after.status == EscrowStatus::Released
            &&& after.amount == 0
        }),
        Some(caller) == env.storage.admin ==> ({
            let after = step(env, Call::AdminRelease { id }).storage.escrows[id];
            &&& refusal(env, Call::AdminRelease { id }) is None
            &&& after.status == EscrowStatus::Released
            &&& after.amount == 0
        }),
{
    reveal(step);
    assert(env.storage.escrows.contains_key(id));
    law_what_can_be_stuck(env, id, env.storage.escrows[id].amount);
    law_who_can_release(env, caller, id);
    law_when_the_administrator_can_release(env, id);
}

/// A part of an active escrow can be released at any time: by the learner and by
/// the administrator, from 1 to all that is left, unless the part is out of
/// range when it is multiplied by the fee. So much less is then left, and the
/// escrow is released once nothing is.
pub proof fn law_parts_can_be_released(env: EnvView, caller: Address, id: u64, amount: i128)
    requires
        well_formed(env.storage),
        env.storage.escrows.dom().contains(id),
        env.storage.escrows[id].status == EscrowStatus::Active,
        0 < amount <= env.storage.escrows[id].amount,
        amount * env.current_fee() <= i128::MAX,
        env.authorizers.contains(caller),
        caller == env.storage.escrows[id].learner || Some(caller) == env.storage.admin,
    ensures
        ({
            let after = step(
                env,
                Call::ReleasePartial { caller, id, amount },
            ).storage.escrows[id];
            &&& refusal(env, Call::ReleasePartial { caller, id, amount }) is None
            &&& after.amount + amount == env.storage.escrows[id].amount
            &&& after.status == (if after.amount == 0 {
                EscrowStatus::Released
            } else {
                EscrowStatus::Active
            })
        }),
{
    reveal(step);
    law_what_can_be_stuck(env, id, amount);
    law_who_can_release_a_part(env, caller, id, amount);
}

/// Whoever calls, and whoever authorized it, an active escrow releases itself
/// exactly from the end of its session plus its delay on, unless that or its
/// amount, multiplied by the fee, is out of range.
pub proof fn law_escrows_release_themselves(env: EnvView, id: u64)
    requires
        well_formed(env.storage),
        env.storage.escrows.dom().contains(id),
        env.storage.escrows[id].status == EscrowStatus::Active,
        env.storage.escrows[id].session_end_time + env.storage.escrows[id].auto_release_delay
            <= u64::MAX,
        env.storage.escrows[id].amount * env.current_fee() <= i128::MAX,
    ensures
        ({
            let escrow = env.storage.escrows[id];
            let after = step(env, Call::TryAutoRelease { id }).storage.escrows[id];
            if env.timestamp < escrow.session_end_time + escrow.auto_release_delay {
                &&& refusal(env, Call::TryAutoRelease { id }) == Some(
                    EscrowError::WindowNotElapsed,
                )
                &&& after == escrow
            } else {
                &&& refusal(env, Call::TryAutoRelease { id }) is None
                &&& after.status == EscrowStatus::Released
                &&& after.amount == 0
            }
        }),
{
    reveal(step);
    law_what_can_be_stuck(env, id, env.storage.escrows[id].amount);
    law_when_escrows_release_themselves(env, id);
}

/// What is extended and announced before anything is paid.
pub open spec fn prelude_of(env: EnvView, call: Call) -> Seq<Action> {
    match call {
        Call::ReleaseFunds { id, .. } => seq![
            Action::ExtendTtl(Key::Escrow(id)),
            Action::ExtendTtl(Key::Admin),
        ],
        Call::AdminRelease { id } => seq![
            Action::ExtendTtl(Key::Escrow(id)),
            Action::ExtendTtl(Key::Admin),
            Action::Publish(Event::AdminReleased { id, time: env.timestamp }),
        ],
        Call::TryAutoRelease { id } => seq![
            Action::ExtendTtl(Key::Escrow(id)),
            Action::Publish(
                Event::AutoReleased {
                    id,
                    data: EscrowAutoReleasedEventData { time: env.timestamp },
                },
            ),
        ],
        _ => Seq::empty(),
    }
}

/// How a part of an escrow is paid out: after the fee was asked for, the
/// platform's part, where there is one, goes to the treasury, and the rest to
/// the mentor, in the token of the escrow.
pub open spec fn paying(env: EnvView, escrow: Escrow, amount: i128) -> Seq<Action> {
    let (token, from) = (escrow.token_address, env.contract_address);
    let fee = fee_part(env, amount);
    let to_mentor = Action::Transfer {
        token,
        from,
        to: escrow.mentor,
        amount: (amount - fee) as i128,
    };
    pricing(env) + (if fee > 0 {
        seq![
            Action::ExtendTtl(Key::Treasury),
            Action::Transfer { token, from, to: env.storage.treasury->0, amount: fee as i128 },
            to_mentor,
        ]
    } else {
        seq![Action::ExtendTtl(Key::Treasury), to_mentor]
    })
}

pub(crate) proof fn lemma_paying(env: EnvView, start: EnvView, escrow: Escrow, amount: i128)
    requires
        0 < amount,
        start.storage == env.storage,
        start.sequence == env.sequence,
        start.contract_address == env.contract_address,
        amount * env.current_fee() <= i128::MAX,
    ensures
        paid_out(start, escrow, amount).storage == priced(env),
        paid_out(start, escrow, amount).log == start.log + paying(env, escrow, amount),
        paid_out(start, escrow, amount).contract_address == env.contract_address,
        fee_due(start, amount) == fee_part(env, amount),
        net_due(start, amount) == amount - fee_part(env, amount),
{
    lemma_parts(env, amount);
    assert(start.current_fee() == env.current_fee());
    assert(start.fee_asked().log =~= start.log + pricing(env));
    assert(start.fee_asked().storage == priced(env));
    assert(paid_out(start, escrow, amount).log =~= start.log + paying(env, escrow, amount));
}

/// A release of all that is left, however it comes about, books the platform's
/// part and the mentor's on the escrow, which is then released with nothing
/// left, and changes nothing else in it. Nothing else is stored, but for a price
/// that was fetched.
pub proof fn law_what_a_release_stores(env: EnvView, call: Call, id: u64)
    requires
        call is ReleaseFunds || call is AdminRelease || call is TryAutoRelease,
        call matches Call::ReleaseFunds { id: named, .. } ==> named == id,
        call matches Call::AdminRelease { id: named } ==> named == id,
        call matches Call::TryAutoRelease { id: named } ==> named == id,
        refusal(env, call) is None,
        0 < env.storage.escrows[id].amount,
    ensures
        ({
            let escrow = env.storage.escrows[id];
            let fee = fee_part(env, escrow.amount);
            let after = step(env, call).storage;
            let released = after.escrows[id];
            &&& released.platform_fee == escrow.platform_fee + fee
            &&& released.net_amount == escrow.net_amount + escrow.amount - fee
            &&& released == (Escrow {
                status: EscrowStatus::Released,
                amount: 0,
                platform_fee: released.platform_fee,
                net_amount: released.net_amount,
                ..escrow
            })
            &&& after == (StorageView {
                escrows: env.storage.escrows.insert(id, released),
                ..priced(env)
            })
        }),
{
    reveal(step);
    let escrow = env.storage.escrows[id];
    lemma_parts(env, escrow.amount);
    lemma_paying(env, payout_start(env, call), escrow, escrow.amount);
}

/// A release of all that is left, however it comes about, is announced with what
/// was released and its parts, once these were paid and the escrow was written.
/// Nothing else is done.
pub proof fn law_what_a_release_does(env: EnvView, call: Call, id: u64)
    requires
        call is ReleaseFunds || call is AdminRelease || call is TryAutoRelease,
        call matches Call::ReleaseFunds { id: named, .. } ==> named == id,
        call matches Call::AdminRelease { id: named } ==> named == id,
        call matches Call::TryAutoRelease { id: named } ==> named == id,
        refusal(env, call) is None,
        0 < env.storage.escrows[id].amount,
    ensures
        ({
            let escrow = env.storage.escrows[id];
            let fee = fee_part(env, escrow.amount);
            step(env, call).log == env.log + prelude_of(env, call) + paying(
                env,
                escrow,
                escrow.amount,
            ) + seq![
                Action::Store(Key::Escrow(id)),
                Action::Publish(
                    Event::Released {
                        id: escrow.id,
                        data: EscrowReleasedEventData {
                            mentor: escrow.mentor,
                            amount: escrow.amount,
                            net_amount: (escrow.amount - fee) as i128,
                            platform_fee: fee as i128,
                            token_address: escrow.token_address,
                        },
                    },
                ),
            ]
        }),
{
    reveal(step);
    let escrow = env.storage.escrows[id];
    let start = payout_start(env, call);
    lemma_parts(env, escrow.amount);
    lemma_paying(env, start, escrow, escrow.amount);
    assert(start.log =~= env.log + prelude_of(env, call));
}

/// A release of a part takes that part from what is left, books the platform's
/// part of it and the mentor's on the escrow, and releases the escrow once
/// nothing is left. It changes nothing else in it. Nothing else is stored, but
/// for a price that was fetched.
pub proof fn law_what_a_part_stores(env: EnvView, caller: Address, id: u64, amount: i128)
    requires
        refusal(env, Call::ReleasePartial { caller, id, amount }) is None,
    ensures
        ({
            let escrow = env.storage.escrows[id];
            let fee = fee_part(env, amount);
            let after = step(env, Call::ReleasePartial { caller, id, amount }).storage;
            let left = after.escrows[id];
            &&& left.amount == escrow.amount - amount
            &&& left.platform_fee == escrow.platform_fee + fee
            &&& left.net_amount == escrow.net_amount + amount - fee
            &&& left == (Escrow {
                status: if left.amount == 0 {
                    EscrowStatus::Released
                } else {
                    EscrowStatus::Active
                },
                amount: left.amount,
                platform_fee: left.platform_fee,
                net_amount: left.net_amount,
                ..escrow
            })
            &&& after == (StorageView {
                escrows: env.storage.escrows.insert(id, left),
                ..priced(env)
            })
        }),
{
    reveal(step);
    lemma_parts(env, amount);
    lemma_paying(
        env,
        payout_start(env, Call::ReleasePartial { caller, id, amount }),
        env.storage.escrows[id],
        amount,
    );
}

/// A release of a part is announced with the part, its parts and what is left,
/// once these were paid and the escrow was written. Nothing else is done.
pub proof fn law_what_a_part_does(env: EnvView, caller: Address, id: u64, amount: i128)
    requires
        refusal(env, Call::ReleasePartial { caller, id, amount }) is None,
    ensures
        ({
            let escrow = env.storage.escrows[id];
            let fee = fee_part(env, amount);
            step(env, Call::ReleasePartial { caller, id, amount }).log == env.log + seq![
                Action::ExtendTtl(Key::Escrow(id)),
                Action::ExtendTtl(Key::Admin),
            ] + paying(env, escrow, amount) + seq![
                Action::Store(Key::Escrow(id)),
                Action::Publish(
                    Event::PartiallyReleased {
                        id: escrow.id,
                        mentor: escrow.mentor,
                        amount,
                        net_amount: (amount - fee) as i128,
                        platform_fee: fee as i128,
                        token_address: escrow.token_address,
                        remaining: (escrow.amount - amount) as i128,
                    },
                ),
            ]
        }),
{
    reveal(step);
    let start = payout_start(env, Call::ReleasePartial { caller, id, amount });
    lemma_parts(env, amount);
    lemma_paying(env, start, env.storage.escrows[id], amount);
    assert(start.log =~= env.log + seq![
        Action::ExtendTtl(Key::Escrow(id)),
        Action::ExtendTtl(Key::Admin),
    ]);
}

} // verus!
