//! A release in two parts, compared with one release of their sum.
use crate::laws::calls::{refusal, step, Call};
use crate::env::EnvView;
use crate::laws::history::{moved, Setting};
use crate::laws::lifecycle::lemma_maps;
use crate::laws::soundness::{law_storage_stays_well_formed, lemma_drawn, lemma_split, well_formed};
use crate::model::{fee_due, net_due, partly_released_escrow};
use crate::types::Address;
use vstd::prelude::*;

verus! {

/// At the same fee, two amounts together pay as much as their sum, or 1 less;
/// what they pay less, the mentor gets more.
pub proof fn law_fees_of_parts(first: EnvView, second: EnvView, a: i128, b: i128)
    requires
        0 < a,
        0 < b,
        a + b <= i128::MAX,
        first.current_fee() == second.current_fee(),
    ensures
        ({
            let sum = (a + b) as i128;
            let fees = fee_due(first, a) + fee_due(second, b);
            let nets = net_due(first, a) + net_due(second, b);
            &&& fees <= fee_due(first, sum) <= fees + 1
            &&& nets - net_due(first, sum) == fee_due(first, sum) - fees
            &&& fees + nets == sum
        }),
{
    let fee = first.current_fee() as int;
    assert((a + b) * fee == a * fee + b * fee) by (nonlinear_arith);
    assert(0 <= a * fee && 0 <= b * fee) by (nonlinear_arith)
        requires
            0 <= fee,
            0 < a,
            0 < b,
    ;
}

/// The escrow under `id` after a part of it was released.
proof fn lemma_part(env: EnvView, caller: Address, id: u64, amount: i128)
    requires
        well_formed(env.storage),
        refusal(env, Call::ReleasePartial { caller, id, amount }) is None,
    ensures
        ({
            let before = env.storage.escrows[id];
            let after = step(env, Call::ReleasePartial { caller, id, amount }).storage.escrows[id];
            &&& step(env, Call::ReleasePartial { caller, id, amount }).storage.escrows.contains_key(
                id,
            )
            &&& 0 < amount <= before.amount
            &&& after == partly_released_escrow(env, before, amount)
            &&& after.amount == before.amount - amount
            &&& after.platform_fee == before.platform_fee + fee_due(env, amount)
            &&& after.net_amount == before.net_amount + net_due(env, amount)
        }),
{
    reveal(step);
    lemma_maps(env, Call::ReleasePartial { caller, id, amount });
    lemma_drawn(env, id, env.storage.escrows[id], amount);
}

/// Two partial releases at the same fee leave the escrow as one of their sum
/// does: as much is left, and the status is the same. The platform gets the
/// same or 1 less, and the mentor gets what the platform does not.
pub proof fn law_two_releases_are_like_one(
    env: EnvView,
    setting: Setting,
    first_caller: Address,
    second_caller: Address,
    id: u64,
    a: i128,
    b: i128,
)
    requires
        well_formed(env.storage),
        0 < a,
        0 < b,
        a + b <= i128::MAX,
        ({
            let first = Call::ReleasePartial { caller: first_caller, id, amount: a };
            let second = Call::ReleasePartial { caller: second_caller, id, amount: b };
            let whole = Call::ReleasePartial {
                caller: first_caller,
                id,
                amount: (a + b) as i128,
            };
            let between = moved(step(env, first), setting);
            &&& refusal(env, whole) is None
            &&& refusal(env, first) is None
            &&& refusal(between, second) is None
            &&& between.current_fee() == env.current_fee()
        }),
    ensures
        ({
            let first = Call::ReleasePartial { caller: first_caller, id, amount: a };
            let second = Call::ReleasePartial { caller: second_caller, id, amount: b };
            let whole = Call::ReleasePartial {
                caller: first_caller,
                id,
                amount: (a + b) as i128,
            };
            let parts = step(moved(step(env, first), setting), second).storage.escrows[id];
            let at_once = step(env, whole).storage.escrows[id];
            &&& parts.amount == at_once.amount
            &&& parts.status == at_once.status
            &&& parts.platform_fee <= at_once.platform_fee <= parts.platform_fee + 1
            &&& parts.net_amount - at_once.net_amount == at_once.platform_fee - parts.platform_fee
        }),
{
    let first = Call::ReleasePartial { caller: first_caller, id, amount: a };
    let between = moved(step(env, first), setting);
    law_storage_stays_well_formed(env, first);
    lemma_part(env, first_caller, id, a);
    lemma_part(between, second_caller, id, b);
    lemma_part(env, first_caller, id, (a + b) as i128);
    law_fees_of_parts(env, between, a, b);
}

/// Whoever can release an amount at once can release it in two parts.
pub proof fn law_a_release_can_be_split(env: EnvView, caller: Address, id: u64, a: i128, b: i128)
    requires
        well_formed(env.storage),
        0 < a,
        0 < b,
        a + b <= i128::MAX,
        refusal(env, Call::ReleasePartial { caller, id, amount: (a + b) as i128 }) is None,
    ensures
        ({
            let first = Call::ReleasePartial { caller, id, amount: a };
            let second = Call::ReleasePartial { caller, id, amount: b };
            &&& refusal(env, first) is None
            &&& refusal(step(env, first), second) is None
            &&& step(env, first).current_fee() == env.current_fee()
        }),
{
    reveal(step);
    let first = Call::ReleasePartial { caller, id, amount: a };
    let escrow = env.storage.escrows[id];
    let fee = env.current_fee() as int;
    assert((a + b) * fee == a * fee + b * fee) by (nonlinear_arith);
    assert(0 <= a * fee && 0 <= b * fee) by (nonlinear_arith)
        requires
            0 <= fee,
            0 < a,
            0 < b,
    ;
    lemma_split(env, a);
    lemma_split(env, b);
    lemma_split(env, (a + b) as i128);
    lemma_part(env, caller, id, (a + b) as i128);
    lemma_drawn(env, id, escrow, a);
    assert(refusal(env, first) is None);
    lemma_part(env, caller, id, a);
    law_storage_stays_well_formed(env, first);
    let between = step(env, first);
    assert(between.current_fee() == env.current_fee());
    assert(between.storage.admin == env.storage.admin);
    assert(between.storage.treasury == env.storage.treasury);
    assert(between.authorizers == env.authorizers);
    lemma_drawn(between, id, between.storage.escrows[id], b);
}

} // verus!
