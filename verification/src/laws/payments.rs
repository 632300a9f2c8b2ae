//! Which tokens move in a call, exactly.
use crate::laws::calls::{effect, payout_start, pays_out, refusal, step, Call};
use crate::env::EnvView;
use crate::laws::fees::law_fee_is_capped;
use crate::laws::lifecycle::subject;
use crate::laws::soundness::well_formed;
use crate::model::{fee_due, initialized, net_due, paid_out, released};
use crate::types::{Action, Address, Escrow};
use vstd::prelude::*;

verus! {

/// The transfers among the host work in `log`, in their order.
pub open spec fn transfers(log: Seq<Action>) -> Seq<Action>
    decreases log.len(),
{
    if log.len() == 0 {
        Seq::empty()
    } else if log.last() is Transfer {
        transfers(log.drop_last()).push(log.last())
    } else {
        transfers(log.drop_last())
    }
}

broadcast proof fn lemma_transfers_push(log: Seq<Action>, action: Action)
    ensures
        #[trigger] transfers(log.push(action)) == (if action is Transfer {
            transfers(log).push(action)
        } else {
            transfers(log)
        }),
{
    assert(log.push(action).drop_last() =~= log);
}

/// A payment out of an escrow.
pub open spec fn payment(env: EnvView, escrow: Escrow, to: Address, amount: i128) -> Action {
    Action::Transfer { token: escrow.token_address, from: env.contract_address, to, amount }
}

/// What is paid where `amount` of an escrow is released: the fee, where there is
/// one, to the treasury, and the rest to the mentor.
pub open spec fn release_payments(env: EnvView, escrow: Escrow, amount: i128) -> Seq<Action> {
    let fee = fee_due(env, amount) as i128;
    let net = net_due(env, amount) as i128;
    if fee > 0 {
        seq![
            payment(env, escrow, env.storage.treasury->0, fee),
            payment(env, escrow, escrow.mentor, net),
        ]
    } else {
        seq![payment(env, escrow, escrow.mentor, net)]
    }
}

/// How much of an escrow a call that pays out releases: the part that it names,
/// or all that is left.
pub open spec fn released_amount(call: Call, escrow: Escrow) -> i128 {
    match call {
        Call::ReleasePartial { amount, .. } => amount,
        _ => escrow.amount,
    }
}

/// The payments that a call makes where it is not refused: the deposit into a
/// new escrow, the parts of what is released, or what goes back to the learner.
pub open spec fn payments(env: EnvView, call: Call) -> Seq<Action> {
    match call {
        Call::CreateEscrow { learner, amount, token, .. } => seq![
            Action::Transfer { token, from: learner, to: env.contract_address, amount },
        ],
        _ => match subject(call) {
            Some(id) => {
                let escrow = env.storage.escrows[id];
                if pays_out(call) {
                    release_payments(env, escrow, released_amount(call, escrow))
                } else if call is Refund || call is ResolveDispute {
                    seq![payment(env, escrow, escrow.learner, escrow.amount)]
                } else {
                    Seq::empty()
                }
            },
            None => Seq::empty(),
        },
    }
}

proof fn lemma_paid_out_transfers(env: EnvView, escrow: Escrow, amount: i128)
    ensures
        transfers(paid_out(env, escrow, amount).log) =~= transfers(env.log) + release_payments(
            env,
            escrow,
            amount,
        ),
{
    broadcast use lemma_transfers_push;

    assert(transfers(env.fee_asked().log) == transfers(env.log));
}

proof fn lemma_released_transfers(env: EnvView, escrow: Escrow, id: u64)
    ensures
        transfers(released(env, escrow, id).log) == transfers(env.log) + release_payments(
            env,
            escrow,
            escrow.amount,
        ),
{
    broadcast use lemma_transfers_push;

    lemma_paid_out_transfers(env, escrow, escrow.amount);
}

proof fn lemma_start_transfers(env: EnvView, call: Call)
    ensures
        transfers(payout_start(env, call).log) == transfers(env.log),
        payout_start(env, call).storage == env.storage,
        payout_start(env, call).sequence == env.sequence,
        payout_start(env, call).contract_address == env.contract_address,
{
    broadcast use lemma_transfers_push;

}

proof fn lemma_tokens_approved_transfers(env: EnvView, tokens: Seq<Address>)
    ensures
        transfers(env.tokens_approved(tokens).log) == transfers(env.log),
    decreases tokens.len(),
{
    broadcast use lemma_transfers_push;

    if tokens.len() > 0 {
        lemma_tokens_approved_transfers(env, tokens.drop_last());
    }
}

proof fn lemma_payout_transfers(env: EnvView, call: Call)
    requires
        pays_out(call),
    ensures
        transfers(effect(env, call).log) == transfers(env.log) + payments(env, call),
{
    broadcast use lemma_transfers_push;

    let ready = payout_start(env, call);
    lemma_start_transfers(env, call);
    match call {
        Call::ReleasePartial { id, amount, .. } => {
            lemma_paid_out_transfers(ready, env.storage.escrows[id], amount);
        },
        Call::ReleaseFunds { id, .. } | Call::AdminRelease { id } | Call::TryAutoRelease { id }
        | Call::ResolveDispute { id, .. } => {
            lemma_released_transfers(ready, env.storage.escrows[id], id);
        },
        _ => {},
    }
}

/// The tokens that move in a call are exactly its payments, in their order; in a
/// refused one none do.
pub proof fn law_only_the_payments_are_made(env: EnvView, call: Call)
    ensures
        transfers(step(env, call).log) == (if refusal(env, call) is None {
            transfers(env.log) + payments(env, call)
        } else {
            transfers(env.log)
        }),
{
    reveal(step);
    broadcast use lemma_transfers_push;

    let paid = transfers(env.log) + payments(env, call);
    if refusal(env, call) is None {
        if pays_out(call) {
            lemma_payout_transfers(env, call);
        } else if let Call::Initialize {
            admin,
            treasury,
            fee_bps,
            approved_tokens,
            auto_release_delay_secs,
        } = call {
            let set_up = initialized(
                env,
                admin,
                treasury,
                fee_bps,
                Seq::empty(),
                auto_release_delay_secs,
            );
            lemma_tokens_approved_transfers(set_up, approved_tokens);
            assert(transfers(effect(env, call).log) =~= paid);
        } else {
            assert(transfers(effect(env, call).log) =~= paid);
        }
    }
}

/// A release, however it comes about, splits what it releases between the
/// platform and the mentor, and moves nothing else. Nothing is lost; the
/// platform gets at most a tenth, and the most that is within its share, so that
/// what does not come out even is the mentor's; and the mentor gets something.
pub proof fn law_releases_are_split(env: EnvView, call: Call, id: u64)
    requires
        well_formed(env.storage),
        pays_out(call),
        subject(call) == Some(id),
        refusal(env, call) is None,
    ensures
        ({
            let escrow = env.storage.escrows[id];
            let amount = released_amount(call, escrow);
            let fee = fee_due(env, amount);
            let net = net_due(env, amount);
            &&& 0 < amount <= escrow.amount
            &&& fee + net == amount
            &&& 0 <= fee
            &&& 10 * fee <= amount
            &&& 0 < net
            &&& fee * 10_000 <= amount * env.current_fee()
            &&& amount * env.current_fee() < (fee + 1) * 10_000
            &&& transfers(step(env, call).log) == transfers(env.log) + (if fee > 0 {
                seq![
                    payment(env, escrow, env.storage.treasury->0, fee as i128),
                    payment(env, escrow, escrow.mentor, net as i128),
                ]
            } else {
                seq![payment(env, escrow, escrow.mentor, net as i128)]
            })
        }),
{
    law_only_the_payments_are_made(env, call);
    law_fee_is_capped(env, released_amount(call, env.storage.escrows[id]));
}

} // verus!
