//! Whole histories of calls.
use crate::laws::calls::{law_refused_calls_change_nothing, refusal, step, Call};
use crate::laws::custody::{
    balanced, covered, held, law_books_stay_balanced, law_deposits_stay_covered, outsiders_only,
    owed,
};
use crate::env::{EnvView, Holding, StorageView};
use crate::laws::fees::law_price_is_fixed_within_a_ledger;
use crate::laws::footprint::{law_other_entries_are_untouched, same_entry, writes};
use crate::laws::host_work::law_calls_only_add;
use crate::laws::lifecycle::{
    accounts_for, law_ids_count_up, law_new_escrow_is_found, law_sessions_are_used_once, law_settled_escrows_are_final,
    law_terms_are_fixed, lemma_accounts, same_terms,
};
use crate::laws::settings::law_settings_are_the_administrators;
use crate::laws::soundness::{
    is_open, law_storage_stays_well_formed, lemma_fee_asked, lemma_initialized, sound, well_formed,
};
use crate::model::{new_escrow, next_id};
use crate::types::{Address, Escrow, EscrowError, EscrowStatus, Key, Symbol, MAX_FEE_BPS};
use vstd::prelude::*;

verus! {

/// What changes between calls without the contract: the ledger, who authorized
/// the call, and what the tokens report.
pub struct Setting {
    pub sequence: u32,
    pub timestamp: u64,
    pub authorizers: Seq<Address>,
    pub balances: Map<Holding, i128>,
}

/// A contract that was never called.
pub open spec fn fresh(contract_address: Address, setting: Setting) -> EnvView {
    EnvView {
        contract_address,
        sequence: setting.sequence,
        timestamp: setting.timestamp,
        authorizers: setting.authorizers,
        balances: setting.balances,
        storage: StorageView::empty(),
        log: Seq::empty(),
    }
}

/// The same contract in another setting.
pub open spec fn moved(env: EnvView, setting: Setting) -> EnvView {
    EnvView {
        sequence: setting.sequence,
        timestamp: setting.timestamp,
        authorizers: setting.authorizers,
        balances: setting.balances,
        ..env
    }
}

/// What is left behind by calls one after the other, each in its own setting.
pub open spec fn run(env: EnvView, history: Seq<(Setting, Call)>) -> EnvView
    decreases history.len(),
{
    if history.len() == 0 {
        env
    } else {
        step(moved(run(env, history.drop_last()), history.last().0), history.last().1)
    }
}

/// The surroundings of the last call of a history.
pub open spec fn before_last(env: EnvView, history: Seq<(Setting, Call)>) -> EnvView {
    moved(run(env, history.drop_last()), history.last().0)
}

/// Whatever is called, in whatever order and by whomever, the storage stays
/// well-formed.
pub proof fn law_every_history_is_well_formed(env: EnvView, history: Seq<(Setting, Call)>)
    requires
        well_formed(env.storage),
    ensures
        well_formed(run(env, history).storage),
        run(env, history).contract_address == env.contract_address,
    decreases history.len(),
{
    if history.len() > 0 {
        law_every_history_is_well_formed(env, history.drop_last());
        law_storage_stays_well_formed(before_last(env, history), history.last().1);
        law_calls_only_add(before_last(env, history), history.last().1);
    }
}

/// The storage of a contract is well-formed from its first call on.
pub proof fn law_storage_is_well_formed(
    contract_address: Address,
    setting: Setting,
    history: Seq<(Setting, Call)>,
)
    ensures
        well_formed(run(fresh(contract_address, setting), history).storage),
        run(fresh(contract_address, setting), history).contract_address == contract_address,
{
    let start = fresh(contract_address, setting);
    law_storage_stays_well_formed(start, Call::GetFeeBps);
    law_every_history_is_well_formed(start, history);
}

/// Whatever is called, in whatever order and by whomever, the contract has what
/// it owes, as long as it does not open escrows with itself as the learner.
pub proof fn law_every_history_is_covered(
    contract_address: Address,
    setting: Setting,
    history: Seq<(Setting, Call)>,
)
    requires
        forall|i: int|
            #![trigger history[i]]
            0 <= i < history.len() ==> (history[i].1 matches Call::CreateEscrow { learner, .. }
                ==> learner != contract_address),
    ensures
        covered(run(fresh(contract_address, setting), history)),
    decreases history.len(),
{
    let start = fresh(contract_address, setting);
    if history.len() == 0 {
        assert forall|token: Address| #[trigger]
            owed(start.storage.escrows, token, start.escrow_count() as int) <= held(
                start.log,
                contract_address,
                token,
            ) by {}
    } else {
        let front = history.drop_last();
        assert forall|i: int|
            #![trigger front[i]]
            0 <= i < front.len() implies (front[i].1 matches Call::CreateEscrow { learner, .. }
            ==> learner != contract_address) by {
            assert(front[i] == history[i]);
        }
        law_every_history_is_covered(contract_address, setting, front);
        law_storage_is_well_formed(contract_address, setting, front);
        let (next, call) = history.last();
        assert(history[history.len() - 1] == (next, call));
        let earlier = run(start, front);
        let before = moved(earlier, next);
        assert forall|token: Address| #[trigger]
            owed(before.storage.escrows, token, before.escrow_count() as int) <= held(
                before.log,
                before.contract_address,
                token,
            ) by {
            assert(owed(earlier.storage.escrows, token, earlier.escrow_count() as int) <= held(
                earlier.log,
                earlier.contract_address,
                token,
            ));
        }
        law_deposits_stay_covered(before, call);
    }
}

/// Whether a call makes the contract itself neither the treasury nor a party of
/// an escrow.
pub open spec fn is_among_outsiders(call: Call, contract_address: Address) -> bool {
    match call {
        Call::Initialize { treasury, .. } => treasury != contract_address,
        Call::UpdateTreasury { new_treasury } => new_treasury != contract_address,
        Call::CreateEscrow { mentor, learner, .. } => mentor != contract_address && learner
            != contract_address,
        _ => true,
    }
}

/// As long as nobody names the contract itself, it stays out.
proof fn lemma_outsiders(env: EnvView, call: Call)
    requires
        well_formed(env.storage),
        outsiders_only(env),
        is_among_outsiders(call, env.contract_address),
    ensures
        outsiders_only(step(env, call)),
{
    reveal(step);
    let after = step(env, call);
    law_storage_stays_well_formed(env, call);
    law_calls_only_add(env, call);
    law_ids_count_up(env, call);
    law_other_entries_are_untouched(env, call, Key::Treasury);
    if let Call::Initialize {
        admin,
        treasury,
        fee_bps,
        approved_tokens,
        auto_release_delay_secs,
    } = call {
        lemma_initialized(
            env,
            admin,
            treasury,
            fee_bps,
            approved_tokens,
            auto_release_delay_secs,
        );
    }
    assert forall|id: u64| #[trigger]
        after.storage.escrows.contains_key(id) implies after.storage.escrows[id].mentor
        != after.contract_address && after.storage.escrows[id].learner
        != after.contract_address by {
        if env.storage.escrows.contains_key(id) {
            law_terms_are_fixed(env, call, id);
        } else {
            assert(call is CreateEscrow);
            assert(id == next_id(env));
        }
    }
}

/// Where nobody names the contract itself as the treasury or as a party, then,
/// whatever is called, in whatever order and by whomever, the contract has
/// exactly what it owes: nothing is missing and nothing stays behind.
pub proof fn law_every_history_is_balanced(
    contract_address: Address,
    setting: Setting,
    history: Seq<(Setting, Call)>,
)
    requires
        forall|i: int|
            #![trigger history[i]]
            0 <= i < history.len() ==> is_among_outsiders(history[i].1, contract_address),
    ensures
        balanced(run(fresh(contract_address, setting), history)),
        outsiders_only(run(fresh(contract_address, setting), history)),
    decreases history.len(),
{
    let start = fresh(contract_address, setting);
    if history.len() == 0 {
        assert forall|token: Address| #[trigger]
            owed(start.storage.escrows, token, start.escrow_count() as int) == held(
                start.log,
                contract_address,
                token,
            ) by {}
    } else {
        let front = history.drop_last();
        assert forall|i: int|
            #![trigger front[i]]
            0 <= i < front.len() implies is_among_outsiders(front[i].1, contract_address) by {
            assert(front[i] == history[i]);
        }
        law_every_history_is_balanced(contract_address, setting, front);
        law_storage_is_well_formed(contract_address, setting, front);
        let (next, call) = history.last();
        assert(history[history.len() - 1] == (next, call));
        let earlier = run(start, front);
        let before = moved(earlier, next);
        assert forall|token: Address| #[trigger]
            owed(before.storage.escrows, token, before.escrow_count() as int) == held(
                before.log,
                before.contract_address,
                token,
            ) by {
            assert(owed(earlier.storage.escrows, token, earlier.escrow_count() as int) == held(
                earlier.log,
                earlier.contract_address,
                token,
            ));
        }
        lemma_outsiders(before, call);
        law_books_stay_balanced(before, call);
    }
}

/// Whether no call of a history wrote the entry under a key: each was refused,
/// or is one that does not write it.
pub open spec fn never_written(env: EnvView, history: Seq<(Setting, Call)>, key: Key) -> bool
    decreases history.len(),
{
    history.len() > 0 ==> {
        let before = before_last(env, history);
        let call = history.last().1;
        &&& never_written(env, history.drop_last(), key)
        &&& refusal(before, call) is Some || !writes(before, call, key)
    }
}

/// An entry stays what it was until it is written: what was set last is what
/// counts.
pub proof fn law_entries_stay_until_written(
    env: EnvView,
    history: Seq<(Setting, Call)>,
    key: Key,
)
    requires
        never_written(env, history, key),
    ensures
        same_entry(env.storage, run(env, history).storage, key),
    decreases history.len(),
{
    if history.len() > 0 {
        law_entries_stay_until_written(env, history.drop_last(), key);
        law_other_entries_are_untouched(before_last(env, history), history.last().1, key);
    }
}

// ---------------------------------------------------------------------------
// Settings and fees
// ---------------------------------------------------------------------------

/// Once the escrow is set up, whatever is called, the administrator and the
/// release delay stay what they were.
pub proof fn law_the_administrator_stays(env: EnvView, history: Seq<(Setting, Call)>)
    requires
        env.storage.admin is Some,
    ensures
        run(env, history).storage.admin == env.storage.admin,
        run(env, history).storage.auto_release_delay == env.storage.auto_release_delay,
    decreases history.len(),
{
    if history.len() > 0 {
        law_the_administrator_stays(env, history.drop_last());
        law_settings_are_the_administrators(before_last(env, history), history.last().1);
    }
}

/// Once the escrow is set up, whatever is called, setting it up again is
/// refused, from whomever, and changes nothing.
pub proof fn law_set_up_stays_refused(
    env: EnvView,
    history: Seq<(Setting, Call)>,
    setting: Setting,
    again: Call,
)
    requires
        env.storage.admin is Some,
        again is Initialize,
    ensures
        ({
            let later = moved(run(env, history), setting);
            &&& refusal(later, again) == Some(EscrowError::AlreadyInitialized)
            &&& step(later, again) == later
        }),
{
    law_the_administrator_stays(env, history);
    law_refused_calls_change_nothing(moved(run(env, history), setting), again);
}

/// The fee that was configured last: that of the last update that was not
/// refused, or else of the set-up.
pub open spec fn last_fee(env: EnvView, history: Seq<(Setting, Call)>) -> Option<u32>
    decreases history.len(),
{
    if history.len() == 0 {
        env.storage.fee_bps
    } else if refusal(before_last(env, history), history.last().1) is Some {
        last_fee(env, history.drop_last())
    } else {
        match history.last().1 {
            Call::UpdateFee { new_fee_bps } => Some(new_fee_bps),
            Call::Initialize { fee_bps, .. } => Some(fee_bps),
            _ => last_fee(env, history.drop_last()),
        }
    }
}

/// The configured fee is the one that was configured last.
pub proof fn law_the_last_fee_counts(env: EnvView, history: Seq<(Setting, Call)>)
    ensures
        run(env, history).storage.fee_bps == last_fee(env, history),
    decreases history.len(),
{
    if history.len() > 0 {
        law_the_last_fee_counts(env, history.drop_last());
        let (before, call) = (before_last(env, history), history.last().1);
        lemma_fee_set(before, call);
    }
}

/// A call that configures the fee configures the one that it names; a refused
/// one does not.
proof fn lemma_fee_set(env: EnvView, call: Call)
    ensures
        step(env, call).storage.fee_bps == (match call {
            Call::UpdateFee { new_fee_bps } if refusal(env, call) is None => Some(new_fee_bps),
            Call::Initialize { fee_bps, .. } if refusal(env, call) is None => Some(fee_bps),
            _ => env.storage.fee_bps,
        }),
{
    reveal(step);
    law_other_entries_are_untouched(env, call, Key::FeeBps);
    if let Call::Initialize {
        admin,
        treasury,
        fee_bps,
        approved_tokens,
        auto_release_delay_secs,
    } = call {
        lemma_initialized(
            env,
            admin,
            treasury,
            fee_bps,
            approved_tokens,
            auto_release_delay_secs,
        );
    }
}

/// Once the escrow is set up, a release pays one of the four fees by price, or,
/// where the dynamic fee is off, the fee that was configured last. Either is at
/// most the maximum.
pub proof fn law_fees_over_a_history(env: EnvView, history: Seq<(Setting, Call)>)
    requires
        well_formed(env.storage),
        env.storage.admin is Some,
    ensures
        ({
            let after = run(env, history);
            let fee = after.current_fee();
            &&& fee <= MAX_FEE_BPS
            &&& if after.dynamic_fee_on() {
                fee == 200 || fee == 300 || fee == 400 || fee == 500
            } else {
                Some(fee) == last_fee(env, history)
            }
        }),
{
    law_every_history_is_well_formed(env, history);
    law_the_last_fee_counts(env, history);
    law_the_administrator_stays(env, history);
}

/// The fee is the same throughout a ledger: once it was asked for, whatever is
/// called in the same ledger, it stays what it was, as long as nobody touches
/// the switch of the dynamic fee.
pub proof fn law_the_fee_holds_for_the_ledger(
    env: EnvView,
    history: Seq<(Setting, Call)>,
    setting: Setting,
)
    requires
        well_formed(env.storage),
        env.dynamic_fee_on(),
        setting.sequence == env.sequence,
        forall|i: int|
            #![trigger history[i]]
            0 <= i < history.len() ==> history[i].0.sequence == env.sequence && !(
            history[i].1 is SetDynamicFeeEnabled),
    ensures
        ({
            let after = moved(run(env.fee_asked(), history), setting);
            &&& after.dynamic_fee_on()
            &&& after.cached_price() == Some(env.price())
            &&& after.current_fee() == env.current_fee()
        }),
    decreases history.len(),
{
    let start = env.fee_asked();
    lemma_fee_asked(env);
    if history.len() > 0 {
        let front = history.drop_last();
        assert forall|i: int|
            #![trigger front[i]]
            0 <= i < front.len() implies front[i].0.sequence == env.sequence && !(
        front[i].1 is SetDynamicFeeEnabled) by {
            assert(front[i] == history[i]);
        }
        let (next, call) = history.last();
        assert(history[history.len() - 1] == (next, call));
        law_the_fee_holds_for_the_ledger(env, front, next);
        law_every_history_is_well_formed(start, front);
        law_calls_only_add(before_last(start, history), call);
        law_price_is_fixed_within_a_ledger(before_last(start, history), call);
    }
}

/// In another ledger the price is fetched anew: 3% where there is a pool by
/// then, and 5% where there is none.
pub proof fn law_the_next_ledger_asks_again(env: EnvView, setting: Setting)
    requires
        well_formed(env.storage),
        env.dynamic_fee_on(),
        env.storage.price_cache_time != Some(setting.sequence),
    ensures
        moved(env, setting).current_fee() == (if env.storage.liquidity_pool is Some {
            300u32
        } else {
            500u32
        }),
{
}

// ---------------------------------------------------------------------------
// Escrows
// ---------------------------------------------------------------------------

/// How many escrows were opened in a history.
pub open spec fn openings(env: EnvView, history: Seq<(Setting, Call)>) -> nat
    decreases history.len(),
{
    if history.len() == 0 {
        0
    } else {
        openings(env, history.drop_last()) + (if history.last().1 is CreateEscrow && refusal(
            before_last(env, history),
            history.last().1,
        ) is None {
            1nat
        } else {
            0
        })
    }
}

/// The count is that of the escrows that were opened; refused calls use no id.
pub proof fn law_openings_are_counted(env: EnvView, history: Seq<(Setting, Call)>)
    requires
        well_formed(env.storage),
    ensures
        run(env, history).escrow_count() == env.escrow_count() + openings(env, history),
    decreases history.len(),
{
    if history.len() > 0 {
        law_openings_are_counted(env, history.drop_last());
        law_every_history_is_well_formed(env, history.drop_last());
        law_ids_count_up(before_last(env, history), history.last().1);
    }
}

/// The ids of a contract are 1, 2, 3 and so on, without a gap and without a
/// repetition: what is opened as number `k` gets the id `k`.
pub proof fn law_ids_are_consecutive(
    contract_address: Address,
    setting: Setting,
    history: Seq<(Setting, Call)>,
)
    requires
        history.len() > 0,
        history.last().1 is CreateEscrow,
        refusal(before_last(fresh(contract_address, setting), history), history.last().1) is None,
    ensures
        ({
            let start = fresh(contract_address, setting);
            let k = openings(start, history);
            &&& next_id(before_last(start, history)) == k
            &&& run(start, history).escrow_count() == k
        }),
{
    let start = fresh(contract_address, setting);
    law_storage_is_well_formed(contract_address, setting, history);
    law_openings_are_counted(start, history);
    law_openings_are_counted(start, history.drop_last());
}

/// Whether a call is to open an escrow for a session.
pub open spec fn is_for_session(call: Call, session_id: Symbol) -> bool {
    call matches Call::CreateEscrow { session_id: named, .. } && named == session_id
}

/// A session has one escrow over the whole life of the contract: once one was
/// opened for it, whatever is called afterwards, opening another is refused,
/// with whatever parties, token and amount, and changes nothing.
pub proof fn law_sessions_stay_used(
    env: EnvView,
    opening: Call,
    history: Seq<(Setting, Call)>,
    setting: Setting,
    another: Call,
    session_id: Symbol,
)
    requires
        is_for_session(opening, session_id),
        refusal(env, opening) is None,
        is_for_session(another, session_id),
    ensures
        ({
            let later = moved(run(step(env, opening), history), setting);
            &&& later.storage.sessions.contains_key(session_id)
            &&& refusal(later, another) is Some
            &&& step(later, another) == later
        }),
    decreases history.len(),
{
    let start = step(env, opening);
    let later = moved(run(start, history), setting);
    assert(start.storage.sessions.contains_key(session_id)) by {
        reveal(step);
    }
    if history.len() > 0 {
        let (next, call) = history.last();
        law_sessions_stay_used(env, opening, history.drop_last(), next, another, session_id);
        if let Call::CreateEscrow { mentor, learner, amount, token, session_end_time, .. } =
            another {
            law_sessions_are_used_once(
                before_last(start, history),
                call,
                mentor,
                learner,
                amount,
                session_id,
                token,
                session_end_time,
            );
        }
    }
    law_refused_calls_change_nothing(later, another);
}

/// Whatever is called, an escrow that is there stays under its id and on its
/// terms, is sound, and accounts for the deposit for which it did before.
pub proof fn law_escrows_stay_accounted_for(
    env: EnvView,
    history: Seq<(Setting, Call)>,
    id: u64,
    deposit: int,
)
    requires
        well_formed(env.storage),
        env.storage.escrows.contains_key(id),
        accounts_for(env.storage.escrows[id], deposit),
    ensures
        run(env, history).storage.escrows.contains_key(id),
        sound(id, run(env, history).storage.escrows[id]),
        same_terms(env.storage.escrows[id], run(env, history).storage.escrows[id]),
        accounts_for(run(env, history).storage.escrows[id], deposit),
    decreases history.len(),
{
    law_every_history_is_well_formed(env, history);
    if history.len() > 0 {
        law_escrows_stay_accounted_for(env, history.drop_last(), id, deposit);
        law_every_history_is_well_formed(env, history.drop_last());
        let before = before_last(env, history);
        law_terms_are_fixed(before, history.last().1, id);
        lemma_accounts(before, history.last().1, id, deposit);
    }
}

/// The escrow under an id as it was when it was opened in a history.
pub open spec fn opened_as(env: EnvView, history: Seq<(Setting, Call)>, id: u64) -> Option<Escrow>
    decreases history.len(),
{
    if history.len() == 0 {
        None
    } else {
        let before = before_last(env, history);
        match history.last().1 {
            Call::CreateEscrow { mentor, learner, amount, session_id, token, session_end_time }
                if refusal(before, history.last().1) is None && id == next_id(before) => Some(
                new_escrow(before, mentor, learner, amount, session_id, token, session_end_time),
            ),
            _ => opened_as(env, history.drop_last(), id),
        }
    }
}

/// What an escrow is, whatever was called since the contract was made: every
/// escrow that is there was opened under its id. It is still on the terms on
/// which it was opened, and it is sound: nothing in it is negative, while it is
/// open it has something left, once released nothing, and only a resolved one
/// has a time at which it was resolved. Unless it was resolved, what it has left
/// and what went to the platform and to the mentor is the deposit that was made
/// at its opening; a resolved one accounts for that deposit.
pub proof fn law_escrows_account_for_their_deposits(
    contract_address: Address,
    setting: Setting,
    history: Seq<(Setting, Call)>,
    id: u64,
)
    requires
        run(fresh(contract_address, setting), history).storage.escrows.contains_key(id),
    ensures
        ({
            let start = fresh(contract_address, setting);
            let opened = opened_as(start, history, id)->0;
            let escrow = run(start, history).storage.escrows[id];
            &&& opened_as(start, history, id) is Some
            &&& 0 < opened.amount
            &&& same_terms(opened, escrow)
            &&& sound(id, escrow)
            &&& accounts_for(escrow, opened.amount as int)
            &&& escrow.status != EscrowStatus::Resolved ==> escrow.amount + escrow.platform_fee
                + escrow.net_amount == opened.amount
        }),
    decreases history.len(),
{
    let start = fresh(contract_address, setting);
    law_storage_is_well_formed(contract_address, setting, history);
    if history.len() > 0 {
        let front = history.drop_last();
        let (before, call) = (before_last(start, history), history.last().1);
        law_storage_is_well_formed(contract_address, setting, front);
        law_ids_count_up(before, call);
        if before.storage.escrows.contains_key(id) {
            law_escrows_account_for_their_deposits(contract_address, setting, front, id);
            law_terms_are_fixed(before, call, id);
            lemma_accounts(before, call, id, opened_as(start, front, id)->0.amount as int);
        } else {
            assert(call is CreateEscrow && refusal(before, call) is None);
            assert(id == next_id(before));
            if let Call::CreateEscrow {
                mentor,
                learner,
                amount,
                session_id,
                token,
                session_end_time,
            } = call {
                law_new_escrow_is_found(
                    before,
                    mentor,
                    learner,
                    amount,
                    session_id,
                    token,
                    session_end_time,
                );
            }
        }
    }
}

/// What was released, refunded or resolved stays as it is, whatever is called.
pub proof fn law_settled_escrows_stay(env: EnvView, history: Seq<(Setting, Call)>, id: u64)
    requires
        well_formed(env.storage),
        env.storage.escrows.contains_key(id),
        !is_open(env.storage.escrows[id]),
    ensures
        run(env, history).storage.escrows.contains_key(id),
        run(env, history).storage.escrows[id] == env.storage.escrows[id],
    decreases history.len(),
{
    if history.len() > 0 {
        law_settled_escrows_stay(env, history.drop_last(), id);
        law_every_history_is_well_formed(env, history.drop_last());
        law_settled_escrows_are_final(before_last(env, history), history.last().1, id);
    }
}

} // verus!
