//! The names in storage and in events tell apart what they stand for.
use crate::types::{Address, EscrowError, Event, Key, Symbol};
use vstd::prelude::*;

verus! {

/// Whether two keys are of the same kind; such keys differ in what they name.
pub open spec fn same_family(a: Key, b: Key) -> bool {
    match a {
        Key::Admin => b is Admin,
        Key::Treasury => b is Treasury,
        Key::FeeBps => b is FeeBps,
        Key::EscrowCount => b is EscrowCount,
        Key::AutoReleaseDelay => b is AutoReleaseDelay,
        Key::Session(_) => b is Session,
        Key::ApprovedToken(_) => b is ApprovedToken,
        Key::Escrow(_) => b is Escrow,
        Key::Review(_) => b is Review,
        Key::PriceCache => b is PriceCache,
        Key::PriceCacheTime => b is PriceCacheTime,
        Key::DynamicFeeEnabled => b is DynamicFeeEnabled,
        Key::LiquidityPool => b is LiquidityPool,
    }
}

/// Entries of different kinds have different names, so none is written over
/// another.
pub proof fn law_entries_have_names_of_their_own(a: Key, b: Key)
    ensures
        a.name_text() == b.name_text() <==> same_family(a, b),
{
    reveal_strlit("ADMIN");
    reveal_strlit("TREASURY");
    reveal_strlit("FEE_BPS");
    reveal_strlit("ESC_CNT");
    reveal_strlit("AR_DELAY");
    reveal_strlit("SESSION");
    reveal_strlit("APRV_TOK");
    reveal_strlit("ESCROW");
    reveal_strlit("REVIEW");
    reveal_strlit("PRC_CSH");
    reveal_strlit("PRC_TM");
    reveal_strlit("DYN_FEE");
    reveal_strlit("LIQ_POOL");
    let (x, y) = (a.name_text(), b.name_text());
    assert(x == y ==> x.len() == y.len() && x[0] == y[0] && x[1] == y[1]);
}

/// The names under which entries are found, whatever is in the keys.
pub proof fn law_names_in_storage(token: Address, session_id: Symbol, id: u64)
    ensures
        Key::Admin.name_text() == "ADMIN"@,
        Key::Treasury.name_text() == "TREASURY"@,
        Key::FeeBps.name_text() == "FEE_BPS"@,
        Key::EscrowCount.name_text() == "ESC_CNT"@,
        Key::AutoReleaseDelay.name_text() == "AR_DELAY"@,
        Key::Session(session_id).name_text() == "SESSION"@,
        Key::ApprovedToken(token).name_text() == "APRV_TOK"@,
        Key::Escrow(id).name_text() == "ESCROW"@,
        Key::Review(id).name_text() == "REVIEW"@,
        Key::PriceCache.name_text() == "PRC_CSH"@,
        Key::PriceCacheTime.name_text() == "PRC_TM"@,
        Key::DynamicFeeEnabled.name_text() == "DYN_FEE"@,
        Key::LiquidityPool.name_text() == "LIQ_POOL"@,
{
}

/// The topics under which events are found, whatever is in the events.
pub proof fn law_topics_of_events(event: Event)
    ensures
        event is Created ==> event.topic_text() == "Created"@,
        event is Released ==> event.topic_text() == "Released"@,
        event is PartiallyReleased ==> event.topic_text() == "rel_part"@,
        event is AdminReleased ==> event.topic_text() == "adm_rel"@,
        event is AutoReleased ==> event.topic_text() == "AutoReleased"@,
        event is DisputeOpened ==> event.topic_text() == "DisputeOpened"@,
        event is DisputeResolved ==> event.topic_text() == "disp_res"@,
        event is Refunded ==> event.topic_text() == "Refunded"@,
        event is ReviewSubmitted ==> event.topic_text() == "ReviewSubmitted"@,
{
}

/// A refusal reads the same whoever has to authorize the call, and whatever is
/// missing.
pub proof fn law_refusals_read_the_same(who: Address, key: Key)
    ensures
        EscrowError::AuthRequired(who).text() == "Authorization required"@,
        EscrowError::EntryMissing(key).text() == "Entry not found"@,
{
}

/// Whether two events are of the same kind.
pub open spec fn same_kind(a: Event, b: Event) -> bool {
    match a {
        Event::Created { .. } => b is Created,
        Event::Released { .. } => b is Released,
        Event::PartiallyReleased { .. } => b is PartiallyReleased,
        Event::AdminReleased { .. } => b is AdminReleased,
        Event::AutoReleased { .. } => b is AutoReleased,
        Event::DisputeOpened { .. } => b is DisputeOpened,
        Event::DisputeResolved { .. } => b is DisputeResolved,
        Event::Refunded { .. } => b is Refunded,
        Event::ReviewSubmitted { .. } => b is ReviewSubmitted,
    }
}

/// The topic tells what happened.
pub proof fn law_topics_tell_events_apart(a: Event, b: Event)
    ensures
        a.topic_text() == b.topic_text() <==> same_kind(a, b),
{
    reveal_strlit("Created");
    reveal_strlit("Released");
    reveal_strlit("rel_part");
    reveal_strlit("adm_rel");
    reveal_strlit("AutoReleased");
    reveal_strlit("DisputeOpened");
    reveal_strlit("disp_res");
    reveal_strlit("Refunded");
    reveal_strlit("ReviewSubmitted");
    let (x, y) = (a.topic_text(), b.topic_text());
    assert(x == y ==> x.len() == y.len() && x[0] == y[0] && x[2] == y[2]);
}

} // verus!
