//! The data that the escrow keeps, the events that it announces and the
//! reasons for which it refuses a call.
use vstd::prelude::*;

verus! {

broadcast use vstd::array::group_array_axioms;

/// The fee, in basis points, where none was configured.
pub const DEFAULT_FEE_BPS: u32 = 500;

/// The highest fee that can be configured: 10%, in basis points.
pub const MAX_FEE_BPS: u32 = 1_000;

/// The number of basis points in the whole.
pub const BPS_DENOMINATOR: i128 = 10_000;

/// The default time between the end of a session and its automatic release:
/// 72 hours, in seconds.
pub const DEFAULT_AUTO_RELEASE_DELAY: u64 = 259_200;

/// An entry whose remaining lifetime, in ledgers, is below this is extended.
pub const ESCROW_TTL_THRESHOLD: u32 = 500_000;

/// The lifetime, in ledgers, to which an entry is extended.
pub const ESCROW_TTL_BUMP: u32 = 1_000_000;

/// An account or a contract, as the 56 characters of its strkey.
#[derive(Clone, Copy, Debug)]
pub struct Address {
    pub strkey: [u8; 56],
}

impl PartialEq for Address {
    fn eq(&self, other: &Self) -> (r: bool) {
        let mut i: usize = 0;
        while i < 56
            invariant
                i <= 56,
                forall|j: int| 0 <= j < i ==> self.strkey[j] == other.strkey[j],
            decreases 56 - i,
        {
            if self.strkey[i] != other.strkey[i] {
                return false;
            }
            i += 1;
        }
        assert(self.strkey =~= other.strkey);
        true
    }
}

impl vstd::std_specs::cmp::PartialEqSpecImpl for Address {
    open spec fn obeys_eq_spec() -> bool {
        true
    }

    open spec fn eq_spec(&self, other: &Self) -> bool {
        *self == *other
    }
}

impl Eq for Address {

}

/// A short identifier: its characters, padded with zeros to 32 bytes.
#[derive(Clone, Copy, Debug)]
pub struct Symbol {
    pub text: [u8; 32],
}

impl Symbol {
    /// The symbol without any character.
    pub open spec fn blank() -> Symbol {
        Symbol { text: vstd::array::spec_array_fill_for_copy_type::<u8, 32>(0) }
    }

    pub fn empty() -> (r: Symbol)
        ensures
            r == Symbol::blank(),
    {
        Symbol { text: [0u8;32] }
    }
}

impl PartialEq for Symbol {
    fn eq(&self, other: &Self) -> (r: bool) {
        let mut i: usize = 0;
        while i < 32
            invariant
                i <= 32,
                forall|j: int| 0 <= j < i ==> self.text[j] == other.text[j],
            decreases 32 - i,
        {
            if self.text[i] != other.text[i] {
                return false;
            }
            i += 1;
        }
        assert(self.text =~= other.text);
        true
    }
}

impl vstd::std_specs::cmp::PartialEqSpecImpl for Symbol {
    open spec fn obeys_eq_spec() -> bool {
        true
    }

    open spec fn eq_spec(&self, other: &Self) -> bool {
        *self == *other
    }
}

impl Eq for Symbol {

}

/// Where an escrow stands.
#[derive(Clone, Copy, Debug, PartialEq, Eq, Structural)]
pub enum EscrowStatus {
    Active,
    Released,
    Disputed,
    Refunded,
    Resolved,
}

/// One deposit and what became of it.
#[derive(Clone, Copy, Debug, PartialEq, Eq)]
pub struct Escrow {
    pub id: u64,
    pub mentor: Address,
    pub learner: Address,
    /// What of the deposit was not released. A refund, and a dispute that is
    /// resolved for the learner, leave it standing at what went back.
    pub amount: i128,
    pub session_id: Symbol,
    pub status: EscrowStatus,
    pub created_at: u64,
    pub token_address: Address,
    /// What went to the treasury so far. Once a dispute was resolved for the
    /// learner: what went back to them.
    pub platform_fee: i128,
    /// What went to the mentor so far. Once a dispute was resolved for the
    /// learner: 0.
    pub net_amount: i128,
    pub session_end_time: u64,
    pub auto_release_delay: u64,
    pub dispute_reason: Symbol,
    pub resolved_at: u64,
}

#[derive(Clone, Copy, Debug, PartialEq, Eq)]
pub struct EscrowCreatedEventData {
    pub mentor: Address,
    pub learner: Address,
    pub amount: i128,
    pub session_id: Symbol,
    pub token_address: Address,
    pub session_end_time: u64,
}

#[derive(Clone, Copy, Debug, PartialEq, Eq)]
pub struct EscrowReleasedEventData {
    pub mentor: Address,
    pub amount: i128,
    pub net_amount: i128,
    pub platform_fee: i128,
    pub token_address: Address,
}

#[derive(Clone, Copy, Debug, PartialEq, Eq)]
pub struct EscrowAutoReleasedEventData {
    pub time: u64,
}

#[derive(Clone, Copy, Debug, PartialEq, Eq)]
pub struct DisputeOpenedEventData {
    pub caller: Address,
    pub reason: Symbol,
    pub token_address: Address,
}

/// A settlement in percent. No entry point announces one: the settlements that
/// it makes are all or nothing, and [`Event::DisputeResolved`] carries them.
#[derive(Clone, Copy, Debug, PartialEq, Eq)]
pub struct DisputeResolvedEventData {
    pub mentor_pct: u32,
    pub mentor_amount: i128,
    pub learner_amount: i128,
    pub token_address: Address,
    pub time: u64,
}

#[derive(Clone, Copy, Debug, PartialEq, Eq)]
pub struct EscrowRefundedEventData {
    pub learner: Address,
    pub amount: i128,
    pub token_address: Address,
}

#[derive(Clone, Copy, Debug, PartialEq, Eq)]
pub struct ReviewSubmittedEventData {
    pub caller: Address,
    pub reason: Symbol,
    pub mentor: Address,
}

/// An announcement. Its topics are `"Escrow"`, [`Event::topic`] and `id`.
#[derive(Clone, Copy, Debug, PartialEq, Eq)]
pub enum Event {
    Created { id: u64, data: EscrowCreatedEventData },
    Released { id: u64, data: EscrowReleasedEventData },
    PartiallyReleased {
        id: u64,
        mentor: Address,
        amount: i128,
        net_amount: i128,
        platform_fee: i128,
        token_address: Address,
        remaining: i128,
    },
    AdminReleased { id: u64, time: u64 },
    AutoReleased { id: u64, data: EscrowAutoReleasedEventData },
    DisputeOpened { id: u64, data: DisputeOpenedEventData },
    DisputeResolved {
        id: u64,
        release_to_mentor: bool,
        mentor_amount: i128,
        learner_amount: i128,
        token_address: Address,
        time: u64,
    },
    Refunded { id: u64, data: EscrowRefundedEventData },
    ReviewSubmitted { id: u64, data: ReviewSubmittedEventData },
}

impl Event {
    pub open spec fn topic_text(self) -> Seq<char> {
        match self {
            Event::Created { .. } => "Created"@,
            Event::Released { .. } => "Released"@,
            Event::PartiallyReleased { .. } => "rel_part"@,
            Event::AdminReleased { .. } => "adm_rel"@,
            Event::AutoReleased { .. } => "AutoReleased"@,
            Event::DisputeOpened { .. } => "DisputeOpened"@,
            Event::DisputeResolved { .. } => "disp_res"@,
            Event::Refunded { .. } => "Refunded"@,
            Event::ReviewSubmitted { .. } => "ReviewSubmitted"@,
        }
    }

    /// The topic that tells the kinds of events apart.
    pub fn topic(&self) -> (r: &'static str)
        ensures
            r@ == self.topic_text(),
    {
        match self {
            Event::Created { .. } => "Created",
            Event::Released { .. } => "Released",
            Event::PartiallyReleased { .. } => "rel_part",
            Event::AdminReleased { .. } => "adm_rel",
            Event::AutoReleased { .. } => "AutoReleased",
            Event::DisputeOpened { .. } => "DisputeOpened",
            Event::DisputeResolved { .. } => "disp_res",
            Event::Refunded { .. } => "Refunded",
            Event::ReviewSubmitted { .. } => "ReviewSubmitted",
        }
    }
}

/// What an entry is stored under. The last four are instance entries, which
/// live as long as the contract; the others are persistent ones.
#[derive(Clone, Copy, Debug, PartialEq, Eq)]
pub enum Key {
    Admin,
    Treasury,
    FeeBps,
    EscrowCount,
    AutoReleaseDelay,
    Session(Symbol),
    ApprovedToken(Address),
    Escrow(u64),
    Review(u64),
    PriceCache,
    PriceCacheTime,
    DynamicFeeEnabled,
    LiquidityPool,
}

impl Key {
    pub open spec fn name_text(self) -> Seq<char> {
        match self {
            Key::Admin => "ADMIN"@,
            Key::Treasury => "TREASURY"@,
            Key::FeeBps => "FEE_BPS"@,
            Key::EscrowCount => "ESC_CNT"@,
            Key::AutoReleaseDelay => "AR_DELAY"@,
            Key::Session(_) => "SESSION"@,
            Key::ApprovedToken(_) => "APRV_TOK"@,
            Key::Escrow(_) => "ESCROW"@,
            Key::Review(_) => "REVIEW"@,
            Key::PriceCache => "PRC_CSH"@,
            Key::PriceCacheTime => "PRC_TM"@,
            Key::DynamicFeeEnabled => "DYN_FEE"@,
            Key::LiquidityPool => "LIQ_POOL"@,
        }
    }

    /// The name of the entry, or of the family of entries, in storage.
    pub fn name(&self) -> (r: &'static str)
        ensures
            r@ == self.name_text(),
    {
        match self {
            Key::Admin => "ADMIN",
            Key::Treasury => "TREASURY",
            Key::FeeBps => "FEE_BPS",
            Key::EscrowCount => "ESC_CNT",
            Key::AutoReleaseDelay => "AR_DELAY",
            Key::Session(_) => "SESSION",
            Key::ApprovedToken(_) => "APRV_TOK",
            Key::Escrow(_) => "ESCROW",
            Key::Review(_) => "REVIEW",
            Key::PriceCache => "PRC_CSH",
            Key::PriceCacheTime => "PRC_TM",
            Key::DynamicFeeEnabled => "DYN_FEE",
            Key::LiquidityPool => "LIQ_POOL",
        }
    }
}

/// One piece of host work.
#[derive(Clone, Copy, Debug, PartialEq, Eq)]
pub enum Action {
    /// Write the entry under the key to storage.
    Store(Key),
    /// Extend the lifetime of the entry to [`ESCROW_TTL_BUMP`] where it is below
    /// [`ESCROW_TTL_THRESHOLD`]. The host fails where there is no such entry.
    ExtendTtl(Key),
    /// Move `amount` of the token at `token` between two holders.
    Transfer { token: Address, from: Address, to: Address, amount: i128 },
    /// Publish an event.
    Publish(Event),
}

/// Why a call was refused.
#[derive(Clone, Copy, Debug, PartialEq, Eq)]
pub enum EscrowError {
    AlreadyInitialized,
    FeeTooHigh,
    NotInitialized,
    AdminNotFound,
    TreasuryNotFound,
    TreasuryNotSet,
    InvalidAmount,
    TokenNotApproved,
    InsufficientBalance,
    SessionExists,
    CounterOverflow,
    EscrowNotFound,
    NotActive,
    NotDisputed,
    CannotRefund,
    InvalidReleaseAmount,
    CallerNotAuthorized,
    CallerCannotDispute,
    NotLearner,
    NotReleased,
    Overflow,
    TimestampOverflow,
    WindowNotElapsed,
    /// The call extends the lifetime of this entry, which is not there.
    EntryMissing(Key),
    /// The call needs the authorization of this address and does not have it.
    AuthRequired(Address),
}

impl EscrowError {
    pub open spec fn text(self) -> Seq<char> {
        match self {
            EscrowError::AlreadyInitialized => "Already initialized"@,
            EscrowError::FeeTooHigh => "Fee exceeds maximum (1000 bps)"@,
            EscrowError::NotInitialized => "Not initialized"@,
            EscrowError::AdminNotFound => "Admin not found"@,
            EscrowError::TreasuryNotFound => "Treasury not found"@,
            EscrowError::TreasuryNotSet => "Treasury not set"@,
            EscrowError::InvalidAmount => "Amount must be greater than zero"@,
            EscrowError::TokenNotApproved => "Token not approved"@,
            EscrowError::InsufficientBalance => "Insufficient token balance"@,
            EscrowError::SessionExists => "Session ID already exists"@,
            EscrowError::CounterOverflow => "Counter overflow"@,
            EscrowError::EscrowNotFound => "Escrow not found"@,
            EscrowError::NotActive => "Escrow not active"@,
            EscrowError::NotDisputed => "Escrow is not in Disputed status"@,
            EscrowError::CannotRefund => "Cannot refund"@,
            EscrowError::InvalidReleaseAmount => "Invalid release amount"@,
            EscrowError::CallerNotAuthorized => "Caller not authorized"@,
            EscrowError::CallerCannotDispute => "Caller not authorized to dispute"@,
            EscrowError::NotLearner => "Only learner can submit review"@,
            EscrowError::NotReleased => "Can only review released escrows"@,
            EscrowError::Overflow => "Overflow"@,
            EscrowError::TimestampOverflow => "Timestamp overflow"@,
            EscrowError::WindowNotElapsed => "Auto-release window has not elapsed"@,
            EscrowError::EntryMissing(_) => "Entry not found"@,
            EscrowError::AuthRequired(_) => "Authorization required"@,
        }
    }

    /// The refusal in words.
    pub fn message(&self) -> (r: &'static str)
        ensures
            r@ == self.text(),
    {
        match self {
            EscrowError::AlreadyInitialized => "Already initialized",
            EscrowError::FeeTooHigh => "Fee exceeds maximum (1000 bps)",
            EscrowError::NotInitialized => "Not initialized",
            EscrowError::AdminNotFound => "Admin not found",
            EscrowError::TreasuryNotFound => "Treasury not found",
            EscrowError::TreasuryNotSet => "Treasury not set",
            EscrowError::InvalidAmount => "Amount must be greater than zero",
            EscrowError::TokenNotApproved => "Token not approved",
            EscrowError::InsufficientBalance => "Insufficient token balance",
            EscrowError::SessionExists => "Session ID already exists",
            EscrowError::CounterOverflow => "Counter overflow",
            EscrowError::EscrowNotFound => "Escrow not found",
            EscrowError::NotActive => "Escrow not active",
            EscrowError::NotDisputed => "Escrow is not in Disputed status",
            EscrowError::CannotRefund => "Cannot refund",
            EscrowError::InvalidReleaseAmount => "Invalid release amount",
            EscrowError::CallerNotAuthorized => "Caller not authorized",
            EscrowError::CallerCannotDispute => "Caller not authorized to dispute",
            EscrowError::NotLearner => "Only learner can submit review",
            EscrowError::NotReleased => "Can only review released escrows",
            EscrowError::Overflow => "Overflow",
            EscrowError::TimestampOverflow => "Timestamp overflow",
            EscrowError::WindowNotElapsed => "Auto-release window has not elapsed",
            EscrowError::EntryMissing(_) => "Entry not found",
            EscrowError::AuthRequired(_) => "Authorization required",
        }
    }
}

} // verus!
