//! What a call reads and what it leaves behind.
use crate::table::{Table, TableKey};
use crate::types::{Action, Address, Escrow, Symbol};
use std::collections::BTreeMap;
use vstd::prelude::*;

verus! {

broadcast use vstd::std_specs::btree::group_btree_axioms;

impl TableKey for Address {
    fn same(&self, other: &Self) -> (r: bool) {
        *self == *other
    }
}

impl TableKey for Symbol {
    fn same(&self, other: &Self) -> (r: bool) {
        *self == *other
    }
}

/// An account with a token: whose it is, and of which token.
#[derive(Clone, Copy, Debug)]
pub struct Holding {
    pub token: Address,
    pub holder: Address,
}

impl TableKey for Holding {
    fn same(&self, other: &Self) -> (r: bool) {
        self.token == other.token && self.holder == other.holder
    }
}

/// The contract's own entries. An entry that was never written is `None`, or
/// missing in its map.
#[derive(Clone, Debug)]
pub struct Storage {
    pub admin: Option<Address>,
    pub treasury: Option<Address>,
    pub fee_bps: Option<u32>,
    pub escrow_count: Option<u64>,
    pub auto_release_delay: Option<u64>,
    /// The session ids that were used.
    pub sessions: Table<Symbol, bool>,
    pub approved_tokens: Table<Address, bool>,
    pub escrows: BTreeMap<u64, Escrow>,
    pub reviews: BTreeMap<u64, Symbol>,
    /// The last price that was fetched, and the ledger in which it was.
    pub price_cache: Option<i128>,
    pub price_cache_time: Option<u32>,
    pub dynamic_fee_enabled: Option<bool>,
    pub liquidity_pool: Option<Address>,
}

/// [`Storage`] as a mathematical value.
#[verifier::ext_equal]
pub struct StorageView {
    pub admin: Option<Address>,
    pub treasury: Option<Address>,
    pub fee_bps: Option<u32>,
    pub escrow_count: Option<u64>,
    pub auto_release_delay: Option<u64>,
    pub sessions: Map<Symbol, bool>,
    pub approved_tokens: Map<Address, bool>,
    pub escrows: Map<u64, Escrow>,
    pub reviews: Map<u64, Symbol>,
    pub price_cache: Option<i128>,
    pub price_cache_time: Option<u32>,
    pub dynamic_fee_enabled: Option<bool>,
    pub liquidity_pool: Option<Address>,
}

impl View for Storage {
    type V = StorageView;

    open spec fn view(&self) -> StorageView {
        StorageView {
            admin: self.admin,
            treasury: self.treasury,
            fee_bps: self.fee_bps,
            escrow_count: self.escrow_count,
            auto_release_delay: self.auto_release_delay,
            sessions: self.sessions@,
            approved_tokens: self.approved_tokens@,
            escrows: self.escrows@,
            reviews: self.reviews@,
            price_cache: self.price_cache,
            price_cache_time: self.price_cache_time,
            dynamic_fee_enabled: self.dynamic_fee_enabled,
            liquidity_pool: self.liquidity_pool,
        }
    }
}

impl StorageView {
    /// The storage of a contract that was never called.
    pub open spec fn empty() -> StorageView {
        StorageView {
            admin: None,
            treasury: None,
            fee_bps: None,
            escrow_count: None,
            auto_release_delay: None,
            sessions: Map::empty(),
            approved_tokens: Map::empty(),
            escrows: Map::empty(),
            reviews: Map::empty(),
            price_cache: None,
            price_cache_time: None,
            dynamic_fee_enabled: None,
            liquidity_pool: None,
        }
    }
}

impl Storage {
    pub fn new() -> (r: Storage)
        ensures
            r@ == StorageView::empty(),
    {
        Storage {
            admin: None,
            treasury: None,
            fee_bps: None,
            escrow_count: None,
            auto_release_delay: None,
            sessions: Table::new(),
            approved_tokens: Table::new(),
            escrows: BTreeMap::new(),
            reviews: BTreeMap::new(),
            price_cache: None,
            price_cache_time: None,
            dynamic_fee_enabled: None,
            liquidity_pool: None,
        }
    }
}

/// The surroundings of a call: the ledger in which it runs, who authorized it,
/// what the tokens say, what the contract has stored, and the host work that
/// was decided on so far.
#[derive(Clone, Debug)]
pub struct Env {
    /// The contract's own address.
    pub contract_address: Address,
    /// The sequence number of the ledger.
    pub sequence: u32,
    /// The closing time of the ledger, in seconds.
    pub timestamp: u64,
    /// The addresses that authorized the call.
    pub authorizers: Vec<Address>,
    /// What the tokens report; a holding that is not listed is 0.
    pub balances: Table<Holding, i128>,
    pub storage: Storage,
    /// The host work, in the order in which it is to be done.
    pub log: Vec<Action>,
}

/// [`Env`] as a mathematical value.
#[verifier::ext_equal]
pub struct EnvView {
    pub contract_address: Address,
    pub sequence: u32,
    pub timestamp: u64,
    pub authorizers: Seq<Address>,
    pub balances: Map<Holding, i128>,
    pub storage: StorageView,
    pub log: Seq<Action>,
}

impl View for Env {
    type V = EnvView;

    open spec fn view(&self) -> EnvView {
        EnvView {
            contract_address: self.contract_address,
            sequence: self.sequence,
            timestamp: self.timestamp,
            authorizers: self.authorizers@,
            balances: self.balances@,
            storage: self.storage@,
            log: self.log@,
        }
    }
}

impl EnvView {
    /// Whether `who` authorized the call.
    pub open spec fn authorized(self, who: Address) -> bool {
        self.authorizers.contains(who)
    }

    /// What `holder` has of the token at `token`.
    pub open spec fn balance(self, token: Address, holder: Address) -> i128 {
        let holding = Holding { token, holder };
        if self.balances.contains_key(holding) {
            self.balances[holding]
        } else {
            0
        }
    }

    /// Whether escrows can be opened in the token at `token`.
    pub open spec fn token_approved(self, token: Address) -> bool {
        self.storage.approved_tokens.contains_key(token) && self.storage.approved_tokens[token]
    }

    /// The number of escrows that were opened.
    pub open spec fn escrow_count(self) -> u64 {
        match self.storage.escrow_count {
            Some(count) => count,
            None => 0,
        }
    }

    /// The same surroundings with one more piece of host work.
    pub open spec fn logged(self, action: Action) -> EnvView {
        EnvView { log: self.log.push(action), ..self }
    }

    /// The same surroundings with another storage.
    pub open spec fn with_storage(self, storage: StorageView) -> EnvView {
        EnvView { storage, ..self }
    }
}

impl Env {
    /// The surroundings of a contract that has stored nothing: nobody
    /// authorized anything, and no balance is known.
    pub fn new(contract_address: Address, sequence: u32, timestamp: u64) -> (r: Env)
        ensures
            r@ == (EnvView {
                contract_address,
                sequence,
                timestamp,
                authorizers: Seq::empty(),
                balances: Map::empty(),
                storage: StorageView::empty(),
                log: Seq::empty(),
            }),
    {
        Env {
            contract_address,
            sequence,
            timestamp,
            authorizers: Vec::new(),
            balances: Table::new(),
            storage: Storage::new(),
            log: Vec::new(),
        }
    }

    /// Whether `who` authorized the call.
    pub fn is_authorized(&self, who: Address) -> (r: bool)
        ensures
            r == self@.authorized(who),
    {
        let mut i: usize = 0;
        while i < self.authorizers.len()
            invariant
                i <= self.authorizers@.len(),
                forall|j: int| 0 <= j < i ==> self.authorizers@[j] != who,
            decreases self.authorizers@.len() - i,
        {
            if self.authorizers[i] == who {
                assert(self.authorizers@[i as int] == who);
                return true;
            }
            i += 1;
        }
        false
    }

    /// What `holder` has of the token at `token`.
    pub fn balance(&self, token: Address, holder: Address) -> (r: i128)
        ensures
            r == self@.balance(token, holder),
    {
        match self.balances.get(Holding { token, holder }) {
            Some(amount) => amount,
            None => 0,
        }
    }

    /// The escrow under `id`.
    pub fn escrow(&self, id: u64) -> (r: Option<Escrow>)
        ensures
            r == (if self@.storage.escrows.contains_key(id) {
                Some(self@.storage.escrows[id])
            } else {
                None
            }),
    {
        match self.storage.escrows.get(&id) {
            Some(escrow) => Some(*escrow),
            None => None,
        }
    }

    /// Appends to the host work.
    pub fn record(&mut self, action: Action)
        ensures
            final(self)@ == old(self)@.logged(action),
    {
        self.log.push(action);
    }
}

} // verus!
