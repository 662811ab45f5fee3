//! The world that an invocation of the marketplace sees and acts on.

use crate::address::Address;
use crate::events::Event;
use crate::table::Table;
use crate::types::{DataKey, LegacyConfig, Listing, MarketplaceConfig};
use vstd::prelude::*;

verus! {

/// Something that an invocation does outside its own memory.
///
/// Actions are carried out in order. One that fails aborts the invocation, and
/// with it everything that the invocation did.
#[derive(Debug, PartialEq, Eq)]
pub enum Action {
    /// Store the configuration.
    StoreConfig(MarketplaceConfig),
    /// Store the listing of an invoice.
    StoreListing(u64, Listing),
    /// Store whether a token is whitelisted.
    StoreWhitelisted(Address, bool),
    /// Remove the whitelist entry of a token.
    RemoveWhitelisted(Address),
    /// If a persistent entry has fewer than `threshold` ledgers left to live, extend
    /// its life to `extend_to` ledgers.
    ExtendTtl { key: DataKey, threshold: u32, extend_to: u32 },
    /// Enter the guarded section.
    Lock,
    /// Leave the guarded section.
    Unlock,
    /// Move `amount` of `token` from one holder to another.
    Transfer { token: Address, from: Address, to: Address, amount: i128 },
    /// Have the invoice contract mark the invoice as listed, on behalf of `caller`.
    SetListed { invoice_nft: Address, caller: Address, invoice_id: u64 },
    /// Have the financing pool release the funds raised for the invoice, on behalf
    /// of `caller`.
    ReleaseFunds { financing_pool: Address, caller: Address, invoice_id: u64, token: Address },
    /// Publish an event.
    Publish(Event),
}

/// The stored entries of the marketplace.
#[derive(Debug)]
pub struct Storage {
    /// The configuration.
    pub config: Option<MarketplaceConfig>,
    /// The parts of the configuration that are kept apart.
    pub legacy: LegacyConfig,
    /// The listings, by invoice.
    pub listings: Table<u64, Listing>,
    /// The whitelist entries, by token.
    pub whitelist: Table<Address, bool>,
    /// Whether a guarded section has been entered and not left.
    pub locked: bool,
}

/// What is stored.
#[verifier::ext_equal]
pub struct StorageView {
    pub config: Option<MarketplaceConfig>,
    pub legacy: LegacyConfig,
    pub listings: Map<u64, Listing>,
    pub whitelist: Map<Address, bool>,
    pub locked: bool,
}

impl View for Storage {
    type V = StorageView;

    open spec fn view(&self) -> StorageView {
        StorageView {
            config: self.config,
            legacy: self.legacy,
            listings: self.listings@,
            whitelist: self.whitelist@,
            locked: self.locked,
        }
    }
}

impl StorageView {
    /// Nothing is stored.
    pub open spec fn nothing() -> StorageView {
        StorageView {
            config: None,
            legacy: LegacyConfig {
                admin: None,
                invoice_nft: None,
                financing_pool: None,
                treasury: None,
                fee_bps: None,
            },
            listings: Map::empty(),
            whitelist: Map::empty(),
            locked: false,
        }
    }

    /// What is stored once `action` has been carried out.
    pub open spec fn after(self, action: Action) -> StorageView {
        match action {
            Action::StoreConfig(config) => StorageView { config: Some(config), ..self },
            Action::StoreListing(invoice_id, listing) => StorageView {
                listings: self.listings.insert(invoice_id, listing),
                ..self
            },
            Action::StoreWhitelisted(token, listed) => StorageView {
                whitelist: self.whitelist.insert(token, listed),
                ..self
            },
            Action::RemoveWhitelisted(token) => StorageView {
                whitelist: self.whitelist.remove(token),
                ..self
            },
            Action::Lock => StorageView { locked: true, ..self },
            Action::Unlock => StorageView { locked: false, ..self },
            _ => self,
        }
    }

    /// What is stored once `actions` have been carried out in order.
    pub open spec fn replay(self, actions: Seq<Action>) -> StorageView
        decreases actions.len(),
    {
        if actions.len() == 0 {
            self
        } else {
            self.replay(actions.drop_last()).after(actions.last())
        }
    }
}

impl Storage {
    /// Nothing stored.
    pub fn empty() -> (storage: Self)
        ensures
            storage@ == StorageView::nothing(),
    {
        Storage {
            config: None,
            legacy: LegacyConfig::none(),
            listings: Table::new(),
            whitelist: Table::new(),
            locked: false,
        }
    }
}

/// An invocation in progress.
#[derive(Debug)]
pub struct Env {
    /// The entries in storage.
    pub storage: Storage,
    /// The time of the ledger that is being closed, in seconds.
    pub timestamp: u64,
    /// The address of the marketplace itself.
    pub contract: Address,
    /// Whether the protocol is paused.
    pub paused: bool,
    /// Who has authorized the invocation.
    pub auths: Vec<Address>,
    /// What the invocation does, in order.
    pub actions: Vec<Action>,
}

/// What an invocation has seen and done so far.
#[verifier::ext_equal]
pub struct EnvView {
    pub storage: StorageView,
    pub timestamp: u64,
    pub contract: Address,
    pub paused: bool,
    pub auths: Seq<Address>,
    pub actions: Seq<Action>,
}

impl View for Env {
    type V = EnvView;

    open spec fn view(&self) -> EnvView {
        EnvView {
            storage: self.storage@,
            timestamp: self.timestamp,
            contract: self.contract,
            paused: self.paused,
            auths: self.auths@,
            actions: self.actions@,
        }
    }
}

impl EnvView {
    /// `who` has authorized the invocation.
    pub open spec fn authorized(self, who: Address) -> bool {
        self.auths.contains(who)
    }

    /// `storage` is what is stored after the further `actions`, and nothing else
    /// has changed.
    pub open spec fn then_does(self, storage: StorageView, actions: Seq<Action>) -> EnvView {
        EnvView { storage, actions: self.actions + actions, ..self }
    }

    /// `event` has been published, and nothing else has changed.
    pub open spec fn then_publishes(self, event: Event) -> EnvView {
        EnvView { actions: self.actions.push(Action::Publish(event)), ..self }
    }
}

impl Env {
    /// An invocation of the marketplace at `contract`, at the given time, with
    /// nothing stored and nobody's authorization, of a protocol that is not paused.
    pub fn new(contract: Address, timestamp: u64) -> (env: Self)
        ensures
            env@ == (EnvView {
                storage: StorageView::nothing(),
                timestamp,
                contract,
                paused: false,
                auths: Seq::empty(),
                actions: Seq::empty(),
            }),
    {
        Env {
            storage: Storage::empty(),
            timestamp,
            contract,
            paused: false,
            auths: Vec::new(),
            actions: Vec::new(),
        }
    }

    /// Records that `who` has authorized the invocation.
    pub fn authorize(&mut self, who: Address)
        ensures
            final(self)@ == (EnvView { auths: old(self)@.auths.push(who), ..old(self)@ }),
            forall|other: Address| #[trigger]
                final(self)@.auths.contains(other) <==> old(self)@.authorized(other) || other
                    == who,
    {
        let ghost before = self.auths@;
        self.auths.push(who);
        assert forall|other: Address| #[trigger]
            self@.auths.contains(other) <==> old(self)@.authorized(other) || other == who by {
            if before.contains(other) {
                let i = choose|i: int| 0 <= i < before.len() && before[i] == other;
                assert(self.auths@[i] == other);
            }
            if other == who {
                assert(self.auths@[before.len() as int] == other);
            }
        }
    }

    /// Carries out `action`: brings the stored entries up to date, and records the
    /// action.
    pub fn perform(&mut self, action: Action)
        ensures
            final(self)@ == old(self)@.then_does(
                old(self)@.storage.after(action),
                seq![action],
            ),
    {
        match &action {
            Action::StoreConfig(config) => {
                self.storage.config = Some(*config);
            },
            Action::StoreListing(invoice_id, listing) => {
                self.storage.listings.insert(*invoice_id, *listing);
            },
            Action::StoreWhitelisted(token, listed) => {
                self.storage.whitelist.insert(*token, *listed);
            },
            Action::RemoveWhitelisted(token) => {
                self.storage.whitelist.remove(token);
            },
            Action::Lock => {
                self.storage.locked = true;
            },
            Action::Unlock => {
                self.storage.locked = false;
            },
            _ => {},
        }
        self.actions.push(action);
    }
}

} // verus!
