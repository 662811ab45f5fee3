//! What each operation of the marketplace means: when it is refused, what is
//! stored after it, and what it does.

use crate::address::Address;
use crate::env::{Action, EnvView, StorageView};
use crate::errors::KoraError;
use crate::events::Event;
use crate::types::{DataKey, Listing, MarketplaceConfig};
use crate::validation;
use vstd::prelude::*;

verus! {

/// About 30 days, in ledgers of about 5 seconds: the life left to a persistent
/// entry below which it is extended.
pub const PERSISTENT_TTL_THRESHOLD: u32 = 518_400;

/// About 30 days, in ledgers of about 5 seconds: the life to which a persistent
/// entry is extended.
pub const PERSISTENT_TTL_BUMP: u32 = 518_400;

/// The configuration in force: the single entry, or else what the parts that are
/// kept apart add up to.
pub open spec fn config_of(s: StorageView) -> Option<MarketplaceConfig> {
    match s.config {
        Some(config) => Some(config),
        None => s.legacy.consolidated(),
    }
}

/// What is stored once the configuration in force is a single entry.
pub open spec fn migrated(s: StorageView) -> StorageView {
    StorageView { config: config_of(s), ..s }
}

/// What it takes to make the configuration in force a single entry.
pub open spec fn migration(s: StorageView) -> Seq<Action> {
    match (s.config, s.legacy.consolidated()) {
        (None, Some(config)) => seq![Action::StoreConfig(config)],
        _ => Seq::empty(),
    }
}

/// The whitelist has an entry for `token`, and it says so.
pub open spec fn is_whitelisted(s: StorageView, token: Address) -> bool {
    s.whitelist.contains_key(token) && s.whitelist[token]
}

/// What keeps the entry under `key` alive.
pub open spec fn bump(key: DataKey) -> Action {
    Action::ExtendTtl {
        key,
        threshold: PERSISTENT_TTL_THRESHOLD,
        extend_to: PERSISTENT_TTL_BUMP,
    }
}

/// Each listing is sound and stands under its own invoice, the fee rate in force
/// is at most the whole, and no guarded section is open.
pub open spec fn sound(s: StorageView) -> bool {
    &&& forall|id: u64| #[trigger]
        s.listings.contains_key(id) ==> s.listings[id].invoice_id == id && s.listings[id].sound()
    &&& config_of(s) matches Some(config) ==> config.fee_bps <= 10_000
    &&& !s.locked
}

// ── Setting up ────────────────────────────────────────────────────────────────

/// Why initialization is refused, if it is.
pub open spec fn initialize_refusal(s: StorageView, fee_bps: u32) -> Option<KoraError> {
    if s.config is Some {
        Some(KoraError::AlreadyInitialized)
    } else if fee_bps > 10_000 {
        Some(KoraError::InvalidFeeBps)
    } else {
        None
    }
}

/// What is stored after initialization.
pub open spec fn initialize_stored(s: StorageView, config: MarketplaceConfig) -> StorageView {
    StorageView { config: Some(config), ..s }
}

/// Why reading the configuration is refused, if it is.
pub open spec fn config_refusal(s: StorageView) -> Option<KoraError> {
    if config_of(s) is None {
        Some(KoraError::NotInitialized)
    } else {
        None
    }
}

/// Why `who` is refused as the administrator, if they are.
pub open spec fn admin_refusal(s: StorageView, who: Address) -> Option<KoraError> {
    match config_of(s) {
        None => Some(KoraError::NotInitialized),
        Some(config) => if config.admin != who {
            Some(KoraError::NotAdmin)
        } else {
            None
        },
    }
}

// ── Fee rate ──────────────────────────────────────────────────────────────────

/// Why changing the fee rate is refused, if it is.
pub open spec fn set_fee_refusal(s: StorageView, admin: Address, fee_bps: u32) -> Option<
    KoraError,
> {
    match admin_refusal(s, admin) {
        Some(error) => Some(error),
        None => if fee_bps > 10_000 {
            Some(KoraError::InvalidFeeBps)
        } else {
            None
        },
    }
}

/// The configuration with another fee rate.
pub open spec fn with_fee(config: MarketplaceConfig, fee_bps: u32) -> MarketplaceConfig {
    MarketplaceConfig { fee_bps, ..config }
}

/// What is stored after the fee rate is changed.
pub open spec fn set_fee_stored(s: StorageView, fee_bps: u32) -> StorageView {
    StorageView { config: Some(with_fee(config_of(s)->0, fee_bps)), ..s }
}

/// What changing the fee rate does.
pub open spec fn set_fee_actions(env: EnvView, admin: Address, fee_bps: u32) -> Seq<Action> {
    let config = config_of(env.storage)->0;
    migration(env.storage) + seq![
        Action::StoreConfig(with_fee(config, fee_bps)),
        Action::Publish(
            Event::FeeRateUpdated {
                admin,
                old_bps: config.fee_bps,
                new_bps: fee_bps,
                timestamp: env.timestamp,
            },
        ),
    ]
}

// ── Whitelist ─────────────────────────────────────────────────────────────────

/// What is stored after a token is whitelisted.
pub open spec fn whitelist_stored(s: StorageView, token: Address) -> StorageView {
    StorageView { whitelist: s.whitelist.insert(token, true), ..migrated(s) }
}

/// What whitelisting a token does.
pub open spec fn whitelist_actions(env: EnvView, token: Address) -> Seq<Action> {
    migration(env.storage) + seq![
        Action::StoreWhitelisted(token, true),
        bump(DataKey::WhitelistedToken(token)),
        Action::Publish(Event::TokenWhitelisted { token, timestamp: env.timestamp }),
    ]
}

/// Why taking a token off the whitelist is refused, if it is.
pub open spec fn remove_refusal(s: StorageView, admin: Address, token: Address) -> Option<
    KoraError,
> {
    match admin_refusal(s, admin) {
        Some(error) => Some(error),
        None => if !is_whitelisted(s, token) {
            Some(KoraError::TokenNotWhitelisted)
        } else {
            None
        },
    }
}

/// What is stored after a token is taken off the whitelist.
pub open spec fn remove_stored(s: StorageView, token: Address) -> StorageView {
    StorageView { whitelist: s.whitelist.remove(token), ..migrated(s) }
}

/// What taking a token off the whitelist does.
pub open spec fn remove_actions(s: StorageView, token: Address) -> Seq<Action> {
    migration(s) + seq![Action::RemoveWhitelisted(token)]
}

// ── Listing ───────────────────────────────────────────────────────────────────

/// What a seller asks for.
pub struct Offer {
    pub seller: Address,
    pub invoice_id: u64,
    pub asking_price: i128,
    pub face_value: i128,
    pub token: Address,
    pub funding_deadline: u64,
}

/// The listing that an offer becomes.
pub open spec fn fresh_listing(offer: Offer) -> Listing {
    Listing {
        invoice_id: offer.invoice_id,
        seller: offer.seller,
        asking_price: offer.asking_price,
        face_value: offer.face_value,
        token: offer.token,
        funded_amount: 0,
        funding_deadline: offer.funding_deadline,
        is_active: true,
    }
}

/// Why an offer is refused, if it is.
pub open spec fn list_refusal(env: EnvView, offer: Offer) -> Option<KoraError> {
    if env.paused {
        Some(KoraError::ProtocolPaused)
    } else if offer.asking_price <= 0 || offer.face_value <= 0 {
        Some(KoraError::InvalidAmount)
    } else if offer.funding_deadline <= env.timestamp {
        Some(KoraError::InvalidDueDate)
    } else if offer.asking_price >= offer.face_value {
        Some(KoraError::InvalidAmount)
    } else if !is_whitelisted(env.storage, offer.token) {
        Some(KoraError::TokenNotWhitelisted)
    } else if env.storage.listings.contains_key(offer.invoice_id) {
        Some(KoraError::InvoiceAlreadyExists)
    } else if env.storage.locked {
        Some(KoraError::ReentrantCall)
    } else {
        config_refusal(env.storage)
    }
}

/// What is stored after an invoice is listed.
pub open spec fn list_stored(s: StorageView, offer: Offer) -> StorageView {
    StorageView {
        listings: s.listings.insert(offer.invoice_id, fresh_listing(offer)),
        ..migrated(s)
    }
}

/// What listing an invoice does.
pub open spec fn list_actions(env: EnvView, offer: Offer) -> Seq<Action> {
    seq![Action::Lock] + migration(env.storage) + seq![
        Action::SetListed {
            invoice_nft: (config_of(env.storage)->0).invoice_nft,
            caller: env.contract,
            invoice_id: offer.invoice_id,
        },
        Action::StoreListing(offer.invoice_id, fresh_listing(offer)),
        bump(DataKey::Listing(offer.invoice_id)),
        Action::Publish(
            Event::InvoiceListed {
                invoice_id: offer.invoice_id,
                seller: offer.seller,
                asking_price: offer.asking_price,
                timestamp: env.timestamp,
            },
        ),
        Action::Unlock,
    ]
}

// ── Funding ───────────────────────────────────────────────────────────────────

/// The part of a contribution that goes to the treasury.
pub open spec fn fee_on(amount: i128, config: MarketplaceConfig) -> int {
    validation::bps_share(amount as int, config.fee_bps as int)
}

/// The part of a contribution that goes to the financing pool.
pub open spec fn net_of(amount: i128, config: MarketplaceConfig) -> int {
    amount - fee_on(amount, config)
}

/// Why a contribution is refused, if it is.
pub open spec fn fund_refusal(env: EnvView, invoice_id: u64, amount: i128) -> Option<KoraError> {
    let listing = env.storage.listings[invoice_id];
    if env.paused {
        Some(KoraError::ProtocolPaused)
    } else if amount <= 0 {
        Some(KoraError::InvalidAmount)
    } else if !env.storage.listings.contains_key(invoice_id) {
        Some(KoraError::ListingNotFound)
    } else if !listing.is_active {
        Some(KoraError::ListingAlreadyCancelled)
    } else if env.timestamp > listing.funding_deadline {
        Some(KoraError::FundingDeadlinePassed)
    } else if !validation::fits_i128(listing.asking_price - listing.funded_amount) {
        Some(KoraError::ArithmeticOverflow)
    } else if amount > listing.asking_price - listing.funded_amount {
        Some(KoraError::ExceedsFundingTarget)
    } else {
        match config_of(env.storage) {
            None => Some(KoraError::NotInitialized),
            Some(config) => if !validation::fits_i128(amount * config.fee_bps) {
                Some(KoraError::ArithmeticOverflow)
            } else {
                None
            },
        }
    }
}

/// The listing after a contribution: it closes when the asking price is reached.
pub open spec fn funded(listing: Listing, amount: i128) -> Listing {
    Listing {
        funded_amount: (listing.funded_amount + amount) as i128,
        is_active: listing.is_active && listing.funded_amount + amount < listing.asking_price,
        ..listing
    }
}

/// What is stored after a contribution.
pub open spec fn fund_stored(s: StorageView, invoice_id: u64, amount: i128) -> StorageView {
    StorageView {
        listings: s.listings.insert(invoice_id, funded(s.listings[invoice_id], amount)),
        ..migrated(s)
    }
}

/// The transfer that `amount` calls for: none, unless it is positive.
pub open spec fn payment(token: Address, from: Address, to: Address, amount: int) -> Seq<Action> {
    if amount > 0 {
        seq![Action::Transfer { token, from, to, amount: amount as i128 }]
    } else {
        Seq::empty()
    }
}

/// What a contribution stores and publishes.
pub open spec fn fund_record(
    env: EnvView,
    investor: Address,
    invoice_id: u64,
    amount: i128,
) -> Seq<Action> {
    seq![
        Action::StoreListing(invoice_id, funded(env.storage.listings[invoice_id], amount)),
        bump(DataKey::Listing(invoice_id)),
        Action::Publish(
            Event::InvoiceFunded { invoice_id, investor, amount, timestamp: env.timestamp },
        ),
    ]
}

/// The notice that a fee calls for: none, unless it is positive.
pub open spec fn fee_notice(env: EnvView, invoice_id: u64, fee: int) -> Seq<Action> {
    if fee > 0 {
        seq![
            Action::Publish(
                Event::FeeCollected {
                    invoice_id,
                    fee_amount: fee as i128,
                    token: env.storage.listings[invoice_id].token,
                    timestamp: env.timestamp,
                },
            ),
        ]
    } else {
        Seq::empty()
    }
}

/// The release of the funds, once the listing is closed.
pub open spec fn release(
    env: EnvView,
    config: MarketplaceConfig,
    invoice_id: u64,
    after: Listing,
) -> Seq<Action> {
    if after.is_active {
        Seq::empty()
    } else {
        seq![
            Action::ReleaseFunds {
                financing_pool: config.financing_pool,
                caller: env.contract,
                invoice_id,
                token: after.token,
            },
        ]
    }
}

/// What a contribution does.
pub open spec fn fund_actions(
    env: EnvView,
    investor: Address,
    invoice_id: u64,
    amount: i128,
) -> Seq<Action> {
    let config = config_of(env.storage)->0;
    let listing = env.storage.listings[invoice_id];
    let fee = fee_on(amount, config);
    let net = net_of(amount, config);
    migration(env.storage) + payment(listing.token, investor, config.treasury, fee) + payment(
        listing.token,
        investor,
        config.financing_pool,
        net,
    ) + fund_record(env, investor, invoice_id, amount) + fee_notice(env, invoice_id, fee)
        + release(env, config, invoice_id, funded(listing, amount))
}

// ── Cancelling ────────────────────────────────────────────────────────────────

/// Why cancelling a listing is refused, if it is.
pub open spec fn cancel_refusal(s: StorageView, caller: Address, invoice_id: u64) -> Option<
    KoraError,
> {
    let listing = s.listings[invoice_id];
    if !s.listings.contains_key(invoice_id) {
        Some(KoraError::ListingNotFound)
    } else if !listing.is_active {
        Some(KoraError::ListingAlreadyCancelled)
    } else {
        match config_of(s) {
            None => Some(KoraError::NotInitialized),
            Some(config) => if caller != listing.seller && caller != config.admin {
                Some(KoraError::Unauthorized)
            } else {
                None
            },
        }
    }
}

/// The listing after it is cancelled.
pub open spec fn cancelled(listing: Listing) -> Listing {
    Listing { is_active: false, ..listing }
}

/// What is stored after a listing is cancelled.
pub open spec fn cancel_stored(s: StorageView, invoice_id: u64) -> StorageView {
    StorageView {
        listings: s.listings.insert(invoice_id, cancelled(s.listings[invoice_id])),
        ..migrated(s)
    }
}

/// What cancelling a listing does.
pub open spec fn cancel_actions(env: EnvView, invoice_id: u64) -> Seq<Action> {
    let listing = env.storage.listings[invoice_id];
    migration(env.storage) + seq![
        Action::StoreListing(invoice_id, cancelled(listing)),
        bump(DataKey::Listing(invoice_id)),
        Action::Publish(
            Event::ListingCancelled {
                invoice_id,
                seller: listing.seller,
                timestamp: env.timestamp,
            },
        ),
    ]
}

} // verus!
