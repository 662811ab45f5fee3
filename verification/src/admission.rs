//! When each request is accepted, and with which error it is refused.

use crate::address::Address;
use crate::env::{EnvView, StorageView};
use crate::errors::KoraError;
use crate::history;
use crate::history::{Call, Request};
use crate::model;
use crate::model::Offer;
use crate::types::MarketplaceConfig;
use vstd::prelude::*;

verus! {

/// The configuration in force is the single entry if there is one. Otherwise it
/// has each of its parts from the entry kept apart for it, and there is one only
/// if no such entry is missing.
pub proof fn law_config_in_force(s: StorageView)
    ensures
        s.config matches Some(config) ==> model::config_of(s) == Some(config),
        s.config is None ==> (model::config_of(s) is Some <==> s.legacy.admin is Some
            && s.legacy.invoice_nft is Some && s.legacy.financing_pool is Some
            && s.legacy.treasury is Some && s.legacy.fee_bps is Some),
        s.config is None ==> (model::config_of(s) matches Some(config) ==> {
            &&& s.legacy.admin == Some(config.admin)
            &&& s.legacy.invoice_nft == Some(config.invoice_nft)
            &&& s.legacy.financing_pool == Some(config.financing_pool)
            &&& s.legacy.treasury == Some(config.treasury)
            &&& s.legacy.fee_bps == Some(config.fee_bps)
        }),
{
}

/// A token counts as whitelisted exactly when its entry is there and says `true`.
pub proof fn law_whitelisted_means_stored_true(s: StorageView, token: Address)
    ensures
        model::is_whitelisted(s, token) <==> s.whitelist.contains_key(token)
            && s.whitelist[token] == true,
{
}

/// Somebody has authorized an invocation exactly when they are recorded as having
/// done so.
pub proof fn law_authorized_means_recorded(env: EnvView, who: Address)
    ensures
        env.authorized(who) <==> exists|i: int| 0 <= i < env.auths.len() && env.auths[i] == who,
{
}

/// Setting up succeeds exactly when there is no single entry for the configuration
/// and the fee rate is at most the whole.
pub proof fn law_initialize_admission(env: EnvView, config: MarketplaceConfig)
    ensures
        ({
            let why = history::refusal(env, Request::Initialize(config));
            &&& why is None <==> env.storage.config is None && config.fee_bps <= 10_000
            &&& why == Some(KoraError::AlreadyInitialized) <==> env.storage.config is Some
            &&& why == Some(KoraError::InvalidFeeBps) <==> env.storage.config is None
                && config.fee_bps > 10_000
        }),
{
}

/// The configuration can be read exactly when there is one in force.
pub proof fn law_read_config_admission(env: EnvView)
    ensures
        ({
            let why = history::refusal(env, Request::ReadConfig);
            &&& why is None <==> model::config_of(env.storage) is Some
            &&& why == Some(KoraError::NotInitialized) <==> model::config_of(env.storage) is None
        }),
{
}

/// Without a configuration no administrative request is accepted.
pub proof fn law_administration_needs_config(
    env: EnvView,
    who: Address,
    token: Address,
    fee_bps: u32,
)
    requires
        model::config_of(env.storage) is None,
    ensures
        history::refusal(env, Request::WhitelistToken { admin: who, token }) == Some(
            KoraError::NotInitialized,
        ),
        history::refusal(env, Request::RemoveTokenWhitelist { admin: who, token }) == Some(
            KoraError::NotInitialized,
        ),
        history::refusal(env, Request::SetFeeBps { admin: who, fee_bps }) == Some(
            KoraError::NotInitialized,
        ),
{
}

/// The administrator is always accepted: they may whitelist any token, take any
/// whitelisted token off, and set any fee rate up to the whole. What is refused to
/// them is refused for the token or the rate.
pub proof fn law_admin_is_accepted(
    env: EnvView,
    config: MarketplaceConfig,
    token: Address,
    fee_bps: u32,
)
    requires
        model::config_of(env.storage) == Some(config),
    ensures
        ({
            let admin = config.admin;
            let listed = env.storage.whitelist.contains_key(token)
                && env.storage.whitelist[token] == true;
            let whitelisting = history::refusal(env, Request::WhitelistToken { admin, token });
            let removing = history::refusal(env, Request::RemoveTokenWhitelist { admin, token });
            let pricing = history::refusal(env, Request::SetFeeBps { admin, fee_bps });
            &&& whitelisting is None
            &&& listed ==> removing is None
            &&& !listed ==> removing == Some(KoraError::TokenNotWhitelisted)
            &&& fee_bps <= 10_000 ==> pricing is None
            &&& fee_bps > 10_000 ==> pricing == Some(KoraError::InvalidFeeBps)
        }),
{
}

/// Nobody else is accepted as the administrator, whatever they ask for.
pub proof fn law_others_are_not_admin(
    env: EnvView,
    config: MarketplaceConfig,
    who: Address,
    token: Address,
    fee_bps: u32,
)
    requires
        model::config_of(env.storage) == Some(config),
        who != config.admin,
    ensures
        history::refusal(env, Request::WhitelistToken { admin: who, token }) == Some(
            KoraError::NotAdmin,
        ),
        history::refusal(env, Request::RemoveTokenWhitelist { admin: who, token }) == Some(
            KoraError::NotAdmin,
        ),
        history::refusal(env, Request::SetFeeBps { admin: who, fee_bps }) == Some(
            KoraError::NotAdmin,
        ),
{
}

/// An offer is accepted exactly when the protocol runs, the asking price is
/// positive and below the face value, the deadline lies in the future, the token is
/// whitelisted, the invoice was not listed before, no guarded section is open and
/// there is a configuration.
pub proof fn law_offer_admission(env: EnvView, offer: Offer)
    ensures
        history::refusal(env, Request::ListInvoice(offer)) is None <==> {
            &&& !env.paused
            &&& 0 < offer.asking_price < offer.face_value
            &&& env.timestamp < offer.funding_deadline
            &&& env.storage.whitelist.contains_key(offer.token)
            &&& env.storage.whitelist[offer.token] == true
            &&& !env.storage.listings.contains_key(offer.invoice_id)
            &&& !env.storage.locked
            &&& model::config_of(env.storage) is Some
        },
{
}

/// The error with which an offer is refused names the first thing amiss: the pause,
/// a price that is not positive, the deadline, the price against the face value,
/// the token, the invoice, the guard, the configuration.
pub proof fn law_offer_errors(env: EnvView, offer: Offer)
    ensures
        ({
            let why = history::refusal(env, Request::ListInvoice(offer));
            let positive = offer.asking_price > 0 && offer.face_value > 0;
            let timely = offer.funding_deadline > env.timestamp;
            let discounted = offer.asking_price < offer.face_value;
            let listed = env.storage.whitelist.contains_key(offer.token)
                && env.storage.whitelist[offer.token] == true;
            let taken = env.storage.listings.contains_key(offer.invoice_id);
            let valid = !env.paused && positive && timely && discounted && listed;
            &&& why == Some(KoraError::ProtocolPaused) <==> env.paused
            &&& why == Some(KoraError::InvalidAmount) <==> !env.paused && (!positive || (timely
                && !discounted))
            &&& why == Some(KoraError::InvalidDueDate) <==> !env.paused && positive && !timely
            &&& why == Some(KoraError::TokenNotWhitelisted) <==> !env.paused && positive && timely
                && discounted && !listed
            &&& why == Some(KoraError::InvoiceAlreadyExists) <==> valid && taken
            &&& why == Some(KoraError::ReentrantCall) <==> valid && !taken && env.storage.locked
            &&& why == Some(KoraError::NotInitialized) <==> valid && !taken && !env.storage.locked
                && model::config_of(env.storage) is None
        }),
{
}

/// A listing that appears is in a token that the whitelist had at the time, asks
/// for less than the face value, has time left and nothing contributed, and was
/// offered while the protocol ran. If whoever has to has authorized the call, its
/// seller has.
pub proof fn law_new_listing_is_admissible(s: StorageView, call: Call, id: u64)
    requires
        !s.listings.contains_key(id),
        history::step(s, call).listings.contains_key(id),
    ensures
        ({
            let listing = history::step(s, call).listings[id];
            &&& s.whitelist.contains_key(listing.token)
            &&& s.whitelist[listing.token] == true
            &&& 0 < listing.asking_price < listing.face_value
            &&& listing.funded_amount == 0
            &&& listing.is_active
            &&& listing.invoice_id == id
            &&& call.timestamp < listing.funding_deadline
            &&& call.signed() ==> call.auths.contains(listing.seller)
            &&& !call.paused
        }),
{
}

/// A contribution is accepted exactly when the protocol runs, the amount is
/// positive, the listing is there, open and not past its deadline, the amount is at
/// most what the listing still needs, there is a configuration, and neither that
/// need nor the product from which the fee is computed overflows.
pub proof fn law_contribution_admission(
    env: EnvView,
    investor: Address,
    invoice_id: u64,
    amount: i128,
)
    ensures
        history::refusal(env, Request::FundInvoice { investor, invoice_id, amount }) is None <==> {
            let listing = env.storage.listings[invoice_id];
            &&& !env.paused
            &&& 0 < amount
            &&& env.storage.listings.contains_key(invoice_id)
            &&& listing.is_active
            &&& env.timestamp <= listing.funding_deadline
            &&& listing.funded_amount + amount <= listing.asking_price
            &&& listing.asking_price - listing.funded_amount <= i128::MAX
            &&& model::config_of(env.storage) matches Some(config) && amount * config.fee_bps
                <= i128::MAX
        },
{
    lemma_product_not_negative(env, amount);
}

/// The error with which a contribution is refused names the first thing amiss: the
/// pause, the amount, the listing, its closure, its deadline, what it still needs,
/// the configuration, the fee.
pub proof fn law_contribution_errors(
    env: EnvView,
    investor: Address,
    invoice_id: u64,
    amount: i128,
)
    ensures
        ({
            let why = history::refusal(env, Request::FundInvoice { investor, invoice_id, amount });
            let listing = env.storage.listings[invoice_id];
            let needed = listing.asking_price - listing.funded_amount;
            let found = !env.paused && amount > 0 && env.storage.listings.contains_key(invoice_id);
            let open = found && listing.is_active;
            let timely = open && env.timestamp <= listing.funding_deadline;
            let config = model::config_of(env.storage);
            &&& why == Some(KoraError::ProtocolPaused) <==> env.paused
            &&& why == Some(KoraError::InvalidAmount) <==> !env.paused && amount <= 0
            &&& why == Some(KoraError::ListingNotFound) <==> !env.paused && amount > 0
                && !env.storage.listings.contains_key(invoice_id)
            &&& why == Some(KoraError::ListingAlreadyCancelled) <==> found && !listing.is_active
            &&& why == Some(KoraError::FundingDeadlinePassed) <==> open && env.timestamp
                > listing.funding_deadline
            &&& why == Some(KoraError::ExceedsFundingTarget) <==> timely && i128::MIN <= needed
                < amount
            &&& why == Some(KoraError::NotInitialized) <==> timely && amount <= needed <= i128::MAX
                && config is None
            &&& why == Some(KoraError::ArithmeticOverflow) <==> timely && (needed < i128::MIN
                || needed > i128::MAX || (amount <= needed && config is Some && amount
                * (config->0).fee_bps > i128::MAX))
        }),
{
    lemma_product_not_negative(env, amount);
}

proof fn lemma_product_not_negative(env: EnvView, amount: i128)
    ensures
        amount > 0 ==> amount * (model::config_of(env.storage)->0).fee_bps >= 0,
{
    let fee_bps = (model::config_of(env.storage)->0).fee_bps;
    assert(amount > 0 ==> amount * fee_bps >= 0) by (nonlinear_arith)
        requires
            fee_bps >= 0,
    ;
}

/// A cancellation is accepted exactly when the listing is there and open, there is
/// a configuration, and the caller is the seller of the listing or the
/// administrator. Otherwise the error names the first of these that fails.
pub proof fn law_cancellation_admission(env: EnvView, caller: Address, invoice_id: u64)
    ensures
        ({
            let why = history::refusal(env, Request::CancelListing { caller, invoice_id });
            let listing = env.storage.listings[invoice_id];
            let found = env.storage.listings.contains_key(invoice_id);
            let config = model::config_of(env.storage);
            let entitled = caller == listing.seller || caller == (config->0).admin;
            &&& why is None <==> found && listing.is_active && config is Some && entitled
            &&& why == Some(KoraError::ListingNotFound) <==> !found
            &&& why == Some(KoraError::ListingAlreadyCancelled) <==> found && !listing.is_active
            &&& why == Some(KoraError::NotInitialized) <==> found && listing.is_active
                && config is None
            &&& why == Some(KoraError::Unauthorized) <==> found && listing.is_active
                && config is Some && !entitled
        }),
{
}

} // verus!
