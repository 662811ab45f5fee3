//! What each accepted request leaves stored, entry by entry and field by field.

use crate::address::Address;
use crate::env::{Action, Env, EnvView, StorageView};
use crate::errors::KoraError;
use crate::events::Event;
use crate::history;
use crate::history::{Call, Request};
use crate::model;
use crate::model::Offer;
use crate::types::MarketplaceConfig;
use vstd::prelude::*;

verus! {

/// After setting up, the configuration in force is the one that was given, in every
/// field, and nothing else has changed.
pub proof fn law_initialize_outcome(s: StorageView, call: Call, given: MarketplaceConfig)
    requires
        call.request == Request::Initialize(given),
        call.accepted(s),
    ensures
        ({
            let t = history::step(s, call);
            &&& t.config matches Some(config) && {
                &&& config.admin == given.admin
                &&& config.invoice_nft == given.invoice_nft
                &&& config.financing_pool == given.financing_pool
                &&& config.treasury == given.treasury
                &&& config.fee_bps == given.fee_bps
            }
            &&& t.legacy == s.legacy
            &&& t.listings == s.listings
            &&& t.whitelist == s.whitelist
            &&& t.locked == s.locked
        }),
{
}

/// After the fee rate is changed, the rate in force is the one that was given. The
/// administrator, the partners and everything else that is stored are as before.
pub proof fn law_set_fee_outcome(s: StorageView, call: Call, admin: Address, fee_bps: u32)
    requires
        call.request == (Request::SetFeeBps { admin, fee_bps }),
        call.accepted(s),
    ensures
        ({
            let t = history::step(s, call);
            &&& model::config_of(s) matches Some(before) && (t.config matches Some(after) && {
                &&& after.fee_bps == fee_bps
                &&& after.admin == before.admin
                &&& after.invoice_nft == before.invoice_nft
                &&& after.financing_pool == before.financing_pool
                &&& after.treasury == before.treasury
                &&& model::config_of(t) == Some(after)
            })
            &&& t.legacy == s.legacy
            &&& t.listings == s.listings
            &&& t.whitelist == s.whitelist
            &&& t.locked == s.locked
        }),
{
}

/// Reading the configuration makes the one in force a single entry, and changes
/// nothing else.
pub proof fn law_read_config_outcome(s: StorageView, call: Call)
    requires
        call.request is ReadConfig,
    ensures
        ({
            let t = history::step(s, call);
            &&& t.config == model::config_of(s)
            &&& model::config_of(t) == model::config_of(s)
            &&& t.legacy == s.legacy
            &&& t.listings == s.listings
            &&& t.whitelist == s.whitelist
            &&& t.locked == s.locked
        }),
{
}

/// After a token is whitelisted its entry says `true`. The entry of every other
/// token, the configuration in force and everything else are as before.
pub proof fn law_whitelist_outcome(
    s: StorageView,
    call: Call,
    admin: Address,
    token: Address,
    other: Address,
)
    requires
        call.request == (Request::WhitelistToken { admin, token }),
        call.accepted(s),
    ensures
        ({
            let t = history::step(s, call);
            &&& t.whitelist.contains_key(token)
            &&& t.whitelist[token] == true
            &&& other != token ==> {
                &&& t.whitelist.contains_key(other) == s.whitelist.contains_key(other)
                &&& s.whitelist.contains_key(other) ==> t.whitelist[other] == s.whitelist[other]
            }
            &&& t.config is Some
            &&& t.config == model::config_of(s)
            &&& t.legacy == s.legacy
            &&& t.listings == s.listings
            &&& t.locked == s.locked
        }),
{
}

/// After a token is taken off the whitelist it has no entry. The entry of every
/// other token, the configuration in force and everything else are as before.
pub proof fn law_remove_outcome(
    s: StorageView,
    call: Call,
    admin: Address,
    token: Address,
    other: Address,
)
    requires
        call.request == (Request::RemoveTokenWhitelist { admin, token }),
        call.accepted(s),
    ensures
        ({
            let t = history::step(s, call);
            &&& !t.whitelist.contains_key(token)
            &&& other != token ==> {
                &&& t.whitelist.contains_key(other) == s.whitelist.contains_key(other)
                &&& s.whitelist.contains_key(other) ==> t.whitelist[other] == s.whitelist[other]
            }
            &&& t.config is Some
            &&& t.config == model::config_of(s)
            &&& t.legacy == s.legacy
            &&& t.listings == s.listings
            &&& t.locked == s.locked
        }),
{
}

/// After an invoice is listed there is an open listing for it on the terms that
/// were offered, with nothing contributed. Every other listing and everything else
/// are as before.
pub proof fn law_list_outcome(s: StorageView, call: Call, offer: Offer, other: u64)
    requires
        call.request == Request::ListInvoice(offer),
        call.accepted(s),
    ensures
        ({
            let t = history::step(s, call);
            let listing = t.listings[offer.invoice_id];
            &&& t.listings.contains_key(offer.invoice_id)
            &&& listing.invoice_id == offer.invoice_id
            &&& listing.seller == offer.seller
            &&& listing.asking_price == offer.asking_price
            &&& listing.face_value == offer.face_value
            &&& listing.token == offer.token
            &&& listing.funded_amount == 0
            &&& listing.funding_deadline == offer.funding_deadline
            &&& listing.is_active
            &&& other != offer.invoice_id ==> {
                &&& t.listings.contains_key(other) == s.listings.contains_key(other)
                &&& s.listings.contains_key(other) ==> t.listings[other] == s.listings[other]
            }
            &&& t.config is Some
            &&& t.config == model::config_of(s)
            &&& t.legacy == s.legacy
            &&& t.whitelist == s.whitelist
            &&& t.locked == s.locked
        }),
{
}

/// After a contribution the listing has the amount more, and is open exactly while
/// that is below the asking price. Its terms, every other listing and everything
/// else are as before.
pub proof fn law_fund_outcome(
    s: StorageView,
    call: Call,
    investor: Address,
    invoice_id: u64,
    amount: i128,
    other: u64,
)
    requires
        call.request == (Request::FundInvoice { investor, invoice_id, amount }),
        call.accepted(s),
    ensures
        ({
            let t = history::step(s, call);
            let before = s.listings[invoice_id];
            let after = t.listings[invoice_id];
            &&& s.listings.contains_key(invoice_id)
            &&& t.listings.contains_key(invoice_id)
            &&& after.funded_amount == before.funded_amount + amount
            &&& after.is_active <==> before.funded_amount + amount < before.asking_price
            &&& after.invoice_id == before.invoice_id
            &&& after.seller == before.seller
            &&& after.asking_price == before.asking_price
            &&& after.face_value == before.face_value
            &&& after.token == before.token
            &&& after.funding_deadline == before.funding_deadline
            &&& other != invoice_id ==> {
                &&& t.listings.contains_key(other) == s.listings.contains_key(other)
                &&& s.listings.contains_key(other) ==> t.listings[other] == s.listings[other]
            }
            &&& t.config is Some
            &&& t.config == model::config_of(s)
            &&& t.legacy == s.legacy
            &&& t.whitelist == s.whitelist
            &&& t.locked == s.locked
        }),
{
}

/// After a cancellation the listing is closed. Its terms and its funding, every
/// other listing and everything else are as before.
pub proof fn law_cancel_outcome(
    s: StorageView,
    call: Call,
    caller: Address,
    invoice_id: u64,
    other: u64,
)
    requires
        call.request == (Request::CancelListing { caller, invoice_id }),
        call.accepted(s),
    ensures
        ({
            let t = history::step(s, call);
            let before = s.listings[invoice_id];
            let after = t.listings[invoice_id];
            &&& s.listings.contains_key(invoice_id)
            &&& t.listings.contains_key(invoice_id)
            &&& !after.is_active
            &&& after.invoice_id == before.invoice_id
            &&& after.seller == before.seller
            &&& after.asking_price == before.asking_price
            &&& after.face_value == before.face_value
            &&& after.token == before.token
            &&& after.funded_amount == before.funded_amount
            &&& after.funding_deadline == before.funding_deadline
            &&& other != invoice_id ==> {
                &&& t.listings.contains_key(other) == s.listings.contains_key(other)
                &&& s.listings.contains_key(other) ==> t.listings[other] == s.listings[other]
            }
            &&& t.config is Some
            &&& t.config == model::config_of(s)
            &&& t.legacy == s.legacy
            &&& t.whitelist == s.whitelist
            &&& t.locked == s.locked
        }),
{
}

/// A refused request changes nothing.
pub proof fn law_refused_outcome(s: StorageView, call: Call)
    requires
        !call.accepted(s),
    ensures
        history::step(s, call) == s,
{
}

// ── One request after another ─────────────────────────────────────────────────

/// Once a listing has been cancelled, a contribution to it and another
/// cancellation are both answered that it is closed.
pub proof fn law_cancel_then_closed(
    s: StorageView,
    cancel: Call,
    caller: Address,
    id: u64,
    later: EnvView,
    investor: Address,
    amount: i128,
)
    requires
        cancel.request == (Request::CancelListing { caller, invoice_id: id }),
        cancel.accepted(s),
        later.storage == history::step(s, cancel),
    ensures
        !later.paused && amount > 0 ==> history::refusal(
            later,
            Request::FundInvoice { investor, invoice_id: id, amount },
        ) == Some(KoraError::ListingAlreadyCancelled),
        history::refusal(later, Request::CancelListing { caller: investor, invoice_id: id }) == Some(
            KoraError::ListingAlreadyCancelled,
        ),
{
}

/// Once a token has been whitelisted, offers in it are not refused for the token,
/// and it can be taken off again. Once taken off, offers in it that are otherwise
/// in order are refused for the token.
pub proof fn law_whitelist_then_offer(
    s: StorageView,
    call: Call,
    admin: Address,
    later: EnvView,
    offer: Offer,
)
    requires
        call.accepted(s),
        later.storage == history::step(s, call),
    ensures
        call.request == (Request::WhitelistToken { admin, token: offer.token }) ==> {
            &&& history::refusal(later, Request::ListInvoice(offer)) != Some(
                KoraError::TokenNotWhitelisted,
            )
            &&& history::refusal(
                later,
                Request::RemoveTokenWhitelist { admin, token: offer.token },
            ) is None
        },
        call.request == (Request::RemoveTokenWhitelist { admin, token: offer.token }) && !later.paused
            && 0 < offer.asking_price < offer.face_value && later.timestamp
            < offer.funding_deadline ==> history::refusal(later, Request::ListInvoice(offer))
            == Some(KoraError::TokenNotWhitelisted),
{
}

/// Once an invoice has been listed, an investor may contribute the whole asking
/// price at once until the deadline, if the fee on it can be computed.
pub proof fn law_list_then_fund(
    s: StorageView,
    call: Call,
    offer: Offer,
    later: EnvView,
    config: MarketplaceConfig,
    investor: Address,
)
    requires
        call.request == Request::ListInvoice(offer),
        call.accepted(s),
        later.storage == history::step(s, call),
        model::config_of(s) == Some(config),
        !later.paused,
        later.timestamp <= offer.funding_deadline,
        offer.asking_price * config.fee_bps <= i128::MAX,
    ensures
        history::refusal(
            later,
            Request::FundInvoice {
                investor,
                invoice_id: offer.invoice_id,
                amount: offer.asking_price,
            },
        ) is None,
{
    assert(offer.asking_price * config.fee_bps >= 0) by (nonlinear_arith)
        requires
            offer.asking_price > 0,
            config.fee_bps >= 0,
    ;
}

/// Starting from nothing stored, however many requests are made, no listing has
/// more than its asking price or less than nothing, every open listing still needs
/// something, every asking price is positive and below the face value, the fee rate
/// in force is at most the whole, and no guarded section is left open.
pub proof fn law_never_overfunded(calls: Seq<Call>, id: u64)
    ensures
        ({
            let s = history::run(StorageView::nothing(), calls);
            let listing = s.listings[id];
            &&& s.listings.contains_key(id) ==> {
                &&& listing.invoice_id == id
                &&& 0 < listing.asking_price < listing.face_value
                &&& 0 <= listing.funded_amount <= listing.asking_price
                &&& listing.is_active ==> listing.funded_amount < listing.asking_price
            }
            &&& model::config_of(s) matches Some(config) ==> config.fee_bps <= 10_000
            &&& !s.locked
        }),
{
    crate::laws::law_sound_from_nothing(calls);
}

// ── What the words mean ───────────────────────────────────────────────────────

/// Nothing stored means no configuration, no parts of one, no listing, no whitelist
/// entry, and no open guarded section.
pub proof fn law_nothing_stored(id: u64, token: Address)
    ensures
        ({
            let s = StorageView::nothing();
            &&& s.config is None
            &&& s.legacy.admin is None
            &&& s.legacy.invoice_nft is None
            &&& s.legacy.financing_pool is None
            &&& s.legacy.treasury is None
            &&& s.legacy.fee_bps is None
            &&& !s.listings.contains_key(id)
            &&& !s.whitelist.contains_key(token)
            &&& !s.locked
        }),
{
}

/// An invocation is described by its fields as they are.
pub proof fn law_invocation_as_it_is(env: Env)
    ensures
        env@.storage.config == env.storage.config,
        env@.storage.legacy == env.storage.legacy,
        env@.storage.listings == env.storage.listings@,
        env@.storage.whitelist == env.storage.whitelist@,
        env@.storage.locked == env.storage.locked,
        env@.timestamp == env.timestamp,
        env@.contract == env.contract,
        env@.paused == env.paused,
        env@.auths == env.auths@,
        env@.actions == env.actions@,
{
}

/// What an operation adds to an invocation is the new storage and, after what was
/// done before, the further actions; the circumstances stay.
pub proof fn law_invocation_grows(
    env: EnvView,
    storage: StorageView,
    actions: Seq<Action>,
    event: Event,
)
    ensures
        ({
            let later = env.then_does(storage, actions);
            &&& later.storage == storage
            &&& later.actions.len() == env.actions.len() + actions.len()
            &&& forall|i: int|
                0 <= i < env.actions.len() ==> #[trigger] later.actions[i] == env.actions[i]
            &&& forall|i: int|
                0 <= i < actions.len() ==> later.actions[env.actions.len() + i] == #[trigger] actions[i]
            &&& later.timestamp == env.timestamp
            &&& later.contract == env.contract
            &&& later.paused == env.paused
            &&& later.auths == env.auths
        }),
        env.then_publishes(event) == env.then_does(env.storage, seq![Action::Publish(event)]),
{
    assert(env.then_publishes(event) =~= env.then_does(
        env.storage,
        seq![Action::Publish(event)],
    ));
}

/// Each storing action changes the entry it names to what it says, and no other;
/// the rest of the actions change no entry of the marketplace.
pub proof fn law_action_changes_one_entry(s: StorageView, action: Action)
    ensures
        ({
            let t = s.after(action);
            &&& t.legacy == s.legacy
            &&& t.config == (match action {
                Action::StoreConfig(config) => Some(config),
                _ => s.config,
            })
            &&& t.listings == (match action {
                Action::StoreListing(id, listing) => s.listings.insert(id, listing),
                _ => s.listings,
            })
            &&& t.whitelist == (match action {
                Action::StoreWhitelisted(token, listed) => s.whitelist.insert(token, listed),
                Action::RemoveWhitelisted(token) => s.whitelist.remove(token),
                _ => s.whitelist,
            })
            &&& t.locked == (match action {
                Action::Lock => true,
                Action::Unlock => false,
                _ => s.locked,
            })
        }),
{
}

} // verus!
