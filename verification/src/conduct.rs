//! What each accepted request does, action by action, and what is published.

use crate::address::Address;
use crate::env::{Action, EnvView};
use crate::events;
use crate::events::{Event, Value};
use crate::history;
use crate::history::Request;
use crate::laws;
use crate::model;
use crate::model::Offer;
use crate::types::{DataKey, MarketplaceConfig};
use crate::validation;
use vstd::prelude::*;

verus! {

// ── Money ─────────────────────────────────────────────────────────────────────

/// Of every accepted contribution the treasury receives the amount times the rate
/// in force over ten thousand, rounded down, and the financing pool all the rest,
/// in the token of the listing and from the investor alone.
pub proof fn law_fee_to_treasury_rest_to_pool(
    env: EnvView,
    investor: Address,
    invoice_id: u64,
    amount: i128,
    config: MarketplaceConfig,
)
    requires
        history::refusal(env, Request::FundInvoice { investor, invoice_id, amount }) is None,
        model::config_of(env.storage) == Some(config),
        config.fee_bps <= 10_000,
    ensures
        ({
            let done = history::actions(env, Request::FundInvoice { investor, invoice_id, amount });
            let token = env.storage.listings[invoice_id].token;
            &&& history::drawn(done, token, investor) == amount
            &&& config.treasury != config.financing_pool ==> {
                &&& history::brought(done, token, config.treasury) == (amount * config.fee_bps)
                    / 10_000
                &&& history::brought(done, token, config.financing_pool) == amount - (amount
                    * config.fee_bps) / 10_000
            }
            &&& config.treasury == config.financing_pool ==> history::brought(
                done,
                token,
                config.treasury,
            ) == amount
        }),
{
    laws::law_contribution_is_split(env, investor, invoice_id, amount, config);
    lemma_product(amount as int, config.fee_bps as int);
}

/// Nobody else receives anything from a contribution, and nothing moves in another
/// token.
pub proof fn law_nobody_else_receives(
    env: EnvView,
    investor: Address,
    invoice_id: u64,
    amount: i128,
    i: int,
)
    requires
        history::refusal(env, Request::FundInvoice { investor, invoice_id, amount }) is None,
        0 <= i < history::actions(
            env,
            Request::FundInvoice { investor, invoice_id, amount },
        ).len(),
    ensures
        ({
            let done = history::actions(env, Request::FundInvoice { investor, invoice_id, amount });
            let config = model::config_of(env.storage)->0;
            done[i] matches Action::Transfer { token, from, to, amount: paid } ==> {
                &&& token == env.storage.listings[invoice_id].token
                &&& from == investor
                &&& to == config.treasury || to == config.financing_pool
                &&& 0 < paid
                &&& config.fee_bps <= 10_000 ==> paid <= amount
            }
        }),
{
    law_contribution_conduct(env, investor, invoice_id, amount);
    let config = model::config_of(env.storage)->0;
    lemma_product(amount as int, config.fee_bps as int);
    if config.fee_bps <= 10_000 {
        laws::law_share_is_rounded_down(amount as int, config.fee_bps as int);
    }
    let k = if env.storage.config is None {
        1int
    } else {
        0int
    };
    if i >= k + 2 {
        lemma_late_actions_pay_nothing(env, investor, invoice_id, amount, i);
    }
}

proof fn lemma_late_actions_pay_nothing(
    env: EnvView,
    investor: Address,
    invoice_id: u64,
    amount: i128,
    i: int,
)
    requires
        history::refusal(env, Request::FundInvoice { investor, invoice_id, amount }) is None,
        (if env.storage.config is None {
            3int
        } else {
            2int
        }) <= i < history::actions(
            env,
            Request::FundInvoice { investor, invoice_id, amount },
        ).len(),
    ensures
        !(history::actions(env, Request::FundInvoice { investor, invoice_id, amount })[i]
            is Transfer),
{
    law_contribution_conduct(env, investor, invoice_id, amount);
    let config = model::config_of(env.storage)->0;
    lemma_product(amount as int, config.fee_bps as int);
}

/// The rate that was set last is the rate at which the next contribution is
/// charged.
pub proof fn law_new_rate_is_charged(
    before: EnvView,
    admin: Address,
    fee_bps: u32,
    later: EnvView,
    investor: Address,
    invoice_id: u64,
    amount: i128,
)
    requires
        history::refusal(before, Request::SetFeeBps { admin, fee_bps }) is None,
        later.storage == history::stored(before.storage, Request::SetFeeBps { admin, fee_bps }),
        history::refusal(later, Request::FundInvoice { investor, invoice_id, amount }) is None,
        ({
            let config = model::config_of(before.storage)->0;
            config.treasury != config.financing_pool
        }),
    ensures
        ({
            let config = model::config_of(before.storage)->0;
            let token = before.storage.listings[invoice_id].token;
            let done = history::actions(
                later,
                Request::FundInvoice { investor, invoice_id, amount },
            );
            &&& history::brought(done, token, config.treasury) == (amount * fee_bps) / 10_000
            &&& history::brought(done, token, config.financing_pool) == amount - (amount * fee_bps)
                / 10_000
        }),
{
    let config = model::config_of(later.storage)->0;
    law_fee_to_treasury_rest_to_pool(later, investor, invoice_id, amount, config);
}

proof fn lemma_product(amount: int, bps: int)
    ensures
        amount >= 0 && bps >= 0 ==> amount * bps >= 0,
        (-amount) * bps == -(amount * bps),
{
    assert(amount >= 0 && bps >= 0 ==> amount * bps >= 0) by (nonlinear_arith);
    assert((-amount) * bps == -(amount * bps)) by (nonlinear_arith);
}

/// A share is the exact share rounded toward zero, at any rate: rounded down where
/// the amount is not negative, and the opposite of the share of the opposite amount
/// where it is.
pub proof fn law_share_is_rounded_toward_zero(amount: int, bps: int)
    requires
        0 <= bps,
    ensures
        0 <= amount ==> {
            &&& 0 <= validation::bps_share(amount, bps)
            &&& 10_000 * validation::bps_share(amount, bps) <= amount * bps
            &&& amount * bps < 10_000 * validation::bps_share(amount, bps) + 10_000
        },
        validation::bps_share(-amount, bps) == -validation::bps_share(amount, bps),
{
    lemma_product(amount, bps);
}

/// A number fits in 128 bits exactly when it lies from minus two to the 127th up to,
/// and without, two to the 127th.
pub proof fn law_fits_in_128_bits(x: int)
    ensures
        validation::fits_i128(x) <==> -0x8000_0000_0000_0000_0000_0000_0000_0000int <= x
            < 0x8000_0000_0000_0000_0000_0000_0000_0000int,
{
}

// ── Actions ───────────────────────────────────────────────────────────────────

/// Setting up stores the configuration and does nothing else.
pub proof fn law_initialize_conduct(env: EnvView, config: MarketplaceConfig)
    ensures
        ({
            let done = history::actions(env, Request::Initialize(config));
            &&& done.len() == 1
            &&& done[0] == Action::StoreConfig(config)
        }),
{
}

/// Reading the configuration does nothing where it is a single entry, and
/// otherwise stores the one in force.
pub proof fn law_read_config_conduct(env: EnvView)
    requires
        history::refusal(env, Request::ReadConfig) is None,
    ensures
        ({
            let done = history::actions(env, Request::ReadConfig);
            &&& env.storage.config is Some ==> done.len() == 0
            &&& env.storage.config is None ==> done.len() == 1 && (done[0] matches
                Action::StoreConfig(config) && model::config_of(env.storage) == Some(config))
        }),
{
}

/// Changing the fee rate stores the configuration that is then in force, and
/// publishes who changed it, from what and to what. First the configuration is
/// made a single entry, if need be.
pub proof fn law_set_fee_conduct(env: EnvView, admin: Address, fee_bps: u32)
    requires
        history::refusal(env, Request::SetFeeBps { admin, fee_bps }) is None,
    ensures
        ({
            let done = history::actions(env, Request::SetFeeBps { admin, fee_bps });
            let after = history::stored(env.storage, Request::SetFeeBps { admin, fee_bps });
            let config = model::config_of(env.storage)->0;
            let k = if env.storage.config is None {
                1int
            } else {
                0int
            };
            &&& done.len() == k + 2
            &&& k == 1 ==> done[0] == Action::StoreConfig(config)
            &&& done[k] == Action::StoreConfig(after.config->0)
            &&& done[k + 1] == Action::Publish(
                Event::FeeRateUpdated {
                    admin: config.admin,
                    old_bps: config.fee_bps,
                    new_bps: fee_bps,
                    timestamp: env.timestamp,
                },
            )
        }),
{
}

/// Whitelisting a token stores that it is, keeps the entry alive for thirty days of
/// ledgers and publishes the token.
pub proof fn law_whitelist_conduct(env: EnvView, admin: Address, token: Address)
    requires
        history::refusal(env, Request::WhitelistToken { admin, token }) is None,
    ensures
        ({
            let done = history::actions(env, Request::WhitelistToken { admin, token });
            let k = if env.storage.config is None {
                1int
            } else {
                0int
            };
            &&& done.len() == k + 3
            &&& k == 1 ==> done[0] == Action::StoreConfig(model::config_of(env.storage)->0)
            &&& done[k] == Action::StoreWhitelisted(token, true)
            &&& done[k + 1] == (Action::ExtendTtl {
                key: DataKey::WhitelistedToken(token),
                threshold: 518_400,
                extend_to: 518_400,
            })
            &&& done[k + 2] == Action::Publish(
                Event::TokenWhitelisted { token, timestamp: env.timestamp },
            )
        }),
{
}

/// Taking a token off the whitelist removes its entry and does nothing else.
pub proof fn law_remove_conduct(env: EnvView, admin: Address, token: Address)
    requires
        history::refusal(env, Request::RemoveTokenWhitelist { admin, token }) is None,
    ensures
        ({
            let done = history::actions(env, Request::RemoveTokenWhitelist { admin, token });
            let k = if env.storage.config is None {
                1int
            } else {
                0int
            };
            &&& done.len() == k + 1
            &&& k == 1 ==> done[0] == Action::StoreConfig(model::config_of(env.storage)->0)
            &&& done[k] == Action::RemoveWhitelisted(token)
        }),
{
}

/// Listing an invoice runs in a guarded section: it has the invoice contract mark
/// the invoice as listed, in the name of the marketplace, stores the listing that
/// is then there, keeps it alive and publishes it.
pub proof fn law_list_conduct(env: EnvView, offer: Offer)
    requires
        history::refusal(env, Request::ListInvoice(offer)) is None,
    ensures
        ({
            let done = history::actions(env, Request::ListInvoice(offer));
            let after = history::stored(env.storage, Request::ListInvoice(offer));
            let config = model::config_of(env.storage)->0;
            let k = if env.storage.config is None {
                2int
            } else {
                1int
            };
            &&& done.len() == k + 5
            &&& done[0] == Action::Lock
            &&& k == 2 ==> done[1] == Action::StoreConfig(config)
            &&& done[k] == (Action::SetListed {
                invoice_nft: config.invoice_nft,
                caller: env.contract,
                invoice_id: offer.invoice_id,
            })
            &&& done[k + 1] == Action::StoreListing(
                offer.invoice_id,
                after.listings[offer.invoice_id],
            )
            &&& done[k + 2] == (Action::ExtendTtl {
                key: DataKey::Listing(offer.invoice_id),
                threshold: 518_400,
                extend_to: 518_400,
            })
            &&& done[k + 3] == Action::Publish(
                Event::InvoiceListed {
                    invoice_id: offer.invoice_id,
                    seller: offer.seller,
                    asking_price: offer.asking_price,
                    timestamp: env.timestamp,
                },
            )
            &&& done[k + 4] == Action::Unlock
        }),
{
}

/// A contribution pays the fee to the treasury and the rest to the financing pool,
/// each if it is positive, stores the listing that is then there, keeps it alive,
/// publishes the contribution and a positive fee, and has the pool release the
/// funds if the asking price is reached.
pub proof fn law_contribution_conduct(
    env: EnvView,
    investor: Address,
    invoice_id: u64,
    amount: i128,
)
    requires
        history::refusal(env, Request::FundInvoice { investor, invoice_id, amount }) is None,
    ensures
        ({
            let request = Request::FundInvoice { investor, invoice_id, amount };
            let done = history::actions(env, request);
            let after = history::stored(env.storage, request);
            let listing = env.storage.listings[invoice_id];
            let config = model::config_of(env.storage)->0;
            let fee = (amount * config.fee_bps) / 10_000;
            let full = listing.funded_amount + amount == listing.asking_price;
            let k = if env.storage.config is None {
                1int
            } else {
                0int
            };
            let to_pool = k + if fee > 0 {
                1int
            } else {
                0int
            };
            let record = to_pool + if amount - fee > 0 {
                1int
            } else {
                0int
            };
            let end = record + 3 + if fee > 0 {
                1int
            } else {
                0int
            };
            &&& done.len() == end + if full {
                1int
            } else {
                0int
            }
            &&& k == 1 ==> done[0] == Action::StoreConfig(config)
            &&& fee > 0 ==> (done[k] matches Action::Transfer { token, from, to, amount: paid } && {
                &&& token == listing.token
                &&& from == investor
                &&& to == config.treasury
                &&& paid == fee
            })
            &&& amount - fee > 0 ==> (done[to_pool] matches Action::Transfer {
                token,
                from,
                to,
                amount: paid,
            } && {
                &&& token == listing.token
                &&& from == investor
                &&& to == config.financing_pool
                &&& paid == amount - fee
            })
            &&& done[record] == Action::StoreListing(invoice_id, after.listings[invoice_id])
            &&& done[record + 1] == (Action::ExtendTtl {
                key: DataKey::Listing(invoice_id),
                threshold: 518_400,
                extend_to: 518_400,
            })
            &&& done[record + 2] == Action::Publish(
                Event::InvoiceFunded { invoice_id, investor, amount, timestamp: env.timestamp },
            )
            &&& fee > 0 ==> (done[record + 3] matches Action::Publish(
                Event::FeeCollected { invoice_id: id, fee_amount, token, timestamp },
            ) && {
                &&& id == invoice_id
                &&& fee_amount == fee
                &&& token == listing.token
                &&& timestamp == env.timestamp
            })
            &&& full ==> done[end] == (Action::ReleaseFunds {
                financing_pool: config.financing_pool,
                caller: env.contract,
                invoice_id,
                token: listing.token,
            })
        }),
{
    let listing = env.storage.listings[invoice_id];
    let config = model::config_of(env.storage)->0;
    lemma_product(amount as int, config.fee_bps as int);
    let fee = model::fee_on(amount, config);
    let a = model::migration(env.storage);
    let b = model::payment(listing.token, investor, config.treasury, fee);
    let c = model::payment(
        listing.token,
        investor,
        config.financing_pool,
        model::net_of(amount, config),
    );
    let d = model::fund_record(env, investor, invoice_id, amount);
    let e = model::fee_notice(env, invoice_id, fee);
    let f = model::release(env, config, invoice_id, model::funded(listing, amount));
    let done = model::fund_actions(env, investor, invoice_id, amount);
    let ab = a.len() + b.len();
    let abc = ab + c.len();
    let abcd = abc + d.len();
    let abcde = abcd + e.len();
    assert forall|i: int| 0 <= i < a.len() implies done[i] == a[i] by {}
    assert forall|i: int| 0 <= i < b.len() implies done[a.len() + i] == #[trigger] b[i] by {}
    assert forall|i: int| 0 <= i < c.len() implies done[ab + i] == #[trigger] c[i] by {}
    assert forall|i: int| 0 <= i < d.len() implies done[abc + i] == #[trigger] d[i] by {}
    assert forall|i: int| 0 <= i < e.len() implies done[abcd + i] == #[trigger] e[i] by {}
    assert forall|i: int| 0 <= i < f.len() implies done[abcde + i] == #[trigger] f[i] by {}
}

/// A cancellation stores the listing that is then there, keeps it alive and
/// publishes whose it is.
pub proof fn law_cancel_conduct(env: EnvView, caller: Address, invoice_id: u64)
    requires
        history::refusal(env, Request::CancelListing { caller, invoice_id }) is None,
    ensures
        ({
            let request = Request::CancelListing { caller, invoice_id };
            let done = history::actions(env, request);
            let after = history::stored(env.storage, request);
            let k = if env.storage.config is None {
                1int
            } else {
                0int
            };
            &&& done.len() == k + 3
            &&& k == 1 ==> done[0] == Action::StoreConfig(model::config_of(env.storage)->0)
            &&& done[k] == Action::StoreListing(invoice_id, after.listings[invoice_id])
            &&& done[k + 1] == (Action::ExtendTtl {
                key: DataKey::Listing(invoice_id),
                threshold: 518_400,
                extend_to: 518_400,
            })
            &&& done[k + 2] == Action::Publish(
                Event::ListingCancelled {
                    invoice_id,
                    seller: env.storage.listings[invoice_id].seller,
                    timestamp: env.timestamp,
                },
            )
        }),
{
}

// ── Events ────────────────────────────────────────────────────────────────────

/// What an event carries can be read back from the values it is published with,
/// each at its place, and there are no others.
pub proof fn law_payload_reads_back(event: Event, data: Seq<Value>)
    requires
        events::carries(event, data),
    ensures
        match event {
            Event::InvoiceCreated { invoice_id, sme, amount, timestamp } => {
                &&& data.len() == 4
                &&& data[0] == Value::U64(invoice_id)
                &&& data[1] == Value::Address(sme)
                &&& data[2] == Value::I128(amount)
                &&& data[3] == Value::U64(timestamp)
            },
            Event::InvoiceListed { invoice_id, seller, asking_price, timestamp } => {
                &&& data.len() == 4
                &&& data[0] == Value::U64(invoice_id)
                &&& data[1] == Value::Address(seller)
                &&& data[2] == Value::I128(asking_price)
                &&& data[3] == Value::U64(timestamp)
            },
            Event::InvoiceFunded { invoice_id, investor, amount, timestamp } => {
                &&& data.len() == 4
                &&& data[0] == Value::U64(invoice_id)
                &&& data[1] == Value::Address(investor)
                &&& data[2] == Value::I128(amount)
                &&& data[3] == Value::U64(timestamp)
            },
            Event::InvoiceStatusChanged { invoice_id, old_status, new_status, timestamp } => {
                &&& data.len() == 4
                &&& data[0] == Value::U64(invoice_id)
                &&& data[1] matches Value::Text(text) && text@ == old_status@
                &&& data[2] matches Value::Text(text) && text@ == new_status@
                &&& data[3] == Value::U64(timestamp)
            },
            Event::RepaymentMade { invoice_id, payer, amount, timestamp } => {
                &&& data.len() == 4
                &&& data[0] == Value::U64(invoice_id)
                &&& data[1] == Value::Address(payer)
                &&& data[2] == Value::I128(amount)
                &&& data[3] == Value::U64(timestamp)
            },
            Event::YieldDistributed { invoice_id, investor, yield_amount, timestamp } => {
                &&& data.len() == 4
                &&& data[0] == Value::U64(invoice_id)
                &&& data[1] == Value::Address(investor)
                &&& data[2] == Value::I128(yield_amount)
                &&& data[3] == Value::U64(timestamp)
            },
            Event::InvoiceDefaulted { invoice_id, sme, timestamp } => {
                &&& data.len() == 3
                &&& data[0] == Value::U64(invoice_id)
                &&& data[1] == Value::Address(sme)
                &&& data[2] == Value::U64(timestamp)
            },
            Event::ListingCancelled { invoice_id, seller, timestamp } => {
                &&& data.len() == 3
                &&& data[0] == Value::U64(invoice_id)
                &&& data[1] == Value::Address(seller)
                &&& data[2] == Value::U64(timestamp)
            },
            Event::ListingExpired { invoice_id, seller, timestamp } => {
                &&& data.len() == 3
                &&& data[0] == Value::U64(invoice_id)
                &&& data[1] == Value::Address(seller)
                &&& data[2] == Value::U64(timestamp)
            },
            Event::TokenWhitelisted { token, timestamp } => {
                &&& data.len() == 2
                &&& data[0] == Value::Address(token)
                &&& data[1] == Value::U64(timestamp)
            },
            Event::FeeCollected { invoice_id, fee_amount, token, timestamp } => {
                &&& data.len() == 4
                &&& data[0] == Value::U64(invoice_id)
                &&& data[1] == Value::I128(fee_amount)
                &&& data[2] == Value::Address(token)
                &&& data[3] == Value::U64(timestamp)
            },
            Event::FeeRateUpdated { admin, old_bps, new_bps, timestamp } => {
                &&& data.len() == 4
                &&& data[0] == Value::Address(admin)
                &&& data[1] == Value::U32(old_bps)
                &&& data[2] == Value::U32(new_bps)
                &&& data[3] == Value::U64(timestamp)
            },
            Event::ProtocolPaused { by, timestamp } => {
                &&& data.len() == 2
                &&& data[0] == Value::Address(by)
                &&& data[1] == Value::U64(timestamp)
            },
            Event::ProtocolUnpaused { by, timestamp } => {
                &&& data.len() == 2
                &&& data[0] == Value::Address(by)
                &&& data[1] == Value::U64(timestamp)
            },
        },
{
}

/// Two events of one name that carry the same values are the same event, but for
/// how their texts are held.
pub proof fn law_events_are_told_apart(a: Event, b: Event, data: Seq<Value>)
    requires
        events::topic_of(a) == events::topic_of(b),
        events::carries(a, data),
        events::carries(b, data),
    ensures
        !(a is InvoiceStatusChanged) ==> a == b,
        a matches Event::InvoiceStatusChanged { invoice_id, old_status, new_status, timestamp } ==> (b
            matches Event::InvoiceStatusChanged {
            invoice_id: id,
            old_status: from,
            new_status: to,
            timestamp: time,
        } && id == invoice_id && from@ == old_status@ && to@ == new_status@ && time == timestamp),
{
    laws::law_topic_tells_kind(a, b);
    law_payload_reads_back(a, data);
    law_payload_reads_back(b, data);
}

/// The name of an event depends on its kind alone.
pub proof fn law_names_of_events(event: Event)
    ensures
        match event {
            Event::InvoiceCreated { .. } => events::topic_of(event) == "INV_CRT"@,
            Event::InvoiceListed { .. } => events::topic_of(event) == "INV_LST"@,
            Event::InvoiceFunded { .. } => events::topic_of(event) == "INV_FND"@,
            Event::InvoiceStatusChanged { .. } => events::topic_of(event) == "INV_STS"@,
            Event::RepaymentMade { .. } => events::topic_of(event) == "REPAY"@,
            Event::YieldDistributed { .. } => events::topic_of(event) == "YIELD"@,
            Event::InvoiceDefaulted { .. } => events::topic_of(event) == "DEFAULT"@,
            Event::ListingCancelled { .. } => events::topic_of(event) == "LST_CXL"@,
            Event::ListingExpired { .. } => events::topic_of(event) == "LST_EXP"@,
            Event::TokenWhitelisted { .. } => events::topic_of(event) == "TKN_WLS"@,
            Event::FeeCollected { .. } => events::topic_of(event) == "FEE_COL"@,
            Event::FeeRateUpdated { .. } => events::topic_of(event) == "FEE_UPD"@,
            Event::ProtocolPaused { .. } => events::topic_of(event) == "PAUSED"@,
            Event::ProtocolUnpaused { .. } => events::topic_of(event) == "UNPAUSED"@,
        },
{
}

} // verus!
