//! Requests to the marketplace, and what a sequence of them leads to.

use crate::address::Address;
use crate::env::{Action, EnvView, StorageView};
use crate::errors::KoraError;
use crate::model;
use crate::model::Offer;
use crate::types::MarketplaceConfig;
use vstd::prelude::*;

verus! {

/// A request to the marketplace that may change what is stored.
pub enum Request {
    /// `initialize`.
    Initialize(MarketplaceConfig),
    /// `set_fee_bps`.
    SetFeeBps { admin: Address, fee_bps: u32 },
    /// `get_config` or `get_fee_bps`.
    ReadConfig,
    /// `whitelist_token`.
    WhitelistToken { admin: Address, token: Address },
    /// `remove_token_whitelist`.
    RemoveTokenWhitelist { admin: Address, token: Address },
    /// `list_invoice`.
    ListInvoice(Offer),
    /// `fund_invoice`.
    FundInvoice { investor: Address, invoice_id: u64, amount: i128 },
    /// `cancel_listing`.
    CancelListing { caller: Address, invoice_id: u64 },
}

/// Whose authorization the request needs, if anybody's.
pub open spec fn signer(request: Request) -> Option<Address> {
    match request {
        Request::Initialize(_) => None,
        Request::SetFeeBps { admin, .. } => Some(admin),
        Request::ReadConfig => None,
        Request::WhitelistToken { admin, .. } => Some(admin),
        Request::RemoveTokenWhitelist { admin, .. } => Some(admin),
        Request::ListInvoice(offer) => Some(offer.seller),
        Request::FundInvoice { investor, .. } => Some(investor),
        Request::CancelListing { caller, .. } => Some(caller),
    }
}

/// Why the request is refused, if it is.
pub open spec fn refusal(env: EnvView, request: Request) -> Option<KoraError> {
    match request {
        Request::Initialize(config) => model::initialize_refusal(env.storage, config.fee_bps),
        Request::SetFeeBps { admin, fee_bps } => model::set_fee_refusal(
            env.storage,
            admin,
            fee_bps,
        ),
        Request::ReadConfig => model::config_refusal(env.storage),
        Request::WhitelistToken { admin, .. } => model::admin_refusal(env.storage, admin),
        Request::RemoveTokenWhitelist { admin, token } => model::remove_refusal(
            env.storage,
            admin,
            token,
        ),
        Request::ListInvoice(offer) => model::list_refusal(env, offer),
        Request::FundInvoice { invoice_id, amount, .. } => model::fund_refusal(
            env,
            invoice_id,
            amount,
        ),
        Request::CancelListing { caller, invoice_id } => model::cancel_refusal(
            env.storage,
            caller,
            invoice_id,
        ),
    }
}

/// What is stored after the request, if it is not refused.
pub open spec fn stored(s: StorageView, request: Request) -> StorageView {
    match request {
        Request::Initialize(config) => model::initialize_stored(s, config),
        Request::SetFeeBps { fee_bps, .. } => model::set_fee_stored(s, fee_bps),
        Request::ReadConfig => model::migrated(s),
        Request::WhitelistToken { token, .. } => model::whitelist_stored(s, token),
        Request::RemoveTokenWhitelist { token, .. } => model::remove_stored(s, token),
        Request::ListInvoice(offer) => model::list_stored(s, offer),
        Request::FundInvoice { invoice_id, amount, .. } => model::fund_stored(
            s,
            invoice_id,
            amount,
        ),
        Request::CancelListing { invoice_id, .. } => model::cancel_stored(s, invoice_id),
    }
}

/// What the request does, if it is not refused.
pub open spec fn actions(env: EnvView, request: Request) -> Seq<Action> {
    match request {
        Request::Initialize(config) => seq![Action::StoreConfig(config)],
        Request::SetFeeBps { admin, fee_bps } => model::set_fee_actions(env, admin, fee_bps),
        Request::ReadConfig => model::migration(env.storage),
        Request::WhitelistToken { token, .. } => model::whitelist_actions(env, token),
        Request::RemoveTokenWhitelist { token, .. } => model::remove_actions(env.storage, token),
        Request::ListInvoice(offer) => model::list_actions(env, offer),
        Request::FundInvoice { investor, invoice_id, amount } => model::fund_actions(
            env,
            investor,
            invoice_id,
            amount,
        ),
        Request::CancelListing { invoice_id, .. } => model::cancel_actions(env, invoice_id),
    }
}

/// A request, and the circumstances in which it is made.
pub struct Call {
    pub timestamp: u64,
    pub contract: Address,
    pub paused: bool,
    pub auths: Seq<Address>,
    pub request: Request,
}

impl Call {
    /// The invocation at its start, when `s` is stored.
    pub open spec fn on(self, s: StorageView) -> EnvView {
        EnvView {
            storage: s,
            timestamp: self.timestamp,
            contract: self.contract,
            paused: self.paused,
            auths: self.auths,
            actions: Seq::empty(),
        }
    }

    /// Whoever has to has authorized the call.
    pub open spec fn signed(self) -> bool {
        signer(self.request) matches Some(who) ==> self.auths.contains(who)
    }

    /// The request is accepted when `s` is stored.
    pub open spec fn accepted(self, s: StorageView) -> bool {
        refusal(self.on(s), self.request) is None
    }
}

/// What is stored after a call.
pub open spec fn step(s: StorageView, call: Call) -> StorageView {
    if call.accepted(s) {
        stored(s, call.request)
    } else {
        s
    }
}

/// What is stored after a sequence of calls.
pub open spec fn run(s: StorageView, calls: Seq<Call>) -> StorageView
    decreases calls.len(),
{
    if calls.len() == 0 {
        s
    } else {
        step(run(s, calls.drop_last()), calls.last())
    }
}

/// What a call contributes to the funding of an invoice.
pub open spec fn contribution(s: StorageView, call: Call, id: u64) -> int {
    match call.request {
        Request::FundInvoice { invoice_id, amount, .. } => if invoice_id == id && call.accepted(
            s,
        ) {
            amount as int
        } else {
            0
        },
        _ => 0,
    }
}

/// What a sequence of calls contributes to the funding of an invoice.
pub open spec fn contributions(s: StorageView, calls: Seq<Call>, id: u64) -> int
    decreases calls.len(),
{
    if calls.len() == 0 {
        0
    } else {
        contributions(s, calls.drop_last(), id) + contribution(
            run(s, calls.drop_last()),
            calls.last(),
            id,
        )
    }
}

/// How much of `token` the actions draw from `from`.
pub open spec fn drawn(actions: Seq<Action>, token: Address, from: Address) -> int
    decreases actions.len(),
{
    if actions.len() == 0 {
        0
    } else {
        drawn(actions.drop_last(), token, from) + match actions.last() {
            Action::Transfer { token: t, from: f, amount, .. } => if t == token && f == from {
                amount as int
            } else {
                0
            },
            _ => 0,
        }
    }
}

/// How much of `token` the actions bring to `to`.
pub open spec fn brought(actions: Seq<Action>, token: Address, to: Address) -> int
    decreases actions.len(),
{
    if actions.len() == 0 {
        0
    } else {
        brought(actions.drop_last(), token, to) + match actions.last() {
            Action::Transfer { token: t, to: r, amount, .. } => if t == token && r == to {
                amount as int
            } else {
                0
            },
            _ => 0,
        }
    }
}

} // verus!
