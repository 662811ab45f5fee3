//! The events of the protocol: their names, what they carry, and how they are
//! published.

use crate::address::Address;
use crate::env::{Action, Env};
use vstd::prelude::*;

verus! {

/// A value that an event carries.
#[derive(Debug, PartialEq, Eq)]
pub enum Value {
    /// A rate.
    U32(u32),
    /// An identifier or a time.
    U64(u64),
    /// An amount.
    I128(i128),
    /// An address.
    Address(Address),
    /// A text.
    Text(String),
}

/// Something that happened, and the time of the ledger in which it did.
#[derive(Debug, PartialEq, Eq)]
pub enum Event {
    /// An invoice was created.
    InvoiceCreated { invoice_id: u64, sme: Address, amount: i128, timestamp: u64 },
    /// An invoice was listed for financing.
    InvoiceListed { invoice_id: u64, seller: Address, asking_price: i128, timestamp: u64 },
    /// An investor contributed to a listing.
    InvoiceFunded { invoice_id: u64, investor: Address, amount: i128, timestamp: u64 },
    /// The status of an invoice changed.
    InvoiceStatusChanged { invoice_id: u64, old_status: String, new_status: String, timestamp: u64 },
    /// A repayment on an invoice was made.
    RepaymentMade { invoice_id: u64, payer: Address, amount: i128, timestamp: u64 },
    /// An investor received yield from an invoice.
    YieldDistributed { invoice_id: u64, investor: Address, yield_amount: i128, timestamp: u64 },
    /// An invoice was not paid when due.
    InvoiceDefaulted { invoice_id: u64, sme: Address, timestamp: u64 },
    /// A listing was cancelled.
    ListingCancelled { invoice_id: u64, seller: Address, timestamp: u64 },
    /// A listing expired.
    ListingExpired { invoice_id: u64, seller: Address, timestamp: u64 },
    /// A token was whitelisted.
    TokenWhitelisted { token: Address, timestamp: u64 },
    /// A fee was collected on a contribution.
    FeeCollected { invoice_id: u64, fee_amount: i128, token: Address, timestamp: u64 },
    /// The fee rate was changed.
    FeeRateUpdated { admin: Address, old_bps: u32, new_bps: u32, timestamp: u64 },
    /// The protocol was paused.
    ProtocolPaused { by: Address, timestamp: u64 },
    /// The protocol was resumed.
    ProtocolUnpaused { by: Address, timestamp: u64 },
}

/// The name under which an event is published.
pub open spec fn topic_of(event: Event) -> Seq<char> {
    match event {
        Event::InvoiceCreated { .. } => "INV_CRT"@,
        Event::InvoiceListed { .. } => "INV_LST"@,
        Event::InvoiceFunded { .. } => "INV_FND"@,
        Event::InvoiceStatusChanged { .. } => "INV_STS"@,
        Event::RepaymentMade { .. } => "REPAY"@,
        Event::YieldDistributed { .. } => "YIELD"@,
        Event::InvoiceDefaulted { .. } => "DEFAULT"@,
        Event::ListingCancelled { .. } => "LST_CXL"@,
        Event::ListingExpired { .. } => "LST_EXP"@,
        Event::TokenWhitelisted { .. } => "TKN_WLS"@,
        Event::FeeCollected { .. } => "FEE_COL"@,
        Event::FeeRateUpdated { .. } => "FEE_UPD"@,
        Event::ProtocolPaused { .. } => "PAUSED"@,
        Event::ProtocolUnpaused { .. } => "UNPAUSED"@,
    }
}

/// `data` is what `event` carries, in the order in which it is published.
pub open spec fn carries(event: Event, data: Seq<Value>) -> bool {
    match event {
        Event::InvoiceCreated { invoice_id, sme, amount, timestamp } => data == seq![
            Value::U64(invoice_id),
            Value::Address(sme),
            Value::I128(amount),
            Value::U64(timestamp),
        ],
        Event::InvoiceListed { invoice_id, seller, asking_price, timestamp } => data == seq![
            Value::U64(invoice_id),
            Value::Address(seller),
            Value::I128(asking_price),
            Value::U64(timestamp),
        ],
        Event::InvoiceFunded { invoice_id, investor, amount, timestamp } => data == seq![
            Value::U64(invoice_id),
            Value::Address(investor),
            Value::I128(amount),
            Value::U64(timestamp),
        ],
        Event::InvoiceStatusChanged { invoice_id, old_status, new_status, timestamp } => {
            &&& data.len() == 4
            &&& data[0] == Value::U64(invoice_id)
            &&& data[1] matches Value::Text(from) && from@ == old_status@
            &&& data[2] matches Value::Text(to) && to@ == new_status@
            &&& data[3] == Value::U64(timestamp)
        },
        Event::RepaymentMade { invoice_id, payer, amount, timestamp } => data == seq![
            Value::U64(invoice_id),
            Value::Address(payer),
            Value::I128(amount),
            Value::U64(timestamp),
        ],
        Event::YieldDistributed { invoice_id, investor, yield_amount, timestamp } => data == seq![
            Value::U64(invoice_id),
            Value::Address(investor),
            Value::I128(yield_amount),
            Value::U64(timestamp),
        ],
        Event::InvoiceDefaulted { invoice_id, sme, timestamp } => data == seq![
            Value::U64(invoice_id),
            Value::Address(sme),
            Value::U64(timestamp),
        ],
        Event::ListingCancelled { invoice_id, seller, timestamp } => data == seq![
            Value::U64(invoice_id),
            Value::Address(seller),
            Value::U64(timestamp),
        ],
        Event::ListingExpired { invoice_id, seller, timestamp } => data == seq![
            Value::U64(invoice_id),
            Value::Address(seller),
            Value::U64(timestamp),
        ],
        Event::TokenWhitelisted { token, timestamp } => data == seq![
            Value::Address(token),
            Value::U64(timestamp),
        ],
        Event::FeeCollected { invoice_id, fee_amount, token, timestamp } => data == seq![
            Value::U64(invoice_id),
            Value::I128(fee_amount),
            Value::Address(token),
            Value::U64(timestamp),
        ],
        Event::FeeRateUpdated { admin, old_bps, new_bps, timestamp } => data == seq![
            Value::Address(admin),
            Value::U32(old_bps),
            Value::U32(new_bps),
            Value::U64(timestamp),
        ],
        Event::ProtocolPaused { by, timestamp } => data == seq![
            Value::Address(by),
            Value::U64(timestamp),
        ],
        Event::ProtocolUnpaused { by, timestamp } => data == seq![
            Value::Address(by),
            Value::U64(timestamp),
        ],
    }
}

impl Event {
    /// The name under which the event is published.
    pub fn topic(&self) -> (topic: &'static str)
        ensures
            topic@ == topic_of(*self),
    {
        match self {
            Event::InvoiceCreated { .. } => "INV_CRT",
            Event::InvoiceListed { .. } => "INV_LST",
            Event::InvoiceFunded { .. } => "INV_FND",
            Event::InvoiceStatusChanged { .. } => "INV_STS",
            Event::RepaymentMade { .. } => "REPAY",
            Event::YieldDistributed { .. } => "YIELD",
            Event::InvoiceDefaulted { .. } => "DEFAULT",
            Event::ListingCancelled { .. } => "LST_CXL",
            Event::ListingExpired { .. } => "LST_EXP",
            Event::TokenWhitelisted { .. } => "TKN_WLS",
            Event::FeeCollected { .. } => "FEE_COL",
            Event::FeeRateUpdated { .. } => "FEE_UPD",
            Event::ProtocolPaused { .. } => "PAUSED",
            Event::ProtocolUnpaused { .. } => "UNPAUSED",
        }
    }

    /// What the event carries, in the order in which it is published.
    pub fn data(&self) -> (data: Vec<Value>)
        ensures
            carries(*self, data@),
    {
        match self {
            Event::InvoiceCreated { invoice_id, sme, amount, timestamp } => vec![
                Value::U64(*invoice_id),
                Value::Address(*sme),
                Value::I128(*amount),
                Value::U64(*timestamp),
            ],
            Event::InvoiceListed { invoice_id, seller, asking_price, timestamp } => vec![
                Value::U64(*invoice_id),
                Value::Address(*seller),
                Value::I128(*asking_price),
                Value::U64(*timestamp),
            ],
            Event::InvoiceFunded { invoice_id, investor, amount, timestamp } => vec![
                Value::U64(*invoice_id),
                Value::Address(*investor),
                Value::I128(*amount),
                Value::U64(*timestamp),
            ],
            Event::InvoiceStatusChanged { invoice_id, old_status, new_status, timestamp } => vec![
                Value::U64(*invoice_id),
                Value::Text(old_status.clone()),
                Value::Text(new_status.clone()),
                Value::U64(*timestamp),
            ],
            Event::RepaymentMade { invoice_id, payer, amount, timestamp } => vec![
                Value::U64(*invoice_id),
                Value::Address(*payer),
                Value::I128(*amount),
                Value::U64(*timestamp),
            ],
            Event::YieldDistributed { invoice_id, investor, yield_amount, timestamp } => vec![
                Value::U64(*invoice_id),
                Value::Address(*investor),
                Value::I128(*yield_amount),
                Value::U64(*timestamp),
            ],
            Event::InvoiceDefaulted { invoice_id, sme, timestamp } => vec![
                Value::U64(*invoice_id),
                Value::Address(*sme),
                Value::U64(*timestamp),
            ],
            Event::ListingCancelled { invoice_id, seller, timestamp } => vec![
                Value::U64(*invoice_id),
                Value::Address(*seller),
                Value::U64(*timestamp),
            ],
            Event::ListingExpired { invoice_id, seller, timestamp } => vec![
                Value::U64(*invoice_id),
                Value::Address(*seller),
                Value::U64(*timestamp),
            ],
            Event::TokenWhitelisted { token, timestamp } => vec![
                Value::Address(*token),
                Value::U64(*timestamp),
            ],
            Event::FeeCollected { invoice_id, fee_amount, token, timestamp } => vec![
                Value::U64(*invoice_id),
                Value::I128(*fee_amount),
                Value::Address(*token),
                Value::U64(*timestamp),
            ],
            Event::FeeRateUpdated { admin, old_bps, new_bps, timestamp } => vec![
                Value::Address(*admin),
                Value::U32(*old_bps),
                Value::U32(*new_bps),
                Value::U64(*timestamp),
            ],
            Event::ProtocolPaused { by, timestamp } => vec![
                Value::Address(*by),
                Value::U64(*timestamp),
            ],
            Event::ProtocolUnpaused { by, timestamp } => vec![
                Value::Address(*by),
                Value::U64(*timestamp),
            ],
        }
    }
}

/// Publishes `event`.
fn emit(env: &mut Env, event: Event)
    ensures
        final(env)@ == old(env)@.then_publishes(event),
{
    env.perform(Action::Publish(event));
}

/// Publishes that an invoice was created.
pub fn invoice_created(env: &mut Env, invoice_id: u64, sme: &Address, amount: i128)
    ensures
        final(env)@ == old(env)@.then_publishes(
            Event::InvoiceCreated {
                invoice_id,
                sme: *sme,
                amount,
                timestamp: old(env)@.timestamp,
            },
        ),
{
    let timestamp: u64 = env.timestamp;
    emit(
        env,
        Event::InvoiceCreated {
            invoice_id,
            sme: *sme,
            amount,
            timestamp,
        },
    );
}

/// Publishes that an invoice was listed for financing.
pub fn invoice_listed(env: &mut Env, invoice_id: u64, seller: &Address, asking_price: i128)
    ensures
        final(env)@ == old(env)@.then_publishes(
            Event::InvoiceListed {
                invoice_id,
                seller: *seller,
                asking_price,
                timestamp: old(env)@.timestamp,
            },
        ),
{
    let timestamp: u64 = env.timestamp;
    emit(
        env,
        Event::InvoiceListed {
            invoice_id,
            seller: *seller,
            asking_price,
            timestamp,
        },
    );
}

/// Publishes that an investor contributed to a listing.
pub fn invoice_funded(env: &mut Env, invoice_id: u64, investor: &Address, amount: i128)
    ensures
        final(env)@ == old(env)@.then_publishes(
            Event::InvoiceFunded {
                invoice_id,
                investor: *investor,
                amount,
                timestamp: old(env)@.timestamp,
            },
        ),
{
    let timestamp: u64 = env.timestamp;
    emit(
        env,
        Event::InvoiceFunded {
            invoice_id,
            investor: *investor,
            amount,
            timestamp,
        },
    );
}

/// Publishes that the status of an invoice changed.
pub fn invoice_status_changed(env: &mut Env, invoice_id: u64, old_status: &str, new_status: &str)
    ensures
        final(env)@.actions.len() == old(env)@.actions.len() + 1,
        final(env)@ == old(env)@.then_does(
            old(env)@.storage,
            seq![final(env)@.actions.last()],
        ),
        final(env)@.actions.last() matches Action::Publish(
            Event::InvoiceStatusChanged {
                invoice_id: id,
                old_status: from,
                new_status: to,
                timestamp,
            },
        ) && id == invoice_id && from@ == old_status@ && to@ == new_status@ && timestamp
            == old(env)@.timestamp,
{
    let timestamp: u64 = env.timestamp;
    emit(
        env,
        Event::InvoiceStatusChanged {
            invoice_id,
            old_status: old_status.to_owned(),
            new_status: new_status.to_owned(),
            timestamp,
        },
    );
}

/// Publishes that a repayment on an invoice was made.
pub fn repayment_made(env: &mut Env, invoice_id: u64, payer: &Address, amount: i128)
    ensures
        final(env)@ == old(env)@.then_publishes(
            Event::RepaymentMade {
                invoice_id,
                payer: *payer,
                amount,
                timestamp: old(env)@.timestamp,
            },
        ),
{
    let timestamp: u64 = env.timestamp;
    emit(
        env,
        Event::RepaymentMade {
            invoice_id,
            payer: *payer,
            amount,
            timestamp,
        },
    );
}

/// Publishes that an investor received yield from an invoice.
pub fn yield_distributed(env: &mut Env, invoice_id: u64, investor: &Address, yield_amount: i128)
    ensures
        final(env)@ == old(env)@.then_publishes(
            Event::YieldDistributed {
                invoice_id,
                investor: *investor,
                yield_amount,
                timestamp: old(env)@.timestamp,
            },
        ),
{
    let timestamp: u64 = env.timestamp;
    emit(
        env,
        Event::YieldDistributed {
            invoice_id,
            investor: *investor,
            yield_amount,
            timestamp,
        },
    );
}

/// Publishes that an invoice was not paid when due.
pub fn invoice_defaulted(env: &mut Env, invoice_id: u64, sme: &Address)
    ensures
        final(env)@ == old(env)@.then_publishes(
            Event::InvoiceDefaulted {
                invoice_id,
                sme: *sme,
                timestamp: old(env)@.timestamp,
            },
        ),
{
    let timestamp: u64 = env.timestamp;
    emit(
        env,
        Event::InvoiceDefaulted {
            invoice_id,
            sme: *sme,
            timestamp,
        },
    );
}

/// Publishes that a listing was cancelled.
pub fn listing_cancelled(env: &mut Env, invoice_id: u64, seller: &Address)
    ensures
        final(env)@ == old(env)@.then_publishes(
            Event::ListingCancelled {
                invoice_id,
                seller: *seller,
                timestamp: old(env)@.timestamp,
            },
        ),
{
    let timestamp: u64 = env.timestamp;
    emit(
        env,
        Event::ListingCancelled {
            invoice_id,
            seller: *seller,
            timestamp,
        },
    );
}

/// Publishes that a listing expired.
pub fn listing_expired(env: &mut Env, invoice_id: u64, seller: &Address)
    ensures
        final(env)@ == old(env)@.then_publishes(
            Event::ListingExpired {
                invoice_id,
                seller: *seller,
                timestamp: old(env)@.timestamp,
            },
        ),
{
    let timestamp: u64 = env.timestamp;
    emit(
        env,
        Event::ListingExpired {
            invoice_id,
            seller: *seller,
            timestamp,
        },
    );
}

/// Publishes that a token was whitelisted.
pub fn token_whitelisted(env: &mut Env, token: &Address)
    ensures
        final(env)@ == old(env)@.then_publishes(
            Event::TokenWhitelisted {
                token: *token,
                timestamp: old(env)@.timestamp,
            },
        ),
{
    let timestamp: u64 = env.timestamp;
    emit(
        env,
        Event::TokenWhitelisted {
            token: *token,
            timestamp,
        },
    );
}

/// Publishes that a fee was collected on a contribution.
pub fn fee_collected(env: &mut Env, invoice_id: u64, fee_amount: i128, token: &Address)
    ensures
        final(env)@ == old(env)@.then_publishes(
            Event::FeeCollected {
                invoice_id,
                fee_amount,
                token: *token,
                timestamp: old(env)@.timestamp,
            },
        ),
{
    let timestamp: u64 = env.timestamp;
    emit(
        env,
        Event::FeeCollected {
            invoice_id,
            fee_amount,
            token: *token,
            timestamp,
        },
    );
}

/// Publishes that the fee rate was changed.
pub fn fee_rate_updated(env: &mut Env, admin: &Address, old_bps: u32, new_bps: u32)
    ensures
        final(env)@ == old(env)@.then_publishes(
            Event::FeeRateUpdated {
                admin: *admin,
                old_bps,
                new_bps,
                timestamp: old(env)@.timestamp,
            },
        ),
{
    let timestamp: u64 = env.timestamp;
    emit(
        env,
        Event::FeeRateUpdated {
            admin: *admin,
            old_bps,
            new_bps,
            timestamp,
        },
    );
}

/// Publishes that the protocol was paused.
pub fn protocol_paused(env: &mut Env, by: &Address)
    ensures
        final(env)@ == old(env)@.then_publishes(
            Event::ProtocolPaused {
                by: *by,
                timestamp: old(env)@.timestamp,
            },
        ),
{
    let timestamp: u64 = env.timestamp;
    emit(
        env,
        Event::ProtocolPaused {
            by: *by,
            timestamp,
        },
    );
}

/// Publishes that the protocol was resumed.
pub fn protocol_unpaused(env: &mut Env, by: &Address)
    ensures
        final(env)@ == old(env)@.then_publishes(
            Event::ProtocolUnpaused {
                by: *by,
                timestamp: old(env)@.timestamp,
            },
        ),
{
    let timestamp: u64 = env.timestamp;
    emit(
        env,
        Event::ProtocolUnpaused {
            by: *by,
            timestamp,
        },
    );
}

} // verus!
