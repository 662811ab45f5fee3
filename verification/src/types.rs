//! The data that the marketplace keeps.

use crate::address::Address;
use vstd::prelude::*;

verus! {

/// An invoice offered for financing.
#[derive(Clone, Copy, Debug, PartialEq, Eq)]
pub struct Listing {
    /// The invoice.
    pub invoice_id: u64,
    /// Who offers it.
    pub seller: Address,
    /// What investors are asked to contribute in all.
    pub asking_price: i128,
    /// What the invoice is worth when it is due.
    pub face_value: i128,
    /// The token in which contributions are made.
    pub token: Address,
    /// What has been contributed so far, fees included.
    pub funded_amount: i128,
    /// The last moment at which contributions are accepted.
    pub funding_deadline: u64,
    /// Whether the listing is open for contributions.
    pub is_active: bool,
}

impl Listing {
    /// The asking price is positive and below the face value, contributions lie
    /// between nothing and the asking price, and an open listing still needs some.
    pub open spec fn sound(self) -> bool {
        &&& 0 < self.asking_price < self.face_value
        &&& 0 <= self.funded_amount <= self.asking_price
        &&& self.is_active ==> self.funded_amount < self.asking_price
    }
}

/// What the marketplace is set up with.
#[derive(Clone, Copy, Debug, PartialEq, Eq)]
pub struct MarketplaceConfig {
    /// Who may change the fee and the whitelist, and cancel any listing.
    pub admin: Address,
    /// The contract that holds the state of each invoice.
    pub invoice_nft: Address,
    /// The contract that receives contributions, less the fee.
    pub financing_pool: Address,
    /// Who receives the fees.
    pub treasury: Address,
    /// The fee on each contribution, in basis points.
    pub fee_bps: u32,
}

/// The configuration as it was kept before it became a single entry: one entry
/// for each of its parts.
#[derive(Clone, Copy, Debug, PartialEq, Eq)]
pub struct LegacyConfig {
    /// The entry for the administrator.
    pub admin: Option<Address>,
    /// The entry for the invoice contract.
    pub invoice_nft: Option<Address>,
    /// The entry for the financing pool.
    pub financing_pool: Option<Address>,
    /// The entry for the treasury.
    pub treasury: Option<Address>,
    /// The entry for the fee rate.
    pub fee_bps: Option<u32>,
}

impl LegacyConfig {
    /// The configuration that the entries add up to, when all of them are there.
    pub open spec fn consolidated(self) -> Option<MarketplaceConfig> {
        match (
            self.admin,
            self.invoice_nft,
            self.financing_pool,
            self.treasury,
            self.fee_bps,
        ) {
            (
                Some(admin),
                Some(invoice_nft),
                Some(financing_pool),
                Some(treasury),
                Some(fee_bps),
            ) => Some(
                MarketplaceConfig { admin, invoice_nft, financing_pool, treasury, fee_bps },
            ),
            _ => None,
        }
    }

    /// No entries.
    pub fn none() -> (legacy: Self)
        ensures
            legacy == (LegacyConfig {
                admin: None,
                invoice_nft: None,
                financing_pool: None,
                treasury: None,
                fee_bps: None,
            }),
    {
        LegacyConfig {
            admin: None,
            invoice_nft: None,
            financing_pool: None,
            treasury: None,
            fee_bps: None,
        }
    }
}

/// The keys under which the marketplace stores its entries.
#[derive(Clone, Copy, Debug, PartialEq, Eq)]
pub enum DataKey {
    /// The configuration.
    Config,
    /// The administrator, kept apart.
    Admin,
    /// The invoice contract, kept apart.
    InvoiceNft,
    /// The financing pool, kept apart.
    FinancingPool,
    /// The treasury, kept apart.
    Treasury,
    /// The fee rate, kept apart.
    FeeBps,
    /// The listing of an invoice.
    Listing(u64),
    /// Whether a token is whitelisted.
    WhitelistedToken(Address),
}

} // verus!
