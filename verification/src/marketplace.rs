//! The operations of the marketplace.

use crate::address::Address;
use crate::env::{Action, Env, EnvView};
use crate::errors::KoraError;
use crate::events;
use crate::model;
use crate::model::{Offer, PERSISTENT_TTL_BUMP, PERSISTENT_TTL_THRESHOLD};
use crate::types::{DataKey, Listing, MarketplaceConfig};
use crate::validation::{
    bps_of, require_future_timestamp, require_non_zero_amount, require_not_paused,
    require_valid_fee_bps, safe_add, safe_sub,
};
use vstd::prelude::*;

verus! {

/// The marketplace: where sellers list invoices and investors fund them.
///
/// A refused operation leaves no trace: the invocation is as it was before. An
/// operation does not start before its signer has authorized the invocation, so
/// each that has a signer asks for that authorization up front.
pub struct MarketplaceContract;

/// What an accepted contribution comes to.
struct Contribution {
    /// The configuration in force.
    config: MarketplaceConfig,
    /// The listing after the contribution.
    listing: Listing,
    /// What goes to the treasury.
    fee: i128,
    /// What goes to the financing pool.
    net: i128,
}

impl Contribution {
    spec fn meets(self, env: EnvView, invoice_id: u64, amount: i128) -> bool {
        &&& model::config_of(env.storage) == Some(self.config)
        &&& self.listing == model::funded(env.storage.listings[invoice_id], amount)
        &&& self.fee == model::fee_on(amount, self.config)
        &&& self.net == model::net_of(amount, self.config)
    }
}

impl MarketplaceContract {
    /// Sets up the marketplace. This can be done once.
    pub fn initialize(
        env: &mut Env,
        admin: Address,
        invoice_nft: Address,
        financing_pool: Address,
        treasury: Address,
        fee_bps: u32,
    ) -> (result: Result<(), KoraError>)
        ensures
            match result {
                Err(error) => {
                    &&& model::initialize_refusal(old(env)@.storage, fee_bps) == Some(error)
                    &&& final(env)@ == old(env)@
                },
                Ok(()) => {
                    let config = MarketplaceConfig {
                        admin,
                        invoice_nft,
                        financing_pool,
                        treasury,
                        fee_bps,
                    };
                    &&& model::initialize_refusal(old(env)@.storage, fee_bps) is None
                    &&& final(env)@ == old(env)@.then_does(
                        model::initialize_stored(old(env)@.storage, config),
                        seq![Action::StoreConfig(config)],
                    )
                },
            },
    {
        if env.storage.config.is_some() {
            return Err(KoraError::AlreadyInitialized);
        }
        require_valid_fee_bps(fee_bps)?;
        let config = MarketplaceConfig { admin, invoice_nft, financing_pool, treasury, fee_bps };
        env.perform(Action::StoreConfig(config));
        Ok(())
    }

    /// Changes the fee rate. Only the administrator may.
    pub fn set_fee_bps(env: &mut Env, admin: Address, fee_bps: u32) -> (result: Result<
        (),
        KoraError,
    >)
        requires
            old(env)@.authorized(admin),
        ensures
            match result {
                Err(error) => {
                    &&& model::set_fee_refusal(old(env)@.storage, admin, fee_bps) == Some(error)
                    &&& final(env)@ == old(env)@
                },
                Ok(()) => {
                    &&& model::set_fee_refusal(old(env)@.storage, admin, fee_bps) is None
                    &&& final(env)@ == old(env)@.then_does(
                        model::set_fee_stored(old(env)@.storage, fee_bps),
                        model::set_fee_actions(old(env)@, admin, fee_bps),
                    )
                },
            },
    {
        let mut config = Self::require_admin(env, &admin)?;
        require_valid_fee_bps(fee_bps)?;
        Self::migrate_config(env, config);
        let old_bps: u32 = config.fee_bps;
        config.fee_bps = fee_bps;
        env.perform(Action::StoreConfig(config));
        events::fee_rate_updated(env, &admin, old_bps, fee_bps);
        Ok(())
    }

    /// The fee rate in force, in basis points.
    pub fn get_fee_bps(env: &mut Env) -> (result: Result<u32, KoraError>)
        ensures
            match result {
                Err(error) => {
                    &&& model::config_refusal(old(env)@.storage) == Some(error)
                    &&& final(env)@ == old(env)@
                },
                Ok(fee_bps) => {
                    &&& model::config_of(old(env)@.storage) matches Some(config) && config.fee_bps
                        == fee_bps
                    &&& final(env)@ == old(env)@.then_does(
                        model::migrated(old(env)@.storage),
                        model::migration(old(env)@.storage),
                    )
                },
            },
    {
        Ok(Self::load_config(env)?.fee_bps)
    }

    /// The configuration in force.
    pub fn get_config(env: &mut Env) -> (result: Result<MarketplaceConfig, KoraError>)
        ensures
            match result {
                Err(error) => {
                    &&& model::config_refusal(old(env)@.storage) == Some(error)
                    &&& final(env)@ == old(env)@
                },
                Ok(config) => {
                    &&& model::config_of(old(env)@.storage) == Some(config)
                    &&& final(env)@ == old(env)@.then_does(
                        model::migrated(old(env)@.storage),
                        model::migration(old(env)@.storage),
                    )
                },
            },
    {
        Self::load_config(env)
    }

    /// Puts a token on the whitelist. Only the administrator may.
    pub fn whitelist_token(env: &mut Env, admin: Address, token: Address) -> (result: Result<
        (),
        KoraError,
    >)
        requires
            old(env)@.authorized(admin),
        ensures
            match result {
                Err(error) => {
                    &&& model::admin_refusal(old(env)@.storage, admin) == Some(error)
                    &&& final(env)@ == old(env)@
                },
                Ok(()) => {
                    &&& model::admin_refusal(old(env)@.storage, admin) is None
                    &&& final(env)@ == old(env)@.then_does(
                        model::whitelist_stored(old(env)@.storage, token),
                        model::whitelist_actions(old(env)@, token),
                    )
                },
            },
    {
        let config = Self::require_admin(env, &admin)?;
        Self::migrate_config(env, config);
        env.perform(Action::StoreWhitelisted(token, true));
        Self::bump_persistent(env, DataKey::WhitelistedToken(token));
        events::token_whitelisted(env, &token);
        Ok(())
    }

    /// Takes a token off the whitelist. Only the administrator may.
    pub fn remove_token_whitelist(env: &mut Env, admin: Address, token: Address) -> (result: Result<
        (),
        KoraError,
    >)
        requires
            old(env)@.authorized(admin),
        ensures
            match result {
                Err(error) => {
                    &&& model::remove_refusal(old(env)@.storage, admin, token) == Some(error)
                    &&& final(env)@ == old(env)@
                },
                Ok(()) => {
                    &&& model::remove_refusal(old(env)@.storage, admin, token) is None
                    &&& final(env)@ == old(env)@.then_does(
                        model::remove_stored(old(env)@.storage, token),
                        model::remove_actions(old(env)@.storage, token),
                    )
                },
            },
    {
        let config = Self::require_admin(env, &admin)?;
        Self::require_whitelisted_token(env, &token)?;
        Self::migrate_config(env, config);
        env.perform(Action::RemoveWhitelisted(token));
        Ok(())
    }

    /// Lists an invoice for financing.
    pub fn list_invoice(
        env: &mut Env,
        seller: Address,
        invoice_id: u64,
        asking_price: i128,
        face_value: i128,
        token: Address,
        funding_deadline: u64,
    ) -> (result: Result<(), KoraError>)
        requires
            old(env)@.authorized(seller),
        ensures
            ({
                let offer = Offer {
                    seller,
                    invoice_id,
                    asking_price,
                    face_value,
                    token,
                    funding_deadline,
                };
                match result {
                    Err(error) => {
                        &&& model::list_refusal(old(env)@, offer) == Some(error)
                        &&& final(env)@ == old(env)@
                    },
                    Ok(()) => {
                        &&& model::list_refusal(old(env)@, offer) is None
                        &&& final(env)@ == old(env)@.then_does(
                            model::list_stored(old(env)@.storage, offer),
                            model::list_actions(old(env)@, offer),
                        )
                    },
                }
            }),
    {
        require_not_paused(env)?;
        require_non_zero_amount(asking_price)?;
        require_non_zero_amount(face_value)?;
        require_future_timestamp(env, funding_deadline)?;
        if asking_price >= face_value {
            return Err(KoraError::InvalidAmount);
        }
        Self::require_whitelisted_token(env, &token)?;
        if env.storage.listings.get(&invoice_id).is_some() {
            return Err(KoraError::InvoiceAlreadyExists);
        }
        if env.storage.locked {
            return Err(KoraError::ReentrantCall);
        }
        let config = Self::current_config(env)?;

        env.perform(Action::Lock);
        Self::migrate_config(env, config);
        let caller = env.contract;
        env.perform(Action::SetListed { invoice_nft: config.invoice_nft, caller, invoice_id });
        let listing = Listing {
            invoice_id,
            seller,
            asking_price,
            face_value,
            token,
            funded_amount: 0,
            funding_deadline,
            is_active: true,
        };
        env.perform(Action::StoreListing(invoice_id, listing));
        Self::bump_persistent(env, DataKey::Listing(invoice_id));
        events::invoice_listed(env, invoice_id, &seller, asking_price);
        env.perform(Action::Unlock);
        Ok(())
    }

    /// Contributes to the funding of an invoice.
    pub fn fund_invoice(env: &mut Env, investor: Address, invoice_id: u64, amount: i128) -> (result:
        Result<(), KoraError>)
        requires
            old(env)@.authorized(investor),
        ensures
            match result {
                Err(error) => {
                    &&& model::fund_refusal(old(env)@, invoice_id, amount) == Some(error)
                    &&& final(env)@ == old(env)@
                },
                Ok(()) => {
                    &&& model::fund_refusal(old(env)@, invoice_id, amount) is None
                    &&& final(env)@ == old(env)@.then_does(
                        model::fund_stored(old(env)@.storage, invoice_id, amount),
                        model::fund_actions(old(env)@, investor, invoice_id, amount),
                    )
                },
            },
    {
        let accepted = Self::assess_contribution(env, invoice_id, amount)?;
        Self::settle_contribution(env, accepted, investor, invoice_id, amount);
        Ok(())
    }

    /// Closes a listing to further contributions. Its seller may, and the
    /// administrator.
    pub fn cancel_listing(env: &mut Env, caller: Address, invoice_id: u64) -> (result: Result<
        (),
        KoraError,
    >)
        requires
            old(env)@.authorized(caller),
        ensures
            match result {
                Err(error) => {
                    &&& model::cancel_refusal(old(env)@.storage, caller, invoice_id) == Some(error)
                    &&& final(env)@ == old(env)@
                },
                Ok(()) => {
                    &&& model::cancel_refusal(old(env)@.storage, caller, invoice_id) is None
                    &&& final(env)@ == old(env)@.then_does(
                        model::cancel_stored(old(env)@.storage, invoice_id),
                        model::cancel_actions(old(env)@, invoice_id),
                    )
                },
            },
    {
        let mut listing = match env.storage.listings.get(&invoice_id) {
            Some(listing) => listing,
            None => return Err(KoraError::ListingNotFound),
        };
        if !listing.is_active {
            return Err(KoraError::ListingAlreadyCancelled);
        }
        let config = Self::current_config(env)?;
        if caller != listing.seller && caller != config.admin {
            return Err(KoraError::Unauthorized);
        }
        listing.is_active = false;

        Self::migrate_config(env, config);
        env.perform(Action::StoreListing(invoice_id, listing));
        Self::bump_persistent(env, DataKey::Listing(invoice_id));
        events::listing_cancelled(env, invoice_id, &listing.seller);
        Ok(())
    }

    /// The listing of an invoice.
    pub fn get_listing(env: &Env, invoice_id: u64) -> (result: Result<Listing, KoraError>)
        ensures
            result == (if env@.storage.listings.contains_key(invoice_id) {
                Ok(env@.storage.listings[invoice_id])
            } else {
                Err(KoraError::ListingNotFound)
            }),
    {
        match env.storage.listings.get(&invoice_id) {
            Some(listing) => Ok(listing),
            None => Err(KoraError::ListingNotFound),
        }
    }

    /// Whether a token is on the whitelist.
    pub fn is_token_whitelisted(env: &Env, token: Address) -> (listed: bool)
        ensures
            listed == model::is_whitelisted(env@.storage, token),
    {
        match env.storage.whitelist.get(&token) {
            Some(listed) => listed,
            None => false,
        }
    }

    /// The configuration in force, provided `who` is its administrator.
    pub fn require_admin(env: &Env, who: &Address) -> (result: Result<MarketplaceConfig, KoraError>)
        ensures
            match result {
                Err(error) => model::admin_refusal(env@.storage, *who) == Some(error),
                Ok(config) => {
                    &&& model::admin_refusal(env@.storage, *who) is None
                    &&& model::config_of(env@.storage) == Some(config)
                },
            },
    {
        let config = Self::current_config(env)?;
        if config.admin != *who {
            return Err(KoraError::NotAdmin);
        }
        Ok(config)
    }

    /// The configuration in force.
    fn current_config(env: &Env) -> (result: Result<MarketplaceConfig, KoraError>)
        ensures
            match result {
                Err(error) => model::config_refusal(env@.storage) == Some(error),
                Ok(config) => model::config_of(env@.storage) == Some(config),
            },
    {
        if let Some(config) = env.storage.config {
            return Ok(config);
        }
        let legacy = env.storage.legacy;
        match (
            legacy.admin,
            legacy.invoice_nft,
            legacy.financing_pool,
            legacy.treasury,
            legacy.fee_bps,
        ) {
            (
                Some(admin),
                Some(invoice_nft),
                Some(financing_pool),
                Some(treasury),
                Some(fee_bps),
            ) => Ok(MarketplaceConfig { admin, invoice_nft, financing_pool, treasury, fee_bps }),
            _ => Err(KoraError::NotInitialized),
        }
    }

    /// Makes the configuration in force a single entry, unless it is one already.
    fn migrate_config(env: &mut Env, config: MarketplaceConfig)
        requires
            model::config_of(old(env)@.storage) == Some(config),
        ensures
            final(env)@ == old(env)@.then_does(
                model::migrated(old(env)@.storage),
                model::migration(old(env)@.storage),
            ),
    {
        if env.storage.config.is_none() {
            env.perform(Action::StoreConfig(config));
        }
    }

    /// The configuration in force, which becomes a single entry if it is not one
    /// already.
    fn load_config(env: &mut Env) -> (result: Result<MarketplaceConfig, KoraError>)
        ensures
            match result {
                Err(error) => {
                    &&& model::config_refusal(old(env)@.storage) == Some(error)
                    &&& final(env)@ == old(env)@
                },
                Ok(config) => {
                    &&& model::config_of(old(env)@.storage) == Some(config)
                    &&& final(env)@ == old(env)@.then_does(
                        model::migrated(old(env)@.storage),
                        model::migration(old(env)@.storage),
                    )
                },
            },
    {
        let config = Self::current_config(env)?;
        Self::migrate_config(env, config);
        Ok(config)
    }

    /// Refuses a token that is not on the whitelist.
    fn require_whitelisted_token(env: &Env, token: &Address) -> (result: Result<(), KoraError>)
        ensures
            result == (if model::is_whitelisted(env@.storage, *token) {
                Ok(())
            } else {
                Err(KoraError::TokenNotWhitelisted)
            }),
    {
        if !Self::is_token_whitelisted(env, *token) {
            return Err(KoraError::TokenNotWhitelisted);
        }
        Ok(())
    }

    /// Decides on a contribution, and works out what it comes to.
    fn assess_contribution(env: &Env, invoice_id: u64, amount: i128) -> (result: Result<
        Contribution,
        KoraError,
    >)
        ensures
            match result {
                Err(error) => model::fund_refusal(env@, invoice_id, amount) == Some(error),
                Ok(accepted) => {
                    &&& model::fund_refusal(env@, invoice_id, amount) is None
                    &&& accepted.meets(env@, invoice_id, amount)
                },
            },
    {
        require_not_paused(env)?;
        require_non_zero_amount(amount)?;
        let mut listing = match env.storage.listings.get(&invoice_id) {
            Some(listing) => listing,
            None => return Err(KoraError::ListingNotFound),
        };
        if !listing.is_active {
            return Err(KoraError::ListingAlreadyCancelled);
        }
        if env.timestamp > listing.funding_deadline {
            return Err(KoraError::FundingDeadlinePassed);
        }
        let remaining: i128 = safe_sub(listing.asking_price, listing.funded_amount)?;
        if amount > remaining {
            return Err(KoraError::ExceedsFundingTarget);
        }
        let config = Self::current_config(env)?;
        let fee: i128 = bps_of(amount, config.fee_bps)?;
        proof {
            assert(amount * config.fee_bps >= 0) by (nonlinear_arith)
                requires
                    amount > 0,
                    config.fee_bps >= 0,
            ;
        }
        let net: i128 = safe_sub(amount, fee)?;
        listing.funded_amount = safe_add(listing.funded_amount, amount)?;
        if listing.funded_amount >= listing.asking_price {
            listing.is_active = false;
        }
        Ok(Contribution { config, listing, fee, net })
    }

    /// Carries out a contribution that was accepted.
    fn settle_contribution(
        env: &mut Env,
        accepted: Contribution,
        investor: Address,
        invoice_id: u64,
        amount: i128,
    )
        requires
            accepted.meets(old(env)@, invoice_id, amount),
        ensures
            final(env)@ == old(env)@.then_does(
                model::fund_stored(old(env)@.storage, invoice_id, amount),
                model::fund_actions(old(env)@, investor, invoice_id, amount),
            ),
    {
        let Contribution { config, listing, fee, net } = accepted;
        Self::migrate_config(env, config);
        Self::pay(env, listing.token, investor, config.treasury, fee);
        Self::pay(env, listing.token, investor, config.financing_pool, net);
        env.perform(Action::StoreListing(invoice_id, listing));
        Self::bump_persistent(env, DataKey::Listing(invoice_id));
        events::invoice_funded(env, invoice_id, &investor, amount);
        if fee > 0 {
            events::fee_collected(env, invoice_id, fee, &listing.token);
        }
        if !listing.is_active {
            let caller = env.contract;
            env.perform(
                Action::ReleaseFunds {
                    financing_pool: config.financing_pool,
                    caller,
                    invoice_id,
                    token: listing.token,
                },
            );
        }
    }

    /// Moves `amount` of `token` from one holder to another, if it is positive.
    fn pay(env: &mut Env, token: Address, from: Address, to: Address, amount: i128)
        ensures
            final(env)@ == old(env)@.then_does(
                old(env)@.storage,
                model::payment(token, from, to, amount as int),
            ),
    {
        if amount > 0 {
            env.perform(Action::Transfer { token, from, to, amount });
        }
    }

    /// Keeps the entry under `key` alive.
    fn bump_persistent(env: &mut Env, key: DataKey)
        ensures
            final(env)@ == old(env)@.then_does(old(env)@.storage, seq![model::bump(key)]),
    {
        env.perform(
            Action::ExtendTtl {
                key,
                threshold: PERSISTENT_TTL_THRESHOLD,
                extend_to: PERSISTENT_TTL_BUMP,
            },
        );
    }
}

} // verus!
