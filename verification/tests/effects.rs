use kora_marketplace::address::Address;
use kora_marketplace::env::{Action, Env};
use kora_marketplace::errors::KoraError;
use kora_marketplace::events::Event;
use kora_marketplace::marketplace::MarketplaceContract;
use kora_marketplace::types::{DataKey, LegacyConfig, Listing, MarketplaceConfig};

const NOW: u64 = 1_700_000_000;
const DEADLINE: u64 = NOW + 86_400;

fn address(n: u8) -> Address {
    let mut strkey = [b'A'; 56];
    strkey[55] = n;
    Address { strkey }
}

const CONTRACT: u8 = 0;
const ADMIN: u8 = 1;
const TREASURY: u8 = 2;
const NFT: u8 = 3;
const POOL: u8 = 4;
const TOKEN: u8 = 5;
const SELLER: u8 = 6;
const INVESTOR: u8 = 7;
const STRANGER: u8 = 8;

fn config(fee_bps: u32) -> MarketplaceConfig {
    MarketplaceConfig {
        admin: address(ADMIN),
        invoice_nft: address(NFT),
        financing_pool: address(POOL),
        treasury: address(TREASURY),
        fee_bps,
    }
}

fn legacy(fee_bps: u32) -> LegacyConfig {
    LegacyConfig {
        admin: Some(address(ADMIN)),
        invoice_nft: Some(address(NFT)),
        financing_pool: Some(address(POOL)),
        treasury: Some(address(TREASURY)),
        fee_bps: Some(fee_bps),
    }
}

fn listing(asking_price: i128, face_value: i128) -> Listing {
    Listing {
        invoice_id: 1,
        seller: address(SELLER),
        asking_price,
        face_value,
        token: address(TOKEN),
        funded_amount: 0,
        funding_deadline: DEADLINE,
        is_active: true,
    }
}

fn fresh() -> Env {
    let mut env = Env::new(address(CONTRACT), NOW);
    for n in [ADMIN, SELLER, INVESTOR, STRANGER] {
        env.authorize(address(n));
    }
    env
}

fn ready(fee_bps: u32) -> Env {
    let mut env = fresh();
    env.storage.config = Some(config(fee_bps));
    env.storage.whitelist.insert(address(TOKEN), true);
    env
}

fn open_for_funding(fee_bps: u32, asking_price: i128) -> Env {
    let mut env = ready(fee_bps);
    env.storage.listings.insert(1, listing(asking_price, asking_price + 1));
    env
}

fn bump(key: DataKey) -> Action {
    Action::ExtendTtl { key, threshold: 518_400, extend_to: 518_400 }
}

fn offer(env: &mut Env, asking: i128, face: i128) -> Result<(), KoraError> {
    MarketplaceContract::list_invoice(
        env,
        address(SELLER),
        1,
        asking,
        face,
        address(TOKEN),
        DEADLINE,
    )
}

fn fund(env: &mut Env, amount: i128) -> Result<(), KoraError> {
    MarketplaceContract::fund_invoice(env, address(INVESTOR), 1, amount)
}

#[test]
fn initialize_stores_the_configuration() {
    let mut env = fresh();
    let result = MarketplaceContract::initialize(
        &mut env,
        address(ADMIN),
        address(NFT),
        address(POOL),
        address(TREASURY),
        10_000,
    );
    assert_eq!(result, Ok(()));
    assert_eq!(env.actions, vec![Action::StoreConfig(config(10_000))]);
    assert_eq!(env.storage.config, Some(config(10_000)));
}

#[test]
fn initialize_refuses_a_fee_above_the_whole() {
    let mut env = fresh();
    let result = MarketplaceContract::initialize(
        &mut env,
        address(ADMIN),
        address(NFT),
        address(POOL),
        address(TREASURY),
        10_001,
    );
    assert_eq!(result, Err(KoraError::InvalidFeeBps));
    assert!(env.actions.is_empty());
    assert_eq!(env.storage.config, None);
}

#[test]
fn initialize_is_checked_before_the_fee() {
    let mut env = ready(50);
    let result = MarketplaceContract::initialize(
        &mut env,
        address(STRANGER),
        address(NFT),
        address(POOL),
        address(TREASURY),
        10_001,
    );
    assert_eq!(result, Err(KoraError::AlreadyInitialized));
    assert_eq!(env.storage.config, Some(config(50)));
}

#[test]
fn set_fee_bps_changes_the_rate_and_says_so() {
    let mut env = ready(50);
    assert_eq!(MarketplaceContract::set_fee_bps(&mut env, address(ADMIN), 75), Ok(()));
    assert_eq!(
        env.actions,
        vec![
            Action::StoreConfig(config(75)),
            Action::Publish(Event::FeeRateUpdated {
                admin: address(ADMIN),
                old_bps: 50,
                new_bps: 75,
                timestamp: NOW,
            }),
        ]
    );
    assert_eq!(MarketplaceContract::get_fee_bps(&mut env), Ok(75));
}

#[test]
fn set_fee_bps_refusals() {
    let mut env = ready(50);
    assert_eq!(
        MarketplaceContract::set_fee_bps(&mut env, address(STRANGER), 75),
        Err(KoraError::NotAdmin)
    );
    assert_eq!(
        MarketplaceContract::set_fee_bps(&mut env, address(ADMIN), 10_001),
        Err(KoraError::InvalidFeeBps)
    );
    assert_eq!(
        MarketplaceContract::set_fee_bps(&mut fresh(), address(ADMIN), 75),
        Err(KoraError::NotInitialized)
    );
    assert!(env.actions.is_empty());
    assert_eq!(env.storage.config, Some(config(50)));
}

#[test]
fn whitelist_token_stores_keeps_alive_and_says_so() {
    let mut env = ready(50);
    let token = address(20);
    assert!(!MarketplaceContract::is_token_whitelisted(&env, token));
    assert_eq!(MarketplaceContract::whitelist_token(&mut env, address(ADMIN), token), Ok(()));
    assert_eq!(
        env.actions,
        vec![
            Action::StoreWhitelisted(token, true),
            bump(DataKey::WhitelistedToken(token)),
            Action::Publish(Event::TokenWhitelisted { token, timestamp: NOW }),
        ]
    );
    assert!(MarketplaceContract::is_token_whitelisted(&env, token));
    assert!(MarketplaceContract::is_token_whitelisted(&env, address(TOKEN)));
}

#[test]
fn remove_token_whitelist_undoes_whitelisting() {
    let mut env = ready(50);
    let admin = address(ADMIN);
    assert_eq!(
        MarketplaceContract::remove_token_whitelist(&mut env, admin, address(TOKEN)),
        Ok(())
    );
    assert_eq!(env.actions, vec![Action::RemoveWhitelisted(address(TOKEN))]);
    assert!(!MarketplaceContract::is_token_whitelisted(&env, address(TOKEN)));
    assert_eq!(
        MarketplaceContract::remove_token_whitelist(&mut env, admin, address(TOKEN)),
        Err(KoraError::TokenNotWhitelisted)
    );
    assert_eq!(
        MarketplaceContract::remove_token_whitelist(&mut env, address(STRANGER), address(TOKEN)),
        Err(KoraError::NotAdmin)
    );
}

#[test]
fn a_stored_false_is_not_on_the_whitelist() {
    let mut env = ready(50);
    env.storage.whitelist.insert(address(TOKEN), false);
    assert!(!MarketplaceContract::is_token_whitelisted(&env, address(TOKEN)));
    assert_eq!(offer(&mut env, 9, 10), Err(KoraError::TokenNotWhitelisted));
}

#[test]
fn list_invoice_does_things_in_order() {
    let mut env = ready(50);
    assert_eq!(offer(&mut env, 9_000, 10_000), Ok(()));
    assert_eq!(
        env.actions,
        vec![
            Action::Lock,
            Action::SetListed {
                invoice_nft: address(NFT),
                caller: address(CONTRACT),
                invoice_id: 1,
            },
            Action::StoreListing(1, listing(9_000, 10_000)),
            bump(DataKey::Listing(1)),
            Action::Publish(Event::InvoiceListed {
                invoice_id: 1,
                seller: address(SELLER),
                asking_price: 9_000,
                timestamp: NOW,
            }),
            Action::Unlock,
        ]
    );
    assert!(!env.storage.locked);
    assert_eq!(MarketplaceContract::get_listing(&env, 1), Ok(listing(9_000, 10_000)));
}

#[test]
fn list_invoice_refusals_in_order() {
    let mut env = ready(50);
    assert_eq!(offer(&mut env, -1, 10), Err(KoraError::InvalidAmount));
    assert_eq!(offer(&mut env, 1, -10), Err(KoraError::InvalidAmount));
    assert_eq!(offer(&mut env, 11, 10), Err(KoraError::InvalidAmount));
    env.timestamp = DEADLINE;
    assert_eq!(offer(&mut env, 11, 10), Err(KoraError::InvalidDueDate));
    env.timestamp = DEADLINE - 1;
    env.storage.locked = true;
    env.storage.config = None;
    assert_eq!(offer(&mut env, 9, 10), Err(KoraError::ReentrantCall));
    env.storage.locked = false;
    assert_eq!(offer(&mut env, 9, 10), Err(KoraError::NotInitialized));
    assert!(env.actions.is_empty());
    env.storage.config = Some(config(50));
    assert_eq!(offer(&mut env, 9, 10), Ok(()));
}

#[test]
fn the_fee_model_example() {
    let mut env = open_for_funding(50, 2_000);
    assert_eq!(fund(&mut env, 1_000), Ok(()));
    let after = Listing { funded_amount: 1_000, ..listing(2_000, 2_001) };
    assert_eq!(
        env.actions,
        vec![
            Action::Transfer {
                token: address(TOKEN),
                from: address(INVESTOR),
                to: address(TREASURY),
                amount: 5,
            },
            Action::Transfer {
                token: address(TOKEN),
                from: address(INVESTOR),
                to: address(POOL),
                amount: 995,
            },
            Action::StoreListing(1, after),
            bump(DataKey::Listing(1)),
            Action::Publish(Event::InvoiceFunded {
                invoice_id: 1,
                investor: address(INVESTOR),
                amount: 1_000,
                timestamp: NOW,
            }),
            Action::Publish(Event::FeeCollected {
                invoice_id: 1,
                fee_amount: 5,
                token: address(TOKEN),
                timestamp: NOW,
            }),
        ]
    );
}

#[test]
fn a_fee_that_rounds_to_nothing_is_not_collected() {
    let mut env = open_for_funding(50, 2_000);
    assert_eq!(fund(&mut env, 199), Ok(()));
    assert_eq!(
        env.actions[0],
        Action::Transfer {
            token: address(TOKEN),
            from: address(INVESTOR),
            to: address(POOL),
            amount: 199,
        }
    );
    assert_eq!(env.actions.len(), 4);
}

#[test]
fn a_fee_of_the_whole_leaves_nothing_for_the_pool() {
    let mut env = open_for_funding(10_000, 2_000);
    assert_eq!(fund(&mut env, 300), Ok(()));
    assert_eq!(
        env.actions[0],
        Action::Transfer {
            token: address(TOKEN),
            from: address(INVESTOR),
            to: address(TREASURY),
            amount: 300,
        }
    );
    let transfers = env.actions.iter().filter(|a| matches!(a, Action::Transfer { .. })).count();
    assert_eq!(transfers, 1);
}

#[test]
fn the_last_contribution_closes_and_releases() {
    let mut env = open_for_funding(0, 2_000);
    assert_eq!(fund(&mut env, 1_500), Ok(()));
    assert!(!env.actions.iter().any(|a| matches!(a, Action::ReleaseFunds { .. })));
    assert_eq!(fund(&mut env, 501), Err(KoraError::ExceedsFundingTarget));
    assert_eq!(fund(&mut env, 500), Ok(()));
    assert_eq!(
        env.actions.last().unwrap(),
        &Action::ReleaseFunds {
            financing_pool: address(POOL),
            caller: address(CONTRACT),
            invoice_id: 1,
            token: address(TOKEN),
        }
    );
    let closed = MarketplaceContract::get_listing(&env, 1).unwrap();
    assert_eq!(closed.funded_amount, 2_000);
    assert!(!closed.is_active);
    assert_eq!(fund(&mut env, 1), Err(KoraError::ListingAlreadyCancelled));
    assert_eq!(
        MarketplaceContract::cancel_listing(&mut env, address(SELLER), 1),
        Err(KoraError::ListingAlreadyCancelled)
    );
    assert_eq!(offer(&mut env, 9, 10), Err(KoraError::InvoiceAlreadyExists));
}

#[test]
fn funding_is_open_up_to_the_deadline() {
    let mut env = open_for_funding(50, 2_000);
    env.timestamp = DEADLINE;
    assert_eq!(fund(&mut env, 10), Ok(()));
    env.timestamp = DEADLINE + 1;
    assert_eq!(fund(&mut env, 10), Err(KoraError::FundingDeadlinePassed));
    env.timestamp = u64::MAX;
    assert_eq!(fund(&mut env, 10), Err(KoraError::FundingDeadlinePassed));
}

#[test]
fn funding_reports_overflow() {
    let mut env = open_for_funding(10_000, i128::MAX - 1);
    assert_eq!(fund(&mut env, i128::MAX - 1), Err(KoraError::ArithmeticOverflow));
    assert_eq!(fund(&mut env, i128::MAX / 10_000 + 1), Err(KoraError::ArithmeticOverflow));
    assert!(env.actions.is_empty());
    assert_eq!(fund(&mut env, i128::MAX / 10_000), Ok(()));

    let mut env = ready(50);
    let broken = Listing { funded_amount: -2, ..listing(i128::MAX - 1, i128::MAX) };
    env.storage.listings.insert(1, broken);
    assert_eq!(fund(&mut env, 1), Err(KoraError::ArithmeticOverflow));
}

#[test]
fn funding_needs_a_configuration() {
    let mut env = open_for_funding(50, 2_000);
    env.storage.config = None;
    assert_eq!(fund(&mut env, 10), Err(KoraError::NotInitialized));
    assert_eq!(fund(&mut env, -1), Err(KoraError::InvalidAmount));
}

#[test]
fn cancel_listing_does_things_in_order() {
    let mut env = open_for_funding(50, 2_000);
    assert_eq!(MarketplaceContract::cancel_listing(&mut env, address(SELLER), 1), Ok(()));
    let closed = Listing { is_active: false, ..listing(2_000, 2_001) };
    assert_eq!(
        env.actions,
        vec![
            Action::StoreListing(1, closed),
            bump(DataKey::Listing(1)),
            Action::Publish(Event::ListingCancelled {
                invoice_id: 1,
                seller: address(SELLER),
                timestamp: NOW,
            }),
        ]
    );
}

#[test]
fn the_admin_cancels_in_the_sellers_name() {
    let mut env = open_for_funding(50, 2_000);
    assert_eq!(MarketplaceContract::cancel_listing(&mut env, address(ADMIN), 1), Ok(()));
    assert_eq!(
        env.actions.last().unwrap(),
        &Action::Publish(Event::ListingCancelled {
            invoice_id: 1,
            seller: address(SELLER),
            timestamp: NOW,
        })
    );
}

#[test]
fn cancelling_needs_a_configuration() {
    let mut env = open_for_funding(50, 2_000);
    env.storage.config = None;
    assert_eq!(
        MarketplaceContract::cancel_listing(&mut env, address(SELLER), 1),
        Err(KoraError::NotInitialized)
    );
}

#[test]
fn a_pause_stops_listing_and_funding_only() {
    let mut env = open_for_funding(50, 2_000);
    env.paused = true;
    assert_eq!(offer(&mut env, 0, 0), Err(KoraError::ProtocolPaused));
    assert_eq!(fund(&mut env, 0), Err(KoraError::ProtocolPaused));
    let admin = address(ADMIN);
    assert_eq!(MarketplaceContract::set_fee_bps(&mut env, admin, 60), Ok(()));
    assert_eq!(MarketplaceContract::whitelist_token(&mut env, admin, address(21)), Ok(()));
    assert_eq!(MarketplaceContract::remove_token_whitelist(&mut env, admin, address(21)), Ok(()));
    assert_eq!(MarketplaceContract::cancel_listing(&mut env, address(SELLER), 1), Ok(()));
}

#[test]
fn parts_kept_apart_become_one_entry() {
    let mut env = fresh();
    env.storage.legacy = legacy(80);
    assert_eq!(MarketplaceContract::get_config(&mut env), Ok(config(80)));
    assert_eq!(env.actions, vec![Action::StoreConfig(config(80))]);
    assert_eq!(env.storage.config, Some(config(80)));
    assert_eq!(MarketplaceContract::get_fee_bps(&mut env), Ok(80));
    assert_eq!(env.actions.len(), 1);
}

#[test]
fn the_single_entry_takes_precedence() {
    let mut env = ready(50);
    env.storage.legacy = legacy(80);
    assert_eq!(MarketplaceContract::get_fee_bps(&mut env), Ok(50));
    assert!(env.actions.is_empty());
}

#[test]
fn every_part_is_needed() {
    for missing in 0..5 {
        let mut env = fresh();
        let mut parts = legacy(80);
        match missing {
            0 => parts.admin = None,
            1 => parts.invoice_nft = None,
            2 => parts.financing_pool = None,
            3 => parts.treasury = None,
            _ => parts.fee_bps = None,
        }
        env.storage.legacy = parts;
        assert_eq!(MarketplaceContract::get_config(&mut env), Err(KoraError::NotInitialized));
        assert_eq!(MarketplaceContract::get_fee_bps(&mut env), Err(KoraError::NotInitialized));
        assert!(env.actions.is_empty());
    }
}

#[test]
fn a_refused_request_does_not_merge_the_parts() {
    let mut env = fresh();
    env.storage.legacy = legacy(80);
    assert_eq!(
        MarketplaceContract::whitelist_token(&mut env, address(STRANGER), address(TOKEN)),
        Err(KoraError::NotAdmin)
    );
    assert!(env.actions.is_empty());
    assert_eq!(env.storage.config, None);
    assert_eq!(
        MarketplaceContract::whitelist_token(&mut env, address(ADMIN), address(TOKEN)),
        Ok(())
    );
    assert_eq!(env.actions[0], Action::StoreConfig(config(80)));
    assert_eq!(env.storage.config, Some(config(80)));
}

#[test]
fn funding_with_parts_kept_apart_merges_them_first() {
    let mut env = open_for_funding(50, 2_000);
    env.storage.config = None;
    env.storage.legacy = legacy(100);
    assert_eq!(fund(&mut env, 1_000), Ok(()));
    assert_eq!(env.actions[0], Action::StoreConfig(config(100)));
    assert_eq!(
        env.actions[1],
        Action::Transfer {
            token: address(TOKEN),
            from: address(INVESTOR),
            to: address(TREASURY),
            amount: 10,
        }
    );
}

#[test]
fn listing_with_parts_kept_apart_merges_them_inside_the_guard() {
    let mut env = ready(50);
    env.storage.config = None;
    env.storage.legacy = legacy(100);
    assert_eq!(offer(&mut env, 9, 10), Ok(()));
    assert_eq!(env.actions[0], Action::Lock);
    assert_eq!(env.actions[1], Action::StoreConfig(config(100)));
    assert_eq!(env.actions.len(), 7);
}

#[test]
fn require_admin_tells_the_admin_apart() {
    let env = ready(50);
    assert_eq!(MarketplaceContract::require_admin(&env, &address(ADMIN)), Ok(config(50)));
    assert_eq!(
        MarketplaceContract::require_admin(&env, &address(STRANGER)),
        Err(KoraError::NotAdmin)
    );
    assert_eq!(
        MarketplaceContract::require_admin(&fresh(), &address(ADMIN)),
        Err(KoraError::NotInitialized)
    );
}
