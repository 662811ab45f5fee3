use kora_marketplace::address::Address;
use kora_marketplace::env::{Action, Env};
use kora_marketplace::errors::KoraError;
use kora_marketplace::events::{Event, Value};
use kora_marketplace::marketplace::MarketplaceContract;
use kora_marketplace::types::Listing;

const NOW: u64 = 1_700_000_000;

fn address(n: u8) -> Address {
    let mut strkey = [b'A'; 56];
    strkey[55] = n;
    Address { strkey }
}

const ADMIN: u8 = 1;
const TREASURY: u8 = 2;
const NFT: u8 = 3;
const POOL: u8 = 4;
const TOKEN: u8 = 5;
const SELLER: u8 = 6;

fn start(fee_bps: u32) -> Env {
    let mut env = Env::new(address(0), NOW);
    for n in 0..40 {
        env.authorize(address(n));
    }
    MarketplaceContract::initialize(
        &mut env,
        address(ADMIN),
        address(NFT),
        address(POOL),
        address(TREASURY),
        fee_bps,
    )
    .unwrap();
    MarketplaceContract::whitelist_token(&mut env, address(ADMIN), address(TOKEN)).unwrap();
    env
}

fn offer(env: &mut Env, id: u64, asking: i128, face: i128) -> Result<(), KoraError> {
    let (seller, token) = (address(SELLER), address(TOKEN));
    MarketplaceContract::list_invoice(env, seller, id, asking, face, token, NOW + 100)
}

fn fund(env: &mut Env, who: u8, id: u64, amount: i128) -> Result<(), KoraError> {
    MarketplaceContract::fund_invoice(env, address(who), id, amount)
}

fn listing(env: &Env, id: u64) -> Listing {
    MarketplaceContract::get_listing(env, id).unwrap()
}

fn moved(actions: &[Action], picks: impl Fn(&Address, &Address) -> bool) -> i128 {
    actions
        .iter()
        .map(|action| match action {
            Action::Transfer { from, to, amount, .. } if picks(from, to) => *amount,
            _ => 0,
        })
        .sum()
}

#[test]
fn actions_account_for_what_is_stored() {
    let mut env = start(50);
    offer(&mut env, 1, 900, 1_000).unwrap();
    offer(&mut env, 2, 90, 100).unwrap();
    fund(&mut env, 10, 1, 400).unwrap();
    fund(&mut env, 11, 1, 500).unwrap();
    MarketplaceContract::cancel_listing(&mut env, address(SELLER), 2).unwrap();
    MarketplaceContract::set_fee_bps(&mut env, address(ADMIN), 70).unwrap();
    MarketplaceContract::remove_token_whitelist(&mut env, address(ADMIN), address(TOKEN)).unwrap();

    let mut replayed = Env::new(address(0), NOW);
    for action in std::mem::take(&mut env.actions) {
        replayed.perform(action);
    }
    assert_eq!(replayed.storage.config, env.storage.config);
    assert_eq!(replayed.storage.locked, env.storage.locked);
    assert_eq!(listing(&replayed, 1), listing(&env, 1));
    assert_eq!(listing(&replayed, 2), listing(&env, 2));
    assert_eq!(replayed.storage.whitelist.get(&address(TOKEN)), None);
    assert_eq!(env.storage.whitelist.get(&address(TOKEN)), None);
}

#[test]
fn contributions_add_up_and_stop_at_the_asking_price() {
    let mut env = start(50);
    offer(&mut env, 1, 1_000, 1_001).unwrap();
    let mut total = 0;
    for amount in [300, 0, -5, 900, 250, 451, 449, 1, 1] {
        if fund(&mut env, 10, 1, amount).is_ok() {
            total += amount;
        }
        let now = listing(&env, 1);
        assert_eq!(now.funded_amount, total);
        assert!(now.funded_amount <= now.asking_price);
        assert_eq!(now.is_active, now.funded_amount < now.asking_price);
    }
    assert_eq!(total, 1_000);
}

#[test]
fn the_order_of_contributions_does_not_matter() {
    let mut one = start(50);
    let mut two = start(50);
    offer(&mut one, 1, 1_000, 1_001).unwrap();
    offer(&mut two, 1, 1_000, 1_001).unwrap();
    fund(&mut one, 10, 1, 300).unwrap();
    fund(&mut one, 11, 1, 700).unwrap();
    fund(&mut two, 11, 1, 700).unwrap();
    fund(&mut two, 10, 1, 300).unwrap();
    assert_eq!(listing(&one, 1), listing(&two, 1));
}

#[test]
fn a_contribution_is_split_without_loss() {
    for (fee_bps, amount) in [(0, 77), (1, 9_999), (50, 12_345), (3_333, 1), (10_000, 600)] {
        let mut env = start(fee_bps);
        offer(&mut env, 1, 100_000, 100_001).unwrap();
        env.actions.clear();
        fund(&mut env, 10, 1, amount).unwrap();
        let fee = amount * fee_bps as i128 / 10_000;
        assert_eq!(moved(&env.actions, |from, _| *from == address(10)), amount);
        assert_eq!(moved(&env.actions, |_, to| *to == address(TREASURY)), fee);
        assert_eq!(moved(&env.actions, |_, to| *to == address(POOL)), amount - fee);
    }
}

#[test]
fn other_listings_are_untouched() {
    let mut env = start(50);
    offer(&mut env, 1, 900, 1_000).unwrap();
    offer(&mut env, 2, 90, 100).unwrap();
    let other = listing(&env, 2);
    fund(&mut env, 10, 1, 900).unwrap();
    assert_eq!(listing(&env, 2), other);
    MarketplaceContract::cancel_listing(&mut env, address(SELLER), 2).unwrap();
    assert_eq!(listing(&env, 1).funded_amount, 900);
}

#[test]
fn a_closed_listing_never_changes() {
    let mut env = start(50);
    offer(&mut env, 1, 900, 1_000).unwrap();
    fund(&mut env, 10, 1, 100).unwrap();
    MarketplaceContract::cancel_listing(&mut env, address(ADMIN), 1).unwrap();
    let closed = listing(&env, 1);
    assert_eq!(fund(&mut env, 10, 1, 1), Err(KoraError::ListingAlreadyCancelled));
    assert_eq!(offer(&mut env, 1, 90, 100), Err(KoraError::InvoiceAlreadyExists));
    MarketplaceContract::set_fee_bps(&mut env, address(ADMIN), 0).unwrap();
    assert_eq!(
        MarketplaceContract::cancel_listing(&mut env, address(SELLER), 1),
        Err(KoraError::ListingAlreadyCancelled)
    );
    assert_eq!(listing(&env, 1), closed);
}

#[test]
fn set_up_once_with_the_same_partners() {
    let mut env = start(50);
    let before = MarketplaceContract::get_config(&mut env).unwrap();
    MarketplaceContract::set_fee_bps(&mut env, address(ADMIN), 10).unwrap();
    let other = address(30);
    assert_eq!(
        MarketplaceContract::initialize(&mut env, other, other, other, other, 0),
        Err(KoraError::AlreadyInitialized)
    );
    let after = MarketplaceContract::get_config(&mut env).unwrap();
    assert_eq!(after.fee_bps, 10);
    assert_eq!(after.admin, before.admin);
    assert_eq!(after.invoice_nft, before.invoice_nft);
    assert_eq!(after.financing_pool, before.financing_pool);
    assert_eq!(after.treasury, before.treasury);
}

#[test]
fn only_the_admin_manages() {
    let mut env = start(50);
    let stranger = address(30);
    env.actions.clear();
    assert_eq!(
        MarketplaceContract::set_fee_bps(&mut env, stranger, 0),
        Err(KoraError::NotAdmin)
    );
    assert_eq!(
        MarketplaceContract::whitelist_token(&mut env, stranger, address(31)),
        Err(KoraError::NotAdmin)
    );
    assert_eq!(
        MarketplaceContract::remove_token_whitelist(&mut env, stranger, address(TOKEN)),
        Err(KoraError::NotAdmin)
    );
    assert!(env.actions.is_empty());
    assert!(MarketplaceContract::is_token_whitelisted(&env, address(TOKEN)));
    assert!(!MarketplaceContract::is_token_whitelisted(&env, address(31)));
    assert_eq!(MarketplaceContract::get_fee_bps(&mut env), Ok(50));
}

#[test]
fn events_carry_the_time_of_their_ledger() {
    let mut env = start(50);
    offer(&mut env, 1, 1_000, 1_001).unwrap();
    env.actions.clear();
    env.timestamp = NOW + 42;
    fund(&mut env, 10, 1, 1_000).unwrap();
    let mut seen = 0;
    for action in &env.actions {
        if let Action::Publish(event) = action {
            assert_eq!(event.data().last(), Some(&Value::U64(NOW + 42)));
            seen += 1;
        }
    }
    assert_eq!(seen, 2);
    assert!(env.actions.iter().any(|a| matches!(a, Action::Publish(Event::FeeCollected { .. }))));
}
