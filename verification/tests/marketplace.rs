use kora_marketplace::address::Address;
use kora_marketplace::env::Env;
use kora_marketplace::errors::KoraError;
use kora_marketplace::marketplace::MarketplaceContract;

struct TestEnv {
    env: Env,
    admin: Address,
    token: Address,
    seller: Address,
    treasury: Address,
    pool: Address,
}

fn address(n: u8) -> Address {
    let mut strkey = [b'A'; 56];
    strkey[0] = b'C';
    strkey[54] = b'A' + n / 26;
    strkey[55] = b'A' + n % 26;
    Address { strkey }
}

fn signed(env: &mut Env, who: Address) -> Address {
    env.authorize(who);
    who
}

fn deploy() -> TestEnv {
    let mut env = Env::new(address(0), 1_700_000_000);
    let admin = address(1);
    let treasury = address(2);
    let nft = address(3);
    let pool = address(4);
    MarketplaceContract::initialize(&mut env, admin, nft, pool, treasury, 50u32).unwrap();

    let token = address(5);
    let signer = signed(&mut env, admin);
    MarketplaceContract::whitelist_token(&mut env, signer, token).unwrap();

    let seller = address(6);
    TestEnv { env, admin, token, seller, treasury, pool }
}

fn list(
    t: &mut TestEnv,
    asking_price: i128,
    face_value: i128,
    token: Address,
    deadline: u64,
) -> Result<(), KoraError> {
    let seller = signed(&mut t.env, t.seller);
    MarketplaceContract::list_invoice(
        &mut t.env,
        seller,
        1u64,
        asking_price,
        face_value,
        token,
        deadline,
    )
}

fn list_one(t: &mut TestEnv) -> u64 {
    let deadline = t.env.timestamp + 86_400 * 30;
    let token = t.token;
    list(t, 9_500_000_000i128, 10_000_000_000i128, token, deadline).unwrap();
    1u64
}

fn fund(t: &mut TestEnv, investor: Address, id: u64, amount: i128) -> Result<(), KoraError> {
    let investor = signed(&mut t.env, investor);
    MarketplaceContract::fund_invoice(&mut t.env, investor, id, amount)
}

fn cancel(t: &mut TestEnv, caller: Address, id: u64) -> Result<(), KoraError> {
    let caller = signed(&mut t.env, caller);
    MarketplaceContract::cancel_listing(&mut t.env, caller, id)
}

// ── initialize ────────────────────────────────────────────────────────────────

#[test]
fn test_initialize_already_initialized_returns_error() {
    let mut t = deploy();
    let result = MarketplaceContract::initialize(
        &mut t.env,
        t.admin,
        address(10),
        address(11),
        address(12),
        50u32,
    );
    assert_eq!(result.unwrap_err(), KoraError::AlreadyInitialized);
}

#[test]
fn test_initialize_invalid_fee_bps_rejected() {
    let mut env = Env::new(address(0), 0);
    let result = MarketplaceContract::initialize(
        &mut env,
        address(10),
        address(11),
        address(12),
        address(13),
        10_001u32,
    );
    assert!(result.is_err());
}

#[test]
fn test_get_config_returns_initialized_values() {
    let mut t = deploy();
    let config = MarketplaceContract::get_config(&mut t.env).unwrap();
    assert_eq!(config.admin, t.admin);
    assert_eq!(config.financing_pool, t.pool);
    assert_eq!(config.treasury, t.treasury);
    assert_eq!(config.fee_bps, 50u32);
}

// ── whitelist_token ───────────────────────────────────────────────────────────

#[test]
fn test_whitelist_token_success() {
    let mut t = deploy();
    let new_token = address(10);
    let admin = signed(&mut t.env, t.admin);
    assert!(MarketplaceContract::whitelist_token(&mut t.env, admin, new_token).is_ok());
}

#[test]
fn test_whitelist_token_non_admin_returns_not_admin() {
    let mut t = deploy();
    let stranger = signed(&mut t.env, address(10));
    let new_token = address(11);
    let result = MarketplaceContract::whitelist_token(&mut t.env, stranger, new_token);
    assert_eq!(result.unwrap_err(), KoraError::NotAdmin);
}

// ── list_invoice ──────────────────────────────────────────────────────────────

#[test]
fn test_list_invoice_success() {
    let mut t = deploy();
    let id = list_one(&mut t);
    let listing = MarketplaceContract::get_listing(&t.env, id).unwrap();
    assert_eq!(listing.invoice_id, 1);
    assert_eq!(listing.seller, t.seller);
    assert_eq!(listing.asking_price, 9_500_000_000i128);
    assert_eq!(listing.face_value, 10_000_000_000i128);
    assert!(listing.is_active);
    assert_eq!(listing.funded_amount, 0);
}

#[test]
fn test_list_invoice_non_whitelisted_token_returns_error() {
    let mut t = deploy();
    let bad_token = address(10);
    let deadline = t.env.timestamp + 86_400;
    let result = list(&mut t, 9_000i128, 10_000i128, bad_token, deadline);
    assert_eq!(result.unwrap_err(), KoraError::TokenNotWhitelisted);
}

#[test]
fn test_list_invoice_zero_asking_price_rejected() {
    let mut t = deploy();
    let deadline = t.env.timestamp + 86_400;
    let token = t.token;
    let result = list(&mut t, 0i128, 10_000i128, token, deadline);
    assert_eq!(result.unwrap_err(), KoraError::InvalidAmount);
}

#[test]
fn test_list_invoice_zero_face_value_rejected() {
    let mut t = deploy();
    let deadline = t.env.timestamp + 86_400;
    let token = t.token;
    let result = list(&mut t, 9_000i128, 0i128, token, deadline);
    assert_eq!(result.unwrap_err(), KoraError::InvalidAmount);
}

#[test]
fn test_list_invoice_asking_price_equal_face_value_rejected() {
    let mut t = deploy();
    let deadline = t.env.timestamp + 86_400;
    let token = t.token;
    let result = list(&mut t, 10_000i128, 10_000i128, token, deadline);
    assert_eq!(result.unwrap_err(), KoraError::InvalidAmount);
}

#[test]
fn test_list_invoice_past_deadline_rejected() {
    let mut t = deploy();
    let past = t.env.timestamp - 1;
    let token = t.token;
    let result = list(&mut t, 9_000i128, 10_000i128, token, past);
    assert_eq!(result.unwrap_err(), KoraError::InvalidDueDate);
}

#[test]
fn test_list_invoice_duplicate_id_rejected() {
    let mut t = deploy();
    list_one(&mut t);
    let deadline = t.env.timestamp + 86_400;
    let token = t.token;
    let result = list(&mut t, 9_000i128, 10_000i128, token, deadline);
    assert_eq!(result.unwrap_err(), KoraError::InvoiceAlreadyExists);
}

// ── get_listing ───────────────────────────────────────────────────────────────

#[test]
fn test_get_listing_not_found_returns_error() {
    let t = deploy();
    let result = MarketplaceContract::get_listing(&t.env, 999u64);
    assert_eq!(result.unwrap_err(), KoraError::ListingNotFound);
}

// ── fund_invoice ──────────────────────────────────────────────────────────────

#[test]
fn test_fund_invoice_listing_not_found() {
    let mut t = deploy();
    let result = fund(&mut t, address(10), 999u64, 1_000i128);
    assert_eq!(result.unwrap_err(), KoraError::ListingNotFound);
}

#[test]
fn test_fund_invoice_zero_amount_rejected() {
    let mut t = deploy();
    list_one(&mut t);
    let result = fund(&mut t, address(10), 1u64, 0i128);
    assert_eq!(result.unwrap_err(), KoraError::InvalidAmount);
}

#[test]
fn test_fund_invoice_exceeds_target_rejected() {
    let mut t = deploy();
    list_one(&mut t);
    let result = fund(&mut t, address(10), 1u64, 9_500_000_001i128);
    assert_eq!(result.unwrap_err(), KoraError::ExceedsFundingTarget);
}

#[test]
fn test_fund_invoice_after_deadline_rejected() {
    let mut t = deploy();
    let deadline = t.env.timestamp + 100;
    let token = t.token;
    list(&mut t, 9_500_000_000i128, 10_000_000_000i128, token, deadline).unwrap();
    t.env.timestamp = deadline + 1;
    let result = fund(&mut t, address(10), 1u64, 1_000_000i128);
    assert_eq!(result.unwrap_err(), KoraError::FundingDeadlinePassed);
}

#[test]
fn test_fund_invoice_on_cancelled_listing_rejected() {
    let mut t = deploy();
    list_one(&mut t);
    let seller = t.seller;
    cancel(&mut t, seller, 1u64).unwrap();
    let result = fund(&mut t, address(10), 1u64, 1_000_000i128);
    assert_eq!(result.unwrap_err(), KoraError::ListingAlreadyCancelled);
}

#[test]
fn test_fund_invoice_partial_updates_funded_amount() {
    let mut t = deploy();
    list_one(&mut t);
    fund(&mut t, address(10), 1u64, 1_000_000_000i128).unwrap();
    let listing = MarketplaceContract::get_listing(&t.env, 1u64).unwrap();
    assert_eq!(listing.funded_amount, 1_000_000_000i128);
    assert!(listing.is_active);
}

#[test]
fn test_fund_invoice_multiple_partial_fundings() {
    let mut t = deploy();
    list_one(&mut t);
    fund(&mut t, address(10), 1u64, 4_000_000_000i128).unwrap();
    fund(&mut t, address(11), 1u64, 4_000_000_000i128).unwrap();
    let listing = MarketplaceContract::get_listing(&t.env, 1u64).unwrap();
    assert_eq!(listing.funded_amount, 8_000_000_000i128);
    assert!(listing.is_active);
}

#[test]
fn test_fund_invoice_fully_funded_deactivates_listing() {
    let mut t = deploy();
    list_one(&mut t);
    fund(&mut t, address(10), 1u64, 9_500_000_000i128).unwrap();
    let listing = MarketplaceContract::get_listing(&t.env, 1u64).unwrap();
    assert!(!listing.is_active);
    assert_eq!(listing.funded_amount, 9_500_000_000i128);
}

// ── cancel_listing ────────────────────────────────────────────────────────────

#[test]
fn test_cancel_listing_by_seller_success() {
    let mut t = deploy();
    list_one(&mut t);
    let seller = t.seller;
    assert!(cancel(&mut t, seller, 1u64).is_ok());
    let listing = MarketplaceContract::get_listing(&t.env, 1u64).unwrap();
    assert!(!listing.is_active);
}

#[test]
fn test_cancel_listing_by_admin_success() {
    let mut t = deploy();
    list_one(&mut t);
    let admin = t.admin;
    assert!(cancel(&mut t, admin, 1u64).is_ok());
    let listing = MarketplaceContract::get_listing(&t.env, 1u64).unwrap();
    assert!(!listing.is_active);
}

#[test]
fn test_cancel_listing_by_stranger_rejected() {
    let mut t = deploy();
    list_one(&mut t);
    let result = cancel(&mut t, address(10), 1u64);
    assert_eq!(result.unwrap_err(), KoraError::Unauthorized);
}

#[test]
fn test_cancel_listing_not_found_returns_error() {
    let mut t = deploy();
    let seller = t.seller;
    let result = cancel(&mut t, seller, 999u64);
    assert_eq!(result.unwrap_err(), KoraError::ListingNotFound);
}

#[test]
fn test_cancel_listing_already_cancelled_returns_error() {
    let mut t = deploy();
    list_one(&mut t);
    let seller = t.seller;
    cancel(&mut t, seller, 1u64).unwrap();
    let result = cancel(&mut t, seller, 1u64);
    assert_eq!(result.unwrap_err(), KoraError::ListingAlreadyCancelled);
}

#[test]
fn test_fund_after_cancel_rejected() {
    let mut t = deploy();
    list_one(&mut t);
    let admin = t.admin;
    cancel(&mut t, admin, 1u64).unwrap();
    let result = fund(&mut t, address(10), 1u64, 1_000_000i128);
    assert_eq!(result.unwrap_err(), KoraError::ListingAlreadyCancelled);
}
