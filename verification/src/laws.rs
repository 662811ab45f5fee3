//! What holds of the marketplace as a whole.

use crate::address::Address;
use crate::env::{Action, EnvView, StorageView};
use crate::errors::KoraError;
use crate::events;
use crate::events::Event;
use crate::history;
use crate::history::{Call, Request};
use crate::model;
use crate::model::Offer;
use crate::types::{Listing, MarketplaceConfig};
use crate::validation;
use vstd::prelude::*;

verus! {

// ── Actions and storage ───────────────────────────────────────────────────────

proof fn lemma_replay_concat(s: StorageView, first: Seq<Action>, then: Seq<Action>)
    ensures
        s.replay(first + then) == s.replay(first).replay(then),
    decreases then.len(),
{
    if then.len() == 0 {
        assert(first + then =~= first);
    } else {
        lemma_replay_concat(s, first, then.drop_last());
        assert((first + then).drop_last() =~= first + then.drop_last());
    }
}

proof fn lemma_replay_few(s: StorageView, actions: Seq<Action>)
    ensures
        actions.len() == 0 ==> s.replay(actions) == s,
        actions.len() == 1 ==> s.replay(actions) == s.after(actions[0]),
        actions.len() == 2 ==> s.replay(actions) == s.after(actions[0]).after(actions[1]),
        actions.len() == 3 ==> s.replay(actions) == s.after(actions[0]).after(actions[1]).after(
            actions[2],
        ),
        actions.len() == 5 ==> s.replay(actions) == s.after(actions[0]).after(actions[1]).after(
            actions[2],
        ).after(actions[3]).after(actions[4]),
{
    reveal_with_fuel(StorageView::replay, 6);
}

proof fn lemma_replay_migration(s: StorageView)
    ensures
        s.replay(model::migration(s)) == model::migrated(s),
{
    lemma_replay_few(s, model::migration(s));
}

/// What is stored after an accepted request is what its actions, carried out in
/// order, make of what was stored before.
pub proof fn law_actions_account_for_storage(env: EnvView, request: Request)
    requires
        history::refusal(env, request) is None,
    ensures
        env.storage.replay(history::actions(env, request)) == history::stored(
            env.storage,
            request,
        ),
{
    let s = env.storage;
    let m = model::migrated(s);
    let all = history::actions(env, request);
    lemma_replay_migration(s);
    match request {
        Request::Initialize(_) => {
            lemma_replay_few(s, all);
        },
        Request::ReadConfig => {},
        Request::ListInvoice(_) => {
            let locked = s.after(Action::Lock);
            let rest = all.skip(1 + model::migration(s).len() as int);
            lemma_replay_few(s, seq![Action::Lock]);
            lemma_replay_concat(s, seq![Action::Lock], model::migration(s));
            lemma_replay_migration(locked);
            lemma_replay_concat(s, seq![Action::Lock] + model::migration(s), rest);
            assert(all =~= seq![Action::Lock] + model::migration(s) + rest);
            lemma_replay_few(model::migrated(locked), rest);
            assert(s.replay(all) =~= history::stored(s, request));
        },
        Request::FundInvoice { investor, invoice_id, amount } => {
            lemma_replay_fund(env, investor, invoice_id, amount);
        },
        _ => {
            let rest = all.skip(model::migration(s).len() as int);
            assert(all =~= model::migration(s) + rest);
            lemma_replay_concat(s, model::migration(s), rest);
            lemma_replay_few(m, rest);
            assert(s.replay(all) =~= history::stored(s, request));
        },
    }
}

proof fn lemma_replay_fund(env: EnvView, investor: Address, invoice_id: u64, amount: i128)
    ensures
        env.storage.replay(model::fund_actions(env, investor, invoice_id, amount))
            == model::fund_stored(env.storage, invoice_id, amount),
{
    let s = env.storage;
    let m = model::migrated(s);
    let config = model::config_of(s)->0;
    let listing = s.listings[invoice_id];
    let to_treasury = model::payment(
        listing.token,
        investor,
        config.treasury,
        model::fee_on(amount, config),
    );
    let to_pool = model::payment(
        listing.token,
        investor,
        config.financing_pool,
        model::net_of(amount, config),
    );
    let before = model::migration(s);
    let record = model::fund_record(env, investor, invoice_id, amount);
    let notice = model::fee_notice(env, invoice_id, model::fee_on(amount, config));
    let release = model::release(env, config, invoice_id, model::funded(listing, amount));
    let stored = model::fund_stored(s, invoice_id, amount);
    lemma_replay_migration(s);
    lemma_replay_concat(s, before, to_treasury);
    lemma_replay_few(m, to_treasury);
    lemma_replay_concat(s, before + to_treasury, to_pool);
    lemma_replay_few(m, to_pool);
    lemma_replay_concat(s, before + to_treasury + to_pool, record);
    lemma_replay_few(m, record);
    assert(m.replay(record) =~= stored);
    lemma_replay_concat(s, before + to_treasury + to_pool + record, notice);
    lemma_replay_few(stored, notice);
    lemma_replay_concat(s, before + to_treasury + to_pool + record + notice, release);
    lemma_replay_few(stored, release);
}

// ── What every call keeps ─────────────────────────────────────────────────────

/// A call keeps what is stored sound.
pub proof fn law_call_keeps_sound(s: StorageView, call: Call)
    requires
        model::sound(s),
    ensures
        model::sound(history::step(s, call)),
{
    let t = history::step(s, call);
    assert forall|id: u64| #[trigger] t.listings.contains_key(id) implies t.listings[id].invoice_id
        == id && t.listings[id].sound() by {
        assert(s.listings.contains_key(id) ==> s.listings[id].sound());
    }
}

/// From sound storage, no sequence of calls leads to storage that is not sound:
/// no listing is ever funded beyond its asking price, none that has reached it is
/// open, and the fee rate never exceeds the whole.
pub proof fn law_always_sound(s: StorageView, calls: Seq<Call>)
    requires
        model::sound(s),
    ensures
        model::sound(history::run(s, calls)),
    decreases calls.len(),
{
    if calls.len() > 0 {
        law_always_sound(s, calls.drop_last());
        law_call_keeps_sound(history::run(s, calls.drop_last()), calls.last());
    }
}

/// A marketplace that starts with nothing stored is sound for good.
pub proof fn law_sound_from_nothing(calls: Seq<Call>)
    ensures
        model::sound(history::run(StorageView::nothing(), calls)),
{
    law_always_sound(StorageView::nothing(), calls);
}

/// `after` is what has become of the listing `before`: the same terms, no less
/// funding, and if `before` was closed, no change at all.
pub open spec fn developed(before: Listing, after: Listing) -> bool {
    &&& after.invoice_id == before.invoice_id
    &&& after.seller == before.seller
    &&& after.asking_price == before.asking_price
    &&& after.face_value == before.face_value
    &&& after.token == before.token
    &&& after.funding_deadline == before.funding_deadline
    &&& before.funded_amount <= after.funded_amount
    &&& !before.is_active ==> after == before
}

/// A listing is for good: whatever is requested later, it is there, its terms
/// stand, its funding never shrinks, and once closed it never changes.
pub proof fn law_listing_is_for_good(s: StorageView, calls: Seq<Call>, id: u64)
    requires
        s.listings.contains_key(id),
    ensures
        history::run(s, calls).listings.contains_key(id),
        developed(s.listings[id], history::run(s, calls).listings[id]),
    decreases calls.len(),
{
    if calls.len() > 0 {
        law_listing_is_for_good(s, calls.drop_last(), id);
    }
}

/// The funding of a listing is what it was, and all accepted contributions since.
pub proof fn law_contributions_add_up(s: StorageView, calls: Seq<Call>, id: u64)
    requires
        s.listings.contains_key(id),
    ensures
        history::run(s, calls).listings[id].funded_amount == s.listings[id].funded_amount
            + history::contributions(s, calls, id),
    decreases calls.len(),
{
    if calls.len() > 0 {
        law_contributions_add_up(s, calls.drop_last(), id);
        law_listing_is_for_good(s, calls.drop_last(), id);
    }
}

/// A call concerns no listing but that of the invoice it names.
pub proof fn law_other_listings_untouched(s: StorageView, call: Call, id: u64)
    requires
        match call.request {
            Request::ListInvoice(offer) => offer.invoice_id != id,
            Request::FundInvoice { invoice_id, .. } => invoice_id != id,
            Request::CancelListing { invoice_id, .. } => invoice_id != id,
            _ => true,
        },
    ensures
        history::step(s, call).listings.contains_key(id) == s.listings.contains_key(id),
        history::step(s, call).listings[id] == s.listings[id],
{
}

/// Once a listing is closed, every contribution to it, every attempt to cancel it
/// and every attempt to list its invoice again is refused, whatever is requested in
/// between. The closure is the reason given, except for an attempt to list, and for
/// a contribution that is not positive or comes during a pause.
pub proof fn law_closed_stays_closed(s: StorageView, calls: Seq<Call>, call: Call, id: u64)
    requires
        s.listings.contains_key(id),
        !s.listings[id].is_active,
    ensures
        ({
            let why = history::refusal(call.on(history::run(s, calls)), call.request);
            match call.request {
                Request::FundInvoice { invoice_id, amount, .. } => invoice_id == id ==> {
                    &&& why is Some
                    &&& !call.paused && amount > 0 ==> why == Some(
                        KoraError::ListingAlreadyCancelled,
                    )
                },
                Request::CancelListing { invoice_id, .. } => invoice_id == id ==> why == Some(
                    KoraError::ListingAlreadyCancelled,
                ),
                Request::ListInvoice(offer) => offer.invoice_id == id ==> why is Some,
                _ => true,
            }
        }),
{
    law_listing_is_for_good(s, calls, id);
}

/// Once set up, the marketplace stays set up, with the same administrator and the
/// same partners; any further attempt to set it up is refused as such.
pub proof fn law_initialized_once(
    s: StorageView,
    calls: Seq<Call>,
    config: MarketplaceConfig,
    fee_bps: u32,
)
    requires
        s.config == Some(config),
    ensures
        ({
            let later = history::run(s, calls);
            &&& later.config matches Some(c) && c == model::with_fee(config, c.fee_bps)
            &&& model::initialize_refusal(later, fee_bps) == Some(KoraError::AlreadyInitialized)
        }),
    decreases calls.len(),
{
    if calls.len() > 0 {
        law_initialized_once(s, calls.drop_last(), config, fee_bps);
    }
}

// ── Reading back ──────────────────────────────────────────────────────────────

/// The configuration read after setting up is the one that was given.
pub proof fn law_initialize_reads_back(s: StorageView, config: MarketplaceConfig)
    ensures
        model::config_of(model::initialize_stored(s, config)) == Some(config),
{
}

/// The configuration read after changing the fee rate has the new rate, and is
/// otherwise what it was.
pub proof fn law_fee_reads_back(s: StorageView, admin: Address, fee_bps: u32)
    requires
        model::set_fee_refusal(s, admin, fee_bps) is None,
    ensures
        model::config_of(model::set_fee_stored(s, fee_bps)) == Some(
            model::with_fee(model::config_of(s)->0, fee_bps),
        ),
{
}

/// Making the configuration a single entry does not change the configuration in
/// force, and needs to be done only once.
pub proof fn law_migration_keeps_config(s: StorageView)
    ensures
        model::config_of(model::migrated(s)) == model::config_of(s),
        model::migrated(model::migrated(s)) == model::migrated(s),
        model::migration(model::migrated(s)) == Seq::<Action>::empty(),
{
}

/// No accepted request other than setting up or changing the fee rate changes the
/// configuration in force.
pub proof fn law_config_otherwise_kept(s: StorageView, call: Call)
    requires
        !(call.request is Initialize),
        !(call.request is SetFeeBps),
    ensures
        model::config_of(history::step(s, call)) == model::config_of(s),
{
}

/// A listed invoice reads back as it was offered, open and with nothing
/// contributed.
pub proof fn law_listing_reads_back(s: StorageView, offer: Offer)
    ensures
        model::list_stored(s, offer).listings.contains_key(offer.invoice_id),
        model::list_stored(s, offer).listings[offer.invoice_id] == model::fresh_listing(offer),
{
}

/// A token that was whitelisted is on the whitelist, one that was taken off is
/// not, and neither concerns any other token.
pub proof fn law_whitelist_reads_back(s: StorageView, token: Address, other: Address)
    ensures
        model::is_whitelisted(model::whitelist_stored(s, token), token),
        !model::is_whitelisted(model::remove_stored(s, token), token),
        other != token ==> {
            &&& model::is_whitelisted(model::whitelist_stored(s, token), other)
                == model::is_whitelisted(s, other)
            &&& model::is_whitelisted(model::remove_stored(s, token), other)
                == model::is_whitelisted(s, other)
        },
{
}

/// Taking a token off the whitelist undoes putting it on.
pub proof fn law_removal_undoes_whitelisting(s: StorageView, admin: Address, token: Address)
    requires
        model::admin_refusal(s, admin) is None,
        !s.whitelist.contains_key(token),
    ensures
        ({
            let listed = model::whitelist_stored(s, token);
            &&& model::remove_refusal(listed, admin, token) is None
            &&& model::remove_stored(listed, token) == model::migrated(s)
        }),
{
    let listed = model::whitelist_stored(s, token);
    assert(model::remove_stored(listed, token) =~= model::migrated(s));
}

// ── Who may do what ───────────────────────────────────────────────────────────

/// Only the administrator changes the whitelist, and only with their
/// authorization.
pub proof fn law_only_admin_changes_whitelist(s: StorageView, call: Call)
    requires
        call.signed(),
        history::step(s, call).whitelist != s.whitelist,
    ensures
        model::config_of(s) matches Some(config) && history::signer(call.request) == Some(
            config.admin,
        ) && call.auths.contains(config.admin),
{
}

/// Once the marketplace is set up, only the administrator changes the
/// configuration, with their authorization, and only its fee rate.
pub proof fn law_only_admin_changes_config(s: StorageView, call: Call, config: MarketplaceConfig)
    requires
        call.signed(),
        s.config == Some(config),
        history::step(s, call).config != s.config,
    ensures
        history::signer(call.request) == Some(config.admin),
        call.auths.contains(config.admin),
        history::step(s, call).config matches Some(c) && c == model::with_fee(config, c.fee_bps)
            && c.fee_bps <= 10_000,
{
}

/// A listing closes only by being funded in full, or by the hand of its seller or
/// the administrator, with their authorization.
pub proof fn law_who_closes(s: StorageView, call: Call, id: u64)
    requires
        call.signed(),
        s.listings.contains_key(id),
        s.listings[id].is_active,
        !history::step(s, call).listings[id].is_active,
    ensures
        ({
            let before = s.listings[id];
            let after = history::step(s, call).listings[id];
            ||| after.funded_amount == after.asking_price
            ||| call.request is CancelListing && call.auths.contains(before.seller)
            ||| call.request is CancelListing && (model::config_of(s) matches Some(config)
                && call.auths.contains(config.admin))
        }),
{
}

/// The seller of an open listing may always cancel it, and so may the
/// administrator, paused or not.
pub proof fn law_seller_and_admin_may_cancel(
    env: EnvView,
    caller: Address,
    id: u64,
    config: MarketplaceConfig,
)
    requires
        model::config_of(env.storage) == Some(config),
        env.storage.listings.contains_key(id),
        env.storage.listings[id].is_active,
        caller == env.storage.listings[id].seller || caller == config.admin,
    ensures
        history::refusal(env, Request::CancelListing { caller, invoice_id: id }) is None,
{
}

/// A pause stops new listings and new contributions, and nothing else.
pub proof fn law_pause(env: EnvView, request: Request)
    ensures
        ({
            let paused = EnvView { paused: true, ..env };
            let running = EnvView { paused: false, ..env };
            if request is ListInvoice || request is FundInvoice {
                history::refusal(paused, request) == Some(KoraError::ProtocolPaused)
            } else {
                &&& history::refusal(paused, request) == history::refusal(running, request)
                &&& history::actions(paused, request) == history::actions(running, request)
            }
        }),
{
}

// ── Money ─────────────────────────────────────────────────────────────────────

/// A share of at most the whole is between nothing and the amount, and is the
/// exact share rounded down.
pub proof fn law_share_is_rounded_down(amount: int, bps: int)
    requires
        0 <= amount,
        0 <= bps <= 10_000,
    ensures
        0 <= validation::bps_share(amount, bps) <= amount,
        10_000 * validation::bps_share(amount, bps) <= amount * bps,
        amount * bps < 10_000 * (validation::bps_share(amount, bps) + 1),
{
    assert(0 <= amount * bps <= amount * 10_000) by (nonlinear_arith)
        requires
            0 <= amount,
            0 <= bps <= 10_000,
    ;
}

/// Where a contribution goes: the fee to the treasury and the rest to the
/// financing pool, nothing lost and nothing added. The investor pays the amount
/// exactly, in the token of the listing, and nobody else pays anything.
pub proof fn law_contribution_is_split(
    env: EnvView,
    investor: Address,
    invoice_id: u64,
    amount: i128,
    config: MarketplaceConfig,
)
    requires
        model::fund_refusal(env, invoice_id, amount) is None,
        model::config_of(env.storage) == Some(config),
        config.fee_bps <= 10_000,
    ensures
        ({
            let done = model::fund_actions(env, investor, invoice_id, amount);
            let token = env.storage.listings[invoice_id].token;
            let fee = model::fee_on(amount, config);
            let net = model::net_of(amount, config);
            &&& 0 <= fee <= amount
            &&& fee + net == amount
            &&& history::drawn(done, token, investor) == amount
            &&& config.treasury != config.financing_pool ==> {
                &&& history::brought(done, token, config.treasury) == fee
                &&& history::brought(done, token, config.financing_pool) == net
            }
            &&& config.treasury == config.financing_pool ==> history::brought(
                done,
                token,
                config.treasury,
            ) == amount
            &&& forall|i: int| 0 <= i < done.len() ==> ((#[trigger] done[i]) matches Action::Transfer {
                token: t,
                from,
                amount: a,
                ..
            } ==> t == token && from == investor && a > 0)
        }),
{
    law_share_is_rounded_down(amount as int, config.fee_bps as int);
    let s = env.storage;
    let listing = s.listings[invoice_id];
    let token = listing.token;
    let to_treasury = model::payment(
        token,
        investor,
        config.treasury,
        model::fee_on(amount, config),
    );
    let to_pool = model::payment(
        token,
        investor,
        config.financing_pool,
        model::net_of(amount, config),
    );
    let before = model::migration(s);
    let all = model::fund_actions(env, investor, invoice_id, amount);
    let rest = model::fund_record(env, investor, invoice_id, amount) + model::fee_notice(
        env,
        invoice_id,
        model::fee_on(amount, config),
    ) + model::release(env, config, invoice_id, model::funded(listing, amount));
    assert(all =~= before + to_treasury + to_pool + rest);
    lemma_no_transfer(before, token, investor, config.treasury);
    lemma_no_transfer(before, token, investor, config.financing_pool);
    lemma_no_transfer(rest, token, investor, config.treasury);
    lemma_no_transfer(rest, token, investor, config.financing_pool);
    lemma_payment(token, investor, config.treasury, model::fee_on(amount, config), config.treasury);
    lemma_payment(
        token,
        investor,
        config.treasury,
        model::fee_on(amount, config),
        config.financing_pool,
    );
    lemma_payment(
        token,
        investor,
        config.financing_pool,
        model::net_of(amount, config),
        config.treasury,
    );
    lemma_payment(
        token,
        investor,
        config.financing_pool,
        model::net_of(amount, config),
        config.financing_pool,
    );
    lemma_flows_concat(before, to_treasury, token, investor, config.treasury);
    lemma_flows_concat(before, to_treasury, token, investor, config.financing_pool);
    lemma_flows_concat(before + to_treasury, to_pool, token, investor, config.treasury);
    lemma_flows_concat(before + to_treasury, to_pool, token, investor, config.financing_pool);
    lemma_flows_concat(before + to_treasury + to_pool, rest, token, investor, config.treasury);
    lemma_flows_concat(
        before + to_treasury + to_pool,
        rest,
        token,
        investor,
        config.financing_pool,
    );
    assert forall|i: int| 0 <= i < all.len() implies ((#[trigger] all[i]) matches Action::Transfer {
        token: t,
        from,
        amount: a,
        ..
    } ==> t == token && from == investor && a > 0) by {
        lemma_fund_action(env, investor, invoice_id, amount, i);
    }
}

/// The shape of each action of a contribution.
proof fn lemma_fund_action(env: EnvView, investor: Address, invoice_id: u64, amount: i128, i: int)
    requires
        model::fund_refusal(env, invoice_id, amount) is None,
        0 <= i < model::fund_actions(env, investor, invoice_id, amount).len(),
    ensures
        ({
            let done = model::fund_actions(env, investor, invoice_id, amount);
            let config = model::config_of(env.storage)->0;
            let listing = env.storage.listings[invoice_id];
            match done[i] {
                Action::StoreConfig(_) => true,
                Action::StoreListing(..) => true,
                Action::ExtendTtl { .. } => true,
                Action::Transfer { token, from, amount: paid, .. } => token == listing.token && from
                    == investor && paid > 0,
                Action::Publish(event) => time_of(event) == env.timestamp,
                Action::ReleaseFunds { financing_pool, caller, invoice_id: id, token } => {
                    &&& financing_pool == config.financing_pool
                    &&& caller == env.contract
                    &&& id == invoice_id
                    &&& token == listing.token
                    &&& !model::funded(listing, amount).is_active
                },
                _ => false,
            }
        }),
{
    let config = model::config_of(env.storage)->0;
    let listing = env.storage.listings[invoice_id];
    let fee = model::fee_on(amount, config);
    assert(amount * config.fee_bps >= 0) by (nonlinear_arith)
        requires
            amount > 0,
            config.fee_bps >= 0,
    ;
    let a = model::migration(env.storage);
    let b = a + model::payment(listing.token, investor, config.treasury, fee);
    let c = b + model::payment(
        listing.token,
        investor,
        config.financing_pool,
        model::net_of(amount, config),
    );
    let d = c + model::fund_record(env, investor, invoice_id, amount);
    let e = d + model::fee_notice(env, invoice_id, fee);
    let done = model::fund_actions(env, investor, invoice_id, amount);
    if i < a.len() {
        assert(done[i] == a[i]);
    } else if i < b.len() {
        assert(done[i] == b[i]);
    } else if i < c.len() {
        assert(done[i] == c[i]);
    } else if i < d.len() {
        assert(done[i] == d[i]);
    } else if i < e.len() {
        assert(done[i] == e[i]);
    }
}

/// The shape of each action of a request other than a contribution.
proof fn lemma_other_action(env: EnvView, request: Request, i: int)
    requires
        history::refusal(env, request) is None,
        !(request is FundInvoice),
        0 <= i < history::actions(env, request).len(),
    ensures
        match history::actions(env, request)[i] {
            Action::Transfer { .. } => false,
            Action::ReleaseFunds { .. } => false,
            Action::Publish(event) => time_of(event) == env.timestamp,
            Action::SetListed { invoice_nft, caller, invoice_id } => {
                &&& caller == env.contract
                &&& invoice_nft == (model::config_of(env.storage)->0).invoice_nft
                &&& request matches Request::ListInvoice(offer) && offer.invoice_id == invoice_id
            },
            _ => true,
        },
{
    let a = model::migration(env.storage);
    let all = history::actions(env, request);
    match request {
        Request::ListInvoice(_) => {
            if i == 0 {
                assert(all[i] == Action::Lock);
            } else if i < a.len() + 1 {
                assert(all[i] == a[i - 1]);
            }
        },
        _ => {
            if i < a.len() && !(request is Initialize) {
                assert(all[i] == a[i]);
            }
        },
    }
}

proof fn lemma_no_transfer(actions: Seq<Action>, token: Address, from: Address, to: Address)
    requires
        forall|i: int| 0 <= i < actions.len() ==> !((#[trigger] actions[i]) is Transfer),
    ensures
        history::drawn(actions, token, from) == 0,
        history::brought(actions, token, to) == 0,
    decreases actions.len(),
{
    if actions.len() > 0 {
        lemma_no_transfer(actions.drop_last(), token, from, to);
    }
}

proof fn lemma_payment(token: Address, from: Address, to: Address, amount: int, whom: Address)
    requires
        0 <= amount <= i128::MAX,
    ensures
        history::drawn(model::payment(token, from, to, amount), token, from) == amount,
        history::brought(model::payment(token, from, to, amount), token, whom) == (if whom == to {
            amount
        } else {
            0
        }),
{
    reveal_with_fuel(history::drawn, 2);
    reveal_with_fuel(history::brought, 2);
}

proof fn lemma_flows_concat(
    first: Seq<Action>,
    then: Seq<Action>,
    token: Address,
    from: Address,
    to: Address,
)
    ensures
        history::drawn(first + then, token, from) == history::drawn(first, token, from)
            + history::drawn(then, token, from),
        history::brought(first + then, token, to) == history::brought(first, token, to)
            + history::brought(then, token, to),
    decreases then.len(),
{
    if then.len() == 0 {
        assert(first + then =~= first);
    } else {
        lemma_flows_concat(first, then.drop_last(), token, from, to);
        assert((first + then).drop_last() =~= first + then.drop_last());
    }
}

/// Only a contribution moves money, and only its signer's.
pub proof fn law_only_signer_pays(env: EnvView, request: Request, i: int)
    requires
        history::refusal(env, request) is None,
        0 <= i < history::actions(env, request).len(),
        history::actions(env, request)[i] is Transfer,
    ensures
        request is FundInvoice,
        history::actions(env, request)[i] matches Action::Transfer { from, .. } && Some(from)
            == history::signer(request),
{
    match request {
        Request::FundInvoice { investor, invoice_id, amount } => {
            lemma_fund_action(env, investor, invoice_id, amount, i);
        },
        _ => {
            lemma_other_action(env, request, i);
        },
    }
}

/// The marketplace calls other contracts in its own name only: the invoice
/// contract when it lists an invoice, the financing pool when a listing is funded
/// in full.
pub proof fn law_calls_in_own_name(env: EnvView, request: Request, i: int)
    requires
        history::refusal(env, request) is None,
        0 <= i < history::actions(env, request).len(),
    ensures
        match history::actions(env, request)[i] {
            Action::SetListed { invoice_nft, caller, invoice_id } => {
                &&& caller == env.contract
                &&& model::config_of(env.storage) matches Some(config) && config.invoice_nft
                    == invoice_nft
                &&& request matches Request::ListInvoice(offer) && offer.invoice_id == invoice_id
            },
            Action::ReleaseFunds { financing_pool, caller, invoice_id, token } => {
                &&& caller == env.contract
                &&& model::config_of(env.storage) matches Some(config) && config.financing_pool
                    == financing_pool
                &&& token == env.storage.listings[invoice_id].token
                &&& request matches Request::FundInvoice { invoice_id: id, .. } && id == invoice_id
            },
            _ => true,
        },
{
    match request {
        Request::FundInvoice { investor, invoice_id, amount } => {
            lemma_fund_action(env, investor, invoice_id, amount, i);
        },
        _ => {
            lemma_other_action(env, request, i);
        },
    }
}

/// A contribution closes the listing, and has the pool release the funds, exactly
/// when it brings the funding to the asking price.
pub proof fn law_released_when_fully_funded(
    env: EnvView,
    investor: Address,
    invoice_id: u64,
    amount: i128,
)
    requires
        model::fund_refusal(env, invoice_id, amount) is None,
    ensures
        ({
            let before = env.storage.listings[invoice_id];
            let after = model::fund_stored(env.storage, invoice_id, amount).listings[invoice_id];
            let done = model::fund_actions(env, investor, invoice_id, amount);
            let full = before.funded_amount + amount == before.asking_price;
            &&& after.funded_amount == before.funded_amount + amount
            &&& after.is_active <==> !full
            &&& (exists|i: int| 0 <= i < done.len() && (#[trigger] done[i]) is ReleaseFunds)
                <==> full
            &&& full ==> done.last() is ReleaseFunds
        }),
{
    let done = model::fund_actions(env, investor, invoice_id, amount);
    let before = env.storage.listings[invoice_id];
    let config = model::config_of(env.storage)->0;
    let release = model::release(env, config, invoice_id, model::funded(before, amount));
    if before.funded_amount + amount == before.asking_price {
        assert(done[done.len() - 1] == release[0]);
    }
    assert forall|i: int| 0 <= i < done.len() && (#[trigger] done[i]) is ReleaseFunds implies
        before.funded_amount + amount == before.asking_price by {
        lemma_fund_action(env, investor, invoice_id, amount, i);
    }
}

/// Two contributions leave the listing the same whichever comes first.
pub proof fn law_order_of_contributions(listing: Listing, first: i128, second: i128)
    requires
        listing.sound(),
        0 < first,
        0 < second,
        first + second <= listing.asking_price - listing.funded_amount,
    ensures
        model::funded(model::funded(listing, first), second) == model::funded(
            model::funded(listing, second),
            first,
        ),
{
}

/// While the protocol runs, any part of what an open listing still needs may be
/// contributed until its deadline, up to the amount whose fee can still be
/// computed.
pub proof fn law_open_listing_can_be_funded(
    env: EnvView,
    invoice_id: u64,
    amount: i128,
    config: MarketplaceConfig,
)
    requires
        model::sound(env.storage),
        model::config_of(env.storage) == Some(config),
        !env.paused,
        env.storage.listings.contains_key(invoice_id),
        env.storage.listings[invoice_id].is_active,
        env.timestamp <= env.storage.listings[invoice_id].funding_deadline,
        0 < amount <= env.storage.listings[invoice_id].asking_price
            - env.storage.listings[invoice_id].funded_amount,
        amount <= i128::MAX / 10_000,
    ensures
        model::fund_refusal(env, invoice_id, amount) is None,
{
    assert(env.storage.listings[invoice_id].sound());
    assert(0 <= amount * config.fee_bps <= amount * 10_000) by (nonlinear_arith)
        requires
            0 < amount,
            0 <= config.fee_bps <= 10_000,
    ;
}

/// After its deadline a listing takes no contribution, however long one waits and
/// whatever is requested in between.
pub proof fn law_no_funding_after_deadline(
    s: StorageView,
    calls: Seq<Call>,
    call: Call,
    invoice_id: u64,
)
    requires
        s.listings.contains_key(invoice_id),
        call.timestamp > s.listings[invoice_id].funding_deadline,
        call.request matches Request::FundInvoice { invoice_id: id, .. } && id == invoice_id,
    ensures
        !call.accepted(history::run(s, calls)),
{
    law_listing_is_for_good(s, calls, invoice_id);
}

// ── Events ────────────────────────────────────────────────────────────────────

/// The time that an event carries.
pub open spec fn time_of(event: Event) -> u64 {
    match event {
        Event::InvoiceCreated { timestamp, .. } => timestamp,
        Event::InvoiceListed { timestamp, .. } => timestamp,
        Event::InvoiceFunded { timestamp, .. } => timestamp,
        Event::InvoiceStatusChanged { timestamp, .. } => timestamp,
        Event::RepaymentMade { timestamp, .. } => timestamp,
        Event::YieldDistributed { timestamp, .. } => timestamp,
        Event::InvoiceDefaulted { timestamp, .. } => timestamp,
        Event::ListingCancelled { timestamp, .. } => timestamp,
        Event::ListingExpired { timestamp, .. } => timestamp,
        Event::TokenWhitelisted { timestamp, .. } => timestamp,
        Event::FeeCollected { timestamp, .. } => timestamp,
        Event::FeeRateUpdated { timestamp, .. } => timestamp,
        Event::ProtocolPaused { timestamp, .. } => timestamp,
        Event::ProtocolUnpaused { timestamp, .. } => timestamp,
    }
}

/// Every event that an accepted request publishes carries the time of its ledger.
pub proof fn law_events_carry_ledger_time(env: EnvView, request: Request, i: int)
    requires
        history::refusal(env, request) is None,
        0 <= i < history::actions(env, request).len(),
    ensures
        history::actions(env, request)[i] matches Action::Publish(event) ==> time_of(event)
            == env.timestamp,
{
    match request {
        Request::FundInvoice { investor, invoice_id, amount } => {
            lemma_fund_action(env, investor, invoice_id, amount, i);
        },
        _ => {
            lemma_other_action(env, request, i);
        },
    }
}

/// Whatever an event carries ends with its time.
pub proof fn law_time_comes_last(event: Event, data: Seq<events::Value>)
    requires
        events::carries(event, data),
    ensures
        data.len() >= 2,
        data.last() == events::Value::U64(time_of(event)),
{
}

/// The events are of one kind.
pub open spec fn same_kind(a: Event, b: Event) -> bool {
    match a {
        Event::InvoiceCreated { .. } => b is InvoiceCreated,
        Event::InvoiceListed { .. } => b is InvoiceListed,
        Event::InvoiceFunded { .. } => b is InvoiceFunded,
        Event::InvoiceStatusChanged { .. } => b is InvoiceStatusChanged,
        Event::RepaymentMade { .. } => b is RepaymentMade,
        Event::YieldDistributed { .. } => b is YieldDistributed,
        Event::InvoiceDefaulted { .. } => b is InvoiceDefaulted,
        Event::ListingCancelled { .. } => b is ListingCancelled,
        Event::ListingExpired { .. } => b is ListingExpired,
        Event::TokenWhitelisted { .. } => b is TokenWhitelisted,
        Event::FeeCollected { .. } => b is FeeCollected,
        Event::FeeRateUpdated { .. } => b is FeeRateUpdated,
        Event::ProtocolPaused { .. } => b is ProtocolPaused,
        Event::ProtocolUnpaused { .. } => b is ProtocolUnpaused,
    }
}

/// The name of an event tells its kind, and is short enough for a short symbol.
pub proof fn law_topic_tells_kind(a: Event, b: Event)
    ensures
        events::topic_of(a) == events::topic_of(b) <==> same_kind(a, b),
        0 < events::topic_of(a).len() <= 9,
{
    reveal_strlit("INV_CRT");
    reveal_strlit("INV_LST");
    reveal_strlit("INV_FND");
    reveal_strlit("INV_STS");
    reveal_strlit("REPAY");
    reveal_strlit("YIELD");
    reveal_strlit("DEFAULT");
    reveal_strlit("LST_CXL");
    reveal_strlit("LST_EXP");
    reveal_strlit("TKN_WLS");
    reveal_strlit("FEE_COL");
    reveal_strlit("FEE_UPD");
    reveal_strlit("PAUSED");
    reveal_strlit("UNPAUSED");
    let s = events::topic_of(a);
    let t = events::topic_of(b);
    assert(same_kind(a, b) || s.len() != t.len() || s[0] != t[0] || s[4] != t[4] || s[5] != t[5]
        || s[6] != t[6]);
}

} // verus!
