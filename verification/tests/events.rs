use kora_marketplace::address::Address;
use kora_marketplace::env::{Action, Env};
use kora_marketplace::events;
use kora_marketplace::events::{Event, Value};

const NOW: u64 = 1_700_000_000;

fn who() -> Address {
    Address { strkey: [b'G'; 56] }
}

fn published(emit: impl FnOnce(&mut Env)) -> (String, Vec<Value>) {
    let mut env = Env::new(Address { strkey: [b'C'; 56] }, NOW);
    emit(&mut env);
    assert_eq!(env.actions.len(), 1);
    match &env.actions[0] {
        Action::Publish(event) => (event.topic().to_string(), event.data()),
        other => panic!("{:?}", other),
    }
}

fn check(emit: impl FnOnce(&mut Env), topic: &str, mut data: Vec<Value>) {
    data.push(Value::U64(NOW));
    assert_eq!(published(emit), (topic.to_string(), data));
}

#[test]
fn invoice_events() {
    let id = Value::U64(7);
    check(
        |e| events::invoice_created(e, 7, &who(), 100),
        "INV_CRT",
        vec![id, Value::Address(who()), Value::I128(100)],
    );
    check(
        |e| events::invoice_listed(e, 7, &who(), 100),
        "INV_LST",
        vec![Value::U64(7), Value::Address(who()), Value::I128(100)],
    );
    check(
        |e| events::invoice_funded(e, 7, &who(), 100),
        "INV_FND",
        vec![Value::U64(7), Value::Address(who()), Value::I128(100)],
    );
    check(
        |e| events::repayment_made(e, 7, &who(), 100),
        "REPAY",
        vec![Value::U64(7), Value::Address(who()), Value::I128(100)],
    );
    check(
        |e| events::yield_distributed(e, 7, &who(), 100),
        "YIELD",
        vec![Value::U64(7), Value::Address(who()), Value::I128(100)],
    );
    check(
        |e| events::invoice_defaulted(e, 7, &who()),
        "DEFAULT",
        vec![Value::U64(7), Value::Address(who())],
    );
}

#[test]
fn status_change_carries_both_statuses() {
    check(
        |e| events::invoice_status_changed(e, 7, "Listed", "Funded"),
        "INV_STS",
        vec![
            Value::U64(7),
            Value::Text("Listed".to_string()),
            Value::Text("Funded".to_string()),
        ],
    );
}

#[test]
fn marketplace_events() {
    check(
        |e| events::listing_cancelled(e, 7, &who()),
        "LST_CXL",
        vec![Value::U64(7), Value::Address(who())],
    );
    check(
        |e| events::listing_expired(e, 7, &who()),
        "LST_EXP",
        vec![Value::U64(7), Value::Address(who())],
    );
    check(|e| events::token_whitelisted(e, &who()), "TKN_WLS", vec![Value::Address(who())]);
}

#[test]
fn fee_events() {
    check(
        |e| events::fee_collected(e, 7, 5, &who()),
        "FEE_COL",
        vec![Value::U64(7), Value::I128(5), Value::Address(who())],
    );
    check(
        |e| events::fee_rate_updated(e, &who(), 50, 75),
        "FEE_UPD",
        vec![Value::Address(who()), Value::U32(50), Value::U32(75)],
    );
}

#[test]
fn protocol_events() {
    check(|e| events::protocol_paused(e, &who()), "PAUSED", vec![Value::Address(who())]);
    check(|e| events::protocol_unpaused(e, &who()), "UNPAUSED", vec![Value::Address(who())]);
}

#[test]
fn topics_are_distinct_and_short() {
    let all = vec![
        Event::InvoiceDefaulted { invoice_id: 1, sme: who(), timestamp: 0 },
        Event::ListingCancelled { invoice_id: 1, seller: who(), timestamp: 0 },
        Event::ListingExpired { invoice_id: 1, seller: who(), timestamp: 0 },
        Event::TokenWhitelisted { token: who(), timestamp: 0 },
        Event::ProtocolPaused { by: who(), timestamp: 0 },
        Event::ProtocolUnpaused { by: who(), timestamp: 0 },
    ];
    for (i, a) in all.iter().enumerate() {
        assert!(a.topic().len() <= 9);
        for b in &all[i + 1..] {
            assert_ne!(a.topic(), b.topic());
        }
    }
}
