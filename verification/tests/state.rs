use social_tip_contract::coin::Coin;
use social_tip_contract::error::ContractError;
use social_tip_contract::helpers::create_response;
use social_tip_contract::msg::MessageInfo;
use social_tip_contract::response::{Attribute, Event, Payout, Response};
use social_tip_contract::state::{Escrow, EscrowLedger, Registry};

fn s(text: &str) -> String {
    text.to_string()
}

#[test]
fn registry_binds_first_come_first_served() {
    let mut registry = Registry::new();
    assert_eq!(registry.lookup(&s("alice")), None);
    assert!(!registry.has(&s("alice")));
    assert_eq!(registry.register(s("alice"), s("addr1")), Ok(()));
    assert_eq!(registry.register(s("bob"), s("addr2")), Ok(()));
    assert_eq!(registry.register(s("alice"), s("addr3")), Err(ContractError::AlreadyRegistered));
    assert_eq!(registry.register(s("alice"), s("addr1")), Err(ContractError::AlreadyRegistered));
    assert_eq!(registry.lookup(&s("alice")), Some(s("addr1")));
    assert_eq!(registry.lookup(&s("bob")), Some(s("addr2")));
    assert_eq!(registry.lookup(&s("carol")), None);
    assert!(registry.has(&s("bob")));
    assert!(!registry.has(&s("Bob")));
}

#[test]
fn escrow_ledger_holds_one_payment_per_identifier() {
    let mut ledger = EscrowLedger::new();
    assert_eq!(ledger.get(&s("bob")), None);
    ledger.put(s("bob"), s("alice"), Coin::new(10, "uxion"));
    ledger.put(s("carol"), s("alice"), Coin::new(20, "uxion"));
    ledger.put(s("dave"), s("erin"), Coin::new(30, "uxion"));
    assert_eq!(
        ledger.get(&s("bob")),
        Some(Escrow { sender: s("alice"), amount: Coin::new(10, "uxion") })
    );
    ledger.put(s("bob"), s("erin"), Coin::new(5, "uatom"));
    assert_eq!(
        ledger.get(&s("bob")),
        Some(Escrow { sender: s("erin"), amount: Coin::new(5, "uatom") })
    );
    assert_eq!(
        ledger.get(&s("carol")),
        Some(Escrow { sender: s("alice"), amount: Coin::new(20, "uxion") })
    );
    assert_eq!(
        ledger.get(&s("dave")),
        Some(Escrow { sender: s("erin"), amount: Coin::new(30, "uxion") })
    );
}

#[test]
fn escrow_ledger_gives_a_payment_out_once() {
    let mut ledger = EscrowLedger::new();
    ledger.put(s("bob"), s("alice"), Coin::new(10, "uxion"));
    ledger.put(s("carol"), s("alice"), Coin::new(20, "uxion"));
    ledger.put(s("dave"), s("alice"), Coin::new(30, "uxion"));
    assert_eq!(ledger.take(&s("erin")), None);
    assert_eq!(
        ledger.take(&s("bob")),
        Some(Escrow { sender: s("alice"), amount: Coin::new(10, "uxion") })
    );
    assert_eq!(ledger.take(&s("bob")), None);
    assert_eq!(ledger.get(&s("bob")), None);
    assert_eq!(
        ledger.get(&s("carol")),
        Some(Escrow { sender: s("alice"), amount: Coin::new(20, "uxion") })
    );
    assert_eq!(
        ledger.take(&s("dave")),
        Some(Escrow { sender: s("alice"), amount: Coin::new(30, "uxion") })
    );
    assert_eq!(
        ledger.take(&s("carol")),
        Some(Escrow { sender: s("alice"), amount: Coin::new(20, "uxion") })
    );
    assert_eq!(ledger.take(&s("carol")), None);
}

#[test]
fn response_starts_with_the_action() {
    let response = create_response("register", vec![("identifier", "abc"), ("address", "addr")]);
    assert_eq!(
        response,
        Response {
            messages: vec![],
            attributes: vec![
                Attribute { key: s("action"), value: s("register") },
                Attribute { key: s("identifier"), value: s("abc") },
                Attribute { key: s("address"), value: s("addr") },
            ],
            events: vec![],
        }
    );
    let bare = create_response("noop", vec![]);
    assert_eq!(bare.attributes, vec![Attribute { key: s("action"), value: s("noop") }]);
}

#[test]
fn response_builders_append() {
    let first = Payout { to_address: s("a"), amount: Coin::new(1, "uxion") };
    let second = Payout { to_address: s("b"), amount: Coin::new(2, "uxion") };
    let third = Payout { to_address: s("c"), amount: Coin::new(3, "uxion") };
    let event = Event::new("kind").add_attribute("k1", "v1").add_attribute("k2", "v2");
    assert_eq!(
        event,
        Event {
            ty: s("kind"),
            attributes: vec![
                Attribute { key: s("k1"), value: s("v1") },
                Attribute { key: s("k2"), value: s("v2") },
            ],
        }
    );
    let response = Response::new()
        .add_message(Payout { to_address: s("a"), amount: Coin::new(1, "uxion") })
        .add_attribute("k", "v")
        .add_messages(vec![second, third])
        .add_event(Event::new("kind"));
    assert_eq!(response.messages.len(), 3);
    assert_eq!(response.messages[0], first);
    assert_eq!(response.messages[1].to_address, "b");
    assert_eq!(response.messages[2].to_address, "c");
    assert_eq!(response.attributes, vec![Attribute::new("k", "v")]);
    assert_eq!(response.events, vec![Event { ty: s("kind"), attributes: vec![] }]);
}

#[test]
fn message_info_carries_sender_and_funds() {
    let info = MessageInfo::new("sender", vec![Coin::new(7, "uxion")]);
    assert_eq!(info.sender, "sender");
    assert_eq!(info.funds, vec![Coin { denom: s("uxion"), amount: 7 }]);
    assert_eq!(info.clone(), info);
}
