use nitro_finality_gadget::error::{ContractError, StorageError};
use nitro_finality_gadget::results::{Attribute, Event, Response};

#[test]
fn a_new_event_has_no_attributes() {
    let event = Event::new("admin_reset");
    assert_eq!(event.ty, "admin_reset");
    assert_eq!(event.attributes, vec![]);
}

#[test]
fn attributes_are_kept_in_the_order_given() {
    let event = Event::new("transfer").add_attribute("to", "bob").add_attribute("amount", "12");
    assert_eq!(
        event,
        Event {
            ty: "transfer".to_string(),
            attributes: vec![
                Attribute { key: "to".to_string(), value: "bob".to_string() },
                Attribute { key: "amount".to_string(), value: "12".to_string() },
            ],
        }
    );
}

#[test]
fn an_attribute_may_repeat_a_key() {
    let event = Event::new("e").add_attribute("k", "1").add_attribute("k", "2");
    assert_eq!(event.attributes.len(), 2);
    assert_eq!(event.attributes[0].value, "1");
    assert_eq!(event.attributes[1].value, "2");
}

#[test]
fn the_default_response_carries_nothing() {
    assert_eq!(Response::default(), Response { events: vec![] });
}

#[test]
fn events_are_kept_in_the_order_given() {
    let res = Response::default().add_event(Event::new("first")).add_event(Event::new("second"));
    assert_eq!(res.events.len(), 2);
    assert_eq!(res.events[0], Event::new("first"));
    assert_eq!(res.events[1], Event::new("second"));
}

#[test]
fn a_storage_error_becomes_a_contract_error() {
    let e = StorageError { reason: "config not found".to_string() };
    assert_eq!(ContractError::from(e.clone()), ContractError::StorageError(e));
}

#[test]
fn a_copy_of_a_storage_error_keeps_the_reason() {
    let e = StorageError { reason: "type: bool; key: [69, 73]".to_string() };
    assert_eq!(e.clone().reason, "type: bool; key: [69, 73]");
}
