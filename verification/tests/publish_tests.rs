use mqtt_trigger::config::{RawComponent, RawField, RawManifest, RawValue, resolve};
use mqtt_trigger::dispatch::{Dispatcher, ListenerAction, ListenerEvent, ListenerStatus, Message};
use mqtt_trigger::publish::{
    make_publish_request, settle_publish, BrokerResponse, PublishError, PublishRequest,
};
use mqtt_trigger::config::TriggerMetadata;

fn metadata(default_qos: u8) -> TriggerMetadata {
    TriggerMetadata { broker_address: String::from("mqtt://localhost:1883"), default_qos }
}

#[test]
fn forwards_exact_pair_to_broker() {
    let request = make_publish_request(String::from("sensors/ack"), b"ok".to_vec(), &metadata(1));
    assert_eq!(
        request,
        PublishRequest { topic: String::from("sensors/ack"), payload: b"ok".to_vec(), qos: 1 }
    );
}

#[test]
fn uses_configured_default_qos() {
    let request = make_publish_request(String::from("t"), Vec::new(), &metadata(2));
    assert_eq!(request.qos, 2);
}

#[test]
fn module_observes_success_only_on_acceptance() {
    assert_eq!(settle_publish(BrokerResponse::Accepted), Ok(()));
    assert_eq!(
        settle_publish(BrokerResponse::Rejected(String::from("quota"))),
        Err(PublishError::Rejected(String::from("quota")))
    );
    assert_eq!(
        settle_publish(BrokerResponse::Unreachable(String::from("timed out"))),
        Err(PublishError::Connection(String::from("timed out")))
    );
}

fn text(name: &str, value: &str) -> RawField {
    RawField { name: String::from(name), value: RawValue::Text(String::from(value)) }
}

fn number(name: &str, value: u64) -> RawField {
    RawField { name: String::from(name), value: RawValue::Number(value) }
}

#[test]
fn full_scenario_single_binding() {
    // Manifest: broker mqtt://localhost:1883, default qos 1, one binding
    // {component: comp-a, topic: sensors/temp, qos: 0}.
    let manifest = RawManifest {
        trigger: vec![
            text("type", "mqtt"),
            text("address", "mqtt://localhost:1883"),
            number("qos", 1),
        ],
        components: vec![RawComponent {
            fields: vec![
                text("component", "comp-a"),
                text("topic", "sensors/temp"),
                number("qos", 0),
            ],
        }],
    };
    let (metadata, bindings) = resolve(&manifest).unwrap();
    assert_eq!(metadata.broker_address, "mqtt://localhost:1883");
    assert_eq!(metadata.default_qos, 1);

    // The dispatcher starts one listener, for sensors/temp.
    let mut dispatcher = Dispatcher::start(metadata, bindings);
    assert_eq!(dispatcher.listeners.len(), 1);
    let subscribe = dispatcher.step_listener(0, ListenerEvent::Start);
    assert_eq!(
        subscribe,
        ListenerAction::Subscribe { topic: String::from("sensors/temp"), qos: 0 }
    );

    // A message with payload b"23.5C" arrives: comp-a is invoked with
    // exactly that payload.
    let inbound = Message {
        topic: String::from("sensors/temp"),
        payload: b"23.5C".to_vec(),
        qos: 0,
    };
    let action = dispatcher.step_listener(0, ListenerEvent::MessageArrived(inbound));
    assert_eq!(
        action,
        ListenerAction::Invoke {
            component_id: String::from("comp-a"),
            payload: b"23.5C".to_vec(),
        }
    );
    assert_eq!(dispatcher.listeners[0].status, ListenerStatus::Invoking);

    // The handler publishes ("alerts/temp", b"HIGH"): the broker receives
    // exactly that pair.
    let outbound = make_publish_request(
        String::from("alerts/temp"),
        b"HIGH".to_vec(),
        &dispatcher.metadata,
    );
    assert_eq!(outbound.topic, "alerts/temp");
    assert_eq!(outbound.payload, b"HIGH".to_vec());
    assert_eq!(outbound.qos, 1);
    assert_eq!(settle_publish(BrokerResponse::Accepted), Ok(()));
}
