use mqtt_trigger::config::{
    resolve, ComponentBinding, ConfigError, RawComponent, RawField, RawManifest, RawValue,
    TriggerMetadata,
};

fn text(name: &str, value: &str) -> RawField {
    RawField { name: String::from(name), value: RawValue::Text(String::from(value)) }
}

fn number(name: &str, value: u64) -> RawField {
    RawField { name: String::from(name), value: RawValue::Number(value) }
}

fn other(name: &str) -> RawField {
    RawField { name: String::from(name), value: RawValue::Other }
}

fn trigger_mqtt() -> Vec<RawField> {
    vec![text("type", "mqtt"), text("address", "mqtt://localhost:1883"), number("qos", 1)]
}

fn component(id: &str, topic: &str, qos: u64) -> RawComponent {
    RawComponent {
        fields: vec![text("component", id), text("topic", topic), number("qos", qos)],
    }
}

#[test]
fn resolves_valid_manifest() {
    let manifest = RawManifest {
        trigger: trigger_mqtt(),
        components: vec![component("comp-a", "sensors/temp", 0)],
    };
    let (metadata, bindings) = resolve(&manifest).unwrap();
    assert_eq!(
        metadata,
        TriggerMetadata {
            broker_address: String::from("mqtt://localhost:1883"),
            default_qos: 1,
        }
    );
    assert_eq!(bindings.len(), 1);
    assert_eq!(
        bindings[0],
        ComponentBinding {
            component_id: String::from("comp-a"),
            topic: String::from("sensors/temp"),
            qos: 0,
        }
    );
}

#[test]
fn resolves_manifest_without_components() {
    let manifest = RawManifest { trigger: trigger_mqtt(), components: vec![] };
    let (metadata, bindings) = resolve(&manifest).unwrap();
    assert_eq!(metadata.default_qos, 1);
    assert!(bindings.is_empty());
}

#[test]
fn keeps_binding_order() {
    let manifest = RawManifest {
        trigger: trigger_mqtt(),
        components: vec![
            component("comp-a", "sensors/temp", 0),
            component("comp-b", "sensors/humidity", 2),
            component("comp-a", "alerts/temp", 1),
        ],
    };
    let (_, bindings) = resolve(&manifest).unwrap();
    let topics: Vec<String> = bindings.iter().map(|b| b.topic.clone()).collect();
    assert_eq!(
        topics,
        vec![
            String::from("sensors/temp"),
            String::from("sensors/humidity"),
            String::from("alerts/temp"),
        ]
    );
    assert_eq!(bindings[0].component_id, bindings[2].component_id);
}

#[test]
fn rejects_missing_address() {
    let manifest = RawManifest {
        trigger: vec![text("type", "mqtt"), number("qos", 1)],
        components: vec![component("comp-a", "sensors/temp", 0)],
    };
    let err = resolve(&manifest).unwrap_err();
    assert_eq!(err, ConfigError::MissingField(String::from("address")));
}

#[test]
fn rejects_missing_type() {
    let manifest = RawManifest {
        trigger: vec![text("address", "mqtt://localhost:1883"), number("qos", 1)],
        components: vec![],
    };
    let err = resolve(&manifest).unwrap_err();
    assert_eq!(err, ConfigError::MissingField(String::from("type")));
}

#[test]
fn rejects_missing_qos() {
    let manifest = RawManifest {
        trigger: vec![text("type", "mqtt"), text("address", "mqtt://localhost:1883")],
        components: vec![],
    };
    let err = resolve(&manifest).unwrap_err();
    assert_eq!(err, ConfigError::MissingField(String::from("qos")));
}

#[test]
fn rejects_unknown_field() {
    let mut trigger = trigger_mqtt();
    trigger.push(number("retain", 1));
    let manifest = RawManifest { trigger, components: vec![] };
    let err = resolve(&manifest).unwrap_err();
    assert_eq!(err, ConfigError::UnknownField(String::from("retain")));
}

#[test]
fn rejects_duplicate_field() {
    let mut trigger = trigger_mqtt();
    trigger.push(text("address", "mqtt://example:1883"));
    let manifest = RawManifest { trigger, components: vec![] };
    let err = resolve(&manifest).unwrap_err();
    assert_eq!(err, ConfigError::DuplicateField(String::from("address")));
}

#[test]
fn rejects_wrong_field_type() {
    let manifest = RawManifest {
        trigger: vec![text("type", "mqtt"), number("address", 1883), number("qos", 1)],
        components: vec![],
    };
    let err = resolve(&manifest).unwrap_err();
    assert_eq!(err, ConfigError::WrongFieldType(String::from("address")));
}

#[test]
fn rejects_other_value_kind() {
    let manifest = RawManifest {
        trigger: vec![text("type", "mqtt"), text("address", "a"), other("qos")],
        components: vec![],
    };
    let err = resolve(&manifest).unwrap_err();
    assert_eq!(err, ConfigError::WrongFieldType(String::from("qos")));
}

#[test]
fn rejects_empty_address() {
    let manifest = RawManifest {
        trigger: vec![text("type", "mqtt"), text("address", ""), number("qos", 1)],
        components: vec![],
    };
    let err = resolve(&manifest).unwrap_err();
    assert_eq!(err, ConfigError::InvalidFieldValue(String::from("address")));
}

#[test]
fn rejects_default_qos_out_of_range() {
    let manifest = RawManifest {
        trigger: vec![text("type", "mqtt"), text("address", "a"), number("qos", 3)],
        components: vec![],
    };
    let err = resolve(&manifest).unwrap_err();
    assert_eq!(err, ConfigError::InvalidFieldValue(String::from("qos")));
}

#[test]
fn rejects_component_missing_topic() {
    let manifest = RawManifest {
        trigger: trigger_mqtt(),
        components: vec![RawComponent {
            fields: vec![text("component", "comp-a"), number("qos", 0)],
        }],
    };
    let err = resolve(&manifest).unwrap_err();
    assert_eq!(err, ConfigError::MissingField(String::from("topic")));
}

#[test]
fn rejects_component_empty_topic() {
    let manifest = RawManifest {
        trigger: trigger_mqtt(),
        components: vec![component("comp-a", "", 0)],
    };
    let err = resolve(&manifest).unwrap_err();
    assert_eq!(err, ConfigError::InvalidFieldValue(String::from("topic")));
}

#[test]
fn rejects_component_qos_out_of_range() {
    let manifest = RawManifest {
        trigger: trigger_mqtt(),
        components: vec![component("comp-a", "sensors/temp", 7)],
    };
    let err = resolve(&manifest).unwrap_err();
    assert_eq!(err, ConfigError::InvalidFieldValue(String::from("qos")));
}

#[test]
fn reports_earliest_invalid_component() {
    let manifest = RawManifest {
        trigger: trigger_mqtt(),
        components: vec![
            component("comp-a", "sensors/temp", 0),
            component("comp-b", "", 1),
            component("comp-c", "sensors/humidity", 9),
        ],
    };
    let err = resolve(&manifest).unwrap_err();
    assert_eq!(err, ConfigError::InvalidFieldValue(String::from("topic")));
}

#[test]
fn trigger_errors_come_before_component_errors() {
    let manifest = RawManifest {
        trigger: vec![text("type", "mqtt"), number("qos", 1)],
        components: vec![component("comp-a", "", 9)],
    };
    let err = resolve(&manifest).unwrap_err();
    assert_eq!(err, ConfigError::MissingField(String::from("address")));
}
