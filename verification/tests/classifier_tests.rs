use signalk::SignalKStreamMessage;
use signalk::SignalKUpdater;
use signalk::SignalKWSState;
use signalk::V1Num;
use signalk::V1Value;
use signalk::classify;

fn s(x: &str) -> V1Value {
    V1Value::Str(x.to_string())
}

fn num(x: f64) -> V1Value {
    V1Value::Num(V1Num::from_bits(x.to_bits()))
}

fn hello_payload(self_ctx: Option<&str>) -> V1Value {
    let mut fields = vec![
        ("name".to_string(), s("SK server")),
        ("version".to_string(), s("1.1.2")),
        (
            "roles".to_string(),
            V1Value::Array(vec![s("master"), s("main")]),
        ),
    ];
    if let Some(ctx) = self_ctx {
        fields.push(("self".to_string(), s(ctx)));
    }
    V1Value::Object(fields)
}

fn delta_payload(context: &str, path: &str, value: V1Value) -> V1Value {
    V1Value::Object(vec![
        ("context".to_string(), s(context)),
        (
            "updates".to_string(),
            V1Value::Array(vec![V1Value::Object(vec![
                ("$source".to_string(), s("S")),
                ("timestamp".to_string(), s("T")),
                (
                    "values".to_string(),
                    V1Value::Array(vec![V1Value::Object(vec![
                        ("path".to_string(), s(path)),
                        ("value".to_string(), value),
                    ])]),
                ),
            ])]),
        ),
    ])
}

#[test]
fn classify_recognizes_handshake() {
    match classify(hello_payload(Some("vessels.A"))) {
        SignalKStreamMessage::Hello(h) => {
            assert_eq!(h.version, "1.1.2".to_string());
            assert_eq!(h.name.as_deref(), Some("SK server"));
            assert_eq!(h.self_.as_deref(), Some("vessels.A"));
            assert_eq!(h.roles, vec!["master".to_string(), "main".to_string()]);
        },
        other => panic!("expected a handshake, got {:?}", other),
    }
}

#[test]
fn classify_recognizes_delta() {
    match classify(delta_payload("vessels.A", "navigation.speedOverGround", num(3.85))) {
        SignalKStreamMessage::Delta(d) => {
            assert_eq!(d.context.as_deref(), Some("vessels.A"));
            assert_eq!(d.updates.len(), 1);
            let group = &d.updates[0];
            assert_eq!(group.ref_source.as_deref(), Some("S"));
            assert_eq!(group.timestamp.as_deref(), Some("T"));
            assert_eq!(group.values.len(), 1);
            assert_eq!(group.values[0].path, "navigation.speedOverGround".to_string());
        },
        other => panic!("expected a delta, got {:?}", other),
    }
}

#[test]
fn classify_tolerates_unexpected_payload() {
    match classify(V1Value::Object(vec![("unexpected".to_string(), V1Value::Bool(true))])) {
        SignalKStreamMessage::Unrecognized(_) => {},
        other => panic!("expected an unrecognized payload, got {:?}", other),
    }
}

#[test]
fn unexpected_payload_leaves_tree_untouched() {
    let mut session = SignalKUpdater::default();
    let errs = session
        .handle_message(V1Value::Object(vec![("unexpected".to_string(), V1Value::Bool(true))]));
    assert!(errs.is_empty());
    assert_eq!(session.state, SignalKWSState::Disconnected);
    assert!(session.storage.get().vessels.is_none());
    assert_eq!(session.storage.get().self_, "".to_string());
}

#[test]
fn handshake_then_self_delta_resolves() {
    let mut session = SignalKUpdater::default();
    let errs = session.handle_message(hello_payload(Some("vessels.A")));
    assert!(errs.is_empty());
    assert_eq!(session.state, SignalKWSState::Connected);
    assert_eq!(session.storage.get().self_, "vessels.A".to_string());

    let errs = session.handle_message(delta_payload(
        "vessels.self",
        "navigation.speedOverGround",
        num(3.85),
    ));
    assert!(errs.is_empty());
    let tree = session.storage.get();
    assert!(tree.vessels.as_ref().unwrap().get("A").is_some());
}

#[test]
fn first_handshake_wins_on_self() {
    let mut session = SignalKUpdater::default();
    session.handle_message(hello_payload(Some("vessels.A")));
    session.handle_message(hello_payload(Some("vessels.B")));
    assert_eq!(session.storage.get().self_, "vessels.A".to_string());
}

#[test]
fn delta_before_handshake_still_merges() {
    let mut session = SignalKUpdater::default();
    let errs = session.handle_message(delta_payload(
        "vessels.A",
        "navigation.speedOverGround",
        num(1.0),
    ));
    assert!(errs.is_empty());
    assert_eq!(session.state, SignalKWSState::Disconnected);
    assert!(session.storage.get().vessels.as_ref().unwrap().get("A").is_some());
}

#[test]
fn data_model_delta_flows_through_session() {
    let mut session = SignalKUpdater::default();
    let payload = V1Value::Object(vec![
        ("context".to_string(), s("vessels.urn:mrn:imo:mmsi:234567890")),
        (
            "updates".to_string(),
            V1Value::Array(vec![
                V1Value::Object(vec![
                    ("timestamp".to_string(), s("2010-01-07T07:18:44Z")),
                    (
                        "values".to_string(),
                        V1Value::Array(vec![
                            V1Value::Object(vec![
                                ("path".to_string(), s("propulsion.0.revolutions")),
                                ("value".to_string(), num(16.341667)),
                            ]),
                            V1Value::Object(vec![
                                ("path".to_string(), s("propulsion.0.boostPressure")),
                                ("value".to_string(), num(45500.0)),
                            ]),
                        ]),
                    ),
                ]),
                V1Value::Object(vec![
                    ("timestamp".to_string(), s("2014-08-15T16:00:00.081Z")),
                    (
                        "values".to_string(),
                        V1Value::Array(vec![
                            V1Value::Object(vec![
                                ("path".to_string(), s("navigation.courseOverGroundTrue")),
                                ("value".to_string(), num(2.971)),
                            ]),
                            V1Value::Object(vec![
                                ("path".to_string(), s("navigation.speedOverGround")),
                                ("value".to_string(), num(3.85)),
                            ]),
                        ]),
                    ),
                ]),
                V1Value::Object(vec![
                    ("timestamp".to_string(), s("2014-08-15T19:02:31.507Z")),
                    (
                        "values".to_string(),
                        V1Value::Array(vec![V1Value::Object(vec![
                            ("path".to_string(), s("")),
                            (
                                "value".to_string(),
                                V1Value::Object(vec![("name".to_string(), s("WRANGO"))]),
                            ),
                        ])]),
                    ),
                ]),
            ]),
        ),
    ]);
    let errs = session.handle_message(payload);
    assert!(errs.is_empty());
    let tree = session.storage.get();
    let vessel = tree
        .vessels
        .as_ref()
        .unwrap()
        .get("urn:mrn:imo:mmsi:234567890")
        .unwrap();
    assert_eq!(vessel.name.as_deref(), Some("WRANGO"));
    let engine = vessel.propulsion.as_ref().unwrap().get("0").unwrap();
    assert_eq!(
        engine.revolutions.as_ref().unwrap().value,
        signalk::V1Num::from_bits(16.341667f64.to_bits())
    );
    assert_eq!(
        engine.boost_pressure.as_ref().unwrap().value,
        signalk::V1Num::from_bits(45500.0f64.to_bits())
    );
    let nav = vessel.navigation.as_ref().unwrap();
    assert_eq!(
        nav.speed_over_ground.as_ref().unwrap().timestamp,
        "2014-08-15T16:00:00.081Z".to_string()
    );
}

#[test]
fn delta_without_context_addresses_self() {
    let mut session = SignalKUpdater::default();
    session.handle_message(hello_payload(Some("vessels.A")));
    let payload = V1Value::Object(vec![(
        "updates".to_string(),
        V1Value::Array(vec![V1Value::Object(vec![(
            "values".to_string(),
            V1Value::Array(vec![V1Value::Object(vec![
                ("path".to_string(), s("navigation.log")),
                ("value".to_string(), num(99.0)),
            ])]),
        )])]),
    )]);
    let errs = session.handle_message(payload);
    assert!(errs.is_empty());
    let tree = session.storage.get();
    let vessel = tree.vessels.as_ref().unwrap().get("A").unwrap();
    // With no group provenance, the leaf carries empty source and timestamp.
    let log = vessel.navigation.as_ref().unwrap().log.as_ref().unwrap();
    assert_eq!(log.source, "".to_string());
    assert_eq!(log.timestamp, "".to_string());
}
