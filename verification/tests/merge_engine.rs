use signalk::Storage;
use signalk::V1DeltaFormat;
use signalk::V1MergeError;
use signalk::V1Num;
use signalk::V1UpdateType;
use signalk::V1UpdateValue;
use signalk::V1Value;
use signalk::V1Vessel;

fn num(x: f64) -> V1Value {
    V1Value::Num(V1Num::from_bits(x.to_bits()))
}

fn s(x: &str) -> V1Value {
    V1Value::Str(x.to_string())
}

fn bits(x: f64) -> V1Num {
    V1Num::from_bits(x.to_bits())
}

fn vessel<'a>(storage: &'a Storage, id: &str) -> &'a V1Vessel {
    storage
        .get()
        .vessels
        .as_ref()
        .expect("no vessels in tree")
        .get(id)
        .expect("vessel missing")
}

fn leaf_delta(context: &str, path: &str, value: V1Value, source: &str, ts: &str) -> V1DeltaFormat {
    V1DeltaFormat::builder()
        .context(context.into())
        .add(
            V1UpdateType::builder()
                .ref_source(source.into())
                .timestamp(ts.into())
                .add(V1UpdateValue::new(path.into(), value))
                .build(),
        )
        .build()
}

#[test]
fn leaf_overwrite_keeps_latest() {
    let mut storage = Storage::default();
    let errs = storage.update(leaf_delta(
        "vessels.A",
        "navigation.speedOverGround",
        num(5.6),
        "S",
        "T1",
    ));
    assert!(errs.is_empty());
    let errs = storage.update(leaf_delta(
        "vessels.A",
        "navigation.speedOverGround",
        num(6.1),
        "S",
        "T2",
    ));
    assert!(errs.is_empty());
    let v = vessel(&storage, "A");
    let sog = v
        .navigation
        .as_ref()
        .unwrap()
        .speed_over_ground
        .as_ref()
        .unwrap();
    assert_eq!(sog.value, bits(6.1));
    assert_eq!(sog.timestamp, "T2".to_string());
    assert_eq!(sog.source, "S".to_string());
}

#[test]
fn lazy_creation_touches_only_addressed_subtree() {
    let mut storage = Storage::default();
    let errs = storage.update(leaf_delta(
        "vessels.B",
        "navigation.headingTrue",
        num(1.5),
        "S",
        "T",
    ));
    assert!(errs.is_empty());
    assert_eq!(storage.get().vessels.as_ref().unwrap().len(), 1);
    let v = vessel(&storage, "B");
    assert!(v.navigation.is_some());
    assert!(v.propulsion.is_none());
    assert!(v.environment.is_none());
    assert!(v.electrical.is_none());
    assert!(v.notifications.is_none());
    assert!(v.mmsi.is_none());
    assert!(v.name.is_none());
}

#[test]
fn whole_entity_merge_keeps_other_fields() {
    let mut storage = Storage::default();
    let errs = storage.update(leaf_delta("vessels.A", "mmsi", s("234567890"), "S", "T"));
    assert!(errs.is_empty());
    let update = V1Value::Object(vec![("name".to_string(), s("WRANGO"))]);
    let errs = storage.update(leaf_delta("vessels.A", "", update, "S", "T2"));
    assert!(errs.is_empty());
    let v = vessel(&storage, "A");
    assert_eq!(v.name.as_ref().unwrap(), "WRANGO");
    assert_eq!(v.mmsi.as_ref().unwrap(), "234567890");
}

#[test]
fn position_subfields_accumulate_within_batch() {
    let mut storage = Storage::default();
    let delta = V1DeltaFormat::builder()
        .context("vessels.A".into())
        .add(
            V1UpdateType::builder()
                .ref_source("gps".into())
                .timestamp("T".into())
                .add(V1UpdateValue::new("navigation.position.latitude".into(), num(-41.156426)))
                .add(V1UpdateValue::new("navigation.position.longitude".into(), num(173.1693)))
                .add(V1UpdateValue::new("navigation.position.altitude".into(), num(0.0)))
                .build(),
        )
        .build();
    let errs = storage.update(delta);
    assert!(errs.is_empty());
    let v = vessel(&storage, "A");
    let pos = v.navigation.as_ref().unwrap().position.as_ref().unwrap();
    assert_eq!(pos.value.latitude, bits(-41.156426));
    assert_eq!(pos.value.longitude, bits(173.1693));
    assert_eq!(pos.value.altitude, Some(bits(0.0)));
    assert_eq!(pos.timestamp, "T".to_string());
    assert_eq!(pos.source, "gps".to_string());
}

#[test]
fn position_replaced_across_batches() {
    let mut storage = Storage::default();
    let errs = storage.update(leaf_delta(
        "vessels.A",
        "navigation.position.latitude",
        num(1.0),
        "S",
        "T1",
    ));
    assert!(errs.is_empty());
    let errs = storage.update(leaf_delta(
        "vessels.A",
        "navigation.position.longitude",
        num(2.0),
        "S",
        "T2",
    ));
    assert!(errs.is_empty());
    let v = vessel(&storage, "A");
    let pos = v.navigation.as_ref().unwrap().position.as_ref().unwrap();
    // The second batch starts a fresh leaf: the latitude of the first batch
    // does not survive.
    assert_eq!(pos.value.latitude, bits(0.0));
    assert_eq!(pos.value.longitude, bits(2.0));
}

#[test]
fn self_resolution_after_handshake() {
    let mut storage = Storage::default();
    storage.set_self("vessels.A");
    let errs = storage.update(leaf_delta(
        "vessels.self",
        "navigation.speedOverGround",
        num(3.0),
        "S",
        "T",
    ));
    assert!(errs.is_empty());
    let v = vessel(&storage, "A");
    assert!(v.navigation.as_ref().unwrap().speed_over_ground.is_some());
}

#[test]
fn self_resolution_without_designation_is_unknown_context() {
    let mut storage = Storage::default();
    let errs = storage.update(leaf_delta(
        "vessels.self",
        "navigation.speedOverGround",
        num(3.0),
        "S",
        "T",
    ));
    assert_eq!(errs, vec![V1MergeError::UnknownContext]);
    assert!(storage.get().vessels.is_none());
}

#[test]
fn non_vessel_context_is_unknown_context() {
    let mut storage = Storage::default();
    let errs = storage.update(leaf_delta("atons.A", "navigation.log", num(1.0), "S", "T"));
    assert_eq!(errs, vec![V1MergeError::UnknownContext]);
    assert!(storage.get().vessels.is_none());
}

#[test]
fn partial_batch_applies_resolvable_record() {
    let mut storage = Storage::default();
    let delta = V1DeltaFormat::builder()
        .context("vessels.A".into())
        .add(
            V1UpdateType::builder()
                .ref_source("S".into())
                .timestamp("T".into())
                .add(V1UpdateValue::new("navigation.speedOverGround".into(), num(3.85)))
                .add(V1UpdateValue::new("bogus.middle.leaf".into(), num(1.0)))
                .build(),
        )
        .build();
    let errs = storage.update(delta);
    assert_eq!(errs, vec![V1MergeError::UnknownSegment]);
    let v = vessel(&storage, "A");
    assert_eq!(
        v.navigation
            .as_ref()
            .unwrap()
            .speed_over_ground
            .as_ref()
            .unwrap()
            .value,
        bits(3.85)
    );
}

#[test]
fn type_mismatch_drops_record() {
    let mut storage = Storage::default();
    let errs = storage.update(leaf_delta(
        "vessels.A",
        "navigation.speedOverGround",
        s("fast"),
        "S",
        "T",
    ));
    assert_eq!(errs, vec![V1MergeError::TypeMismatch]);
    let v = vessel(&storage, "A");
    assert!(v.navigation.is_none());
}

#[test]
fn unknown_trailing_segment_lands_in_extras() {
    let mut storage = Storage::default();
    let errs = storage.update(leaf_delta(
        "vessels.A",
        "navigation.futureField",
        num(7.0),
        "S",
        "T",
    ));
    assert!(errs.is_empty());
    let v = vessel(&storage, "A");
    assert!(v.navigation.is_none());
    match v.extras.get("navigation.futureField") {
        Some(V1Value::Num(n)) => assert_eq!(*n, bits(7.0)),
        other => panic!("unexpected extras entry: {:?}", other),
    }
}

#[test]
fn context_path_prefix_is_prepended() {
    let mut storage = Storage::default();
    let errs = storage.update(leaf_delta(
        "vessels.366982330.navigation",
        "courseOverGroundTrue",
        num(245.69),
        "S",
        "T",
    ));
    assert!(errs.is_empty());
    let v = vessel(&storage, "366982330");
    assert_eq!(
        v.navigation
            .as_ref()
            .unwrap()
            .course_over_ground_true
            .as_ref()
            .unwrap()
            .value,
        bits(245.69)
    );
}

#[test]
fn propulsion_leaf_creates_engine_block() {
    let mut storage = Storage::default();
    let errs = storage.update(leaf_delta(
        "vessels.urn:mrn:imo:mmsi:234567890",
        "propulsion.0.revolutions",
        num(16.341667),
        "S",
        "2010-01-07T07:18:44Z",
    ));
    assert!(errs.is_empty());
    let v = vessel(&storage, "urn:mrn:imo:mmsi:234567890");
    let engine = v.propulsion.as_ref().unwrap().get("0").unwrap();
    assert_eq!(engine.label, "0".to_string());
    assert_eq!(engine.revolutions.as_ref().unwrap().value, bits(16.341667));
    assert_eq!(
        engine.revolutions.as_ref().unwrap().timestamp,
        "2010-01-07T07:18:44Z".to_string()
    );
}

#[test]
fn propulsion_state_parses_wire_words() {
    let mut storage = Storage::default();
    let errs = storage.update(leaf_delta(
        "vessels.A",
        "propulsion.port.state",
        s("started"),
        "S",
        "T",
    ));
    assert!(errs.is_empty());
    let v = vessel(&storage, "A");
    let engine = v.propulsion.as_ref().unwrap().get("port").unwrap();
    assert_eq!(engine.state, Some(signalk::V1PropulsionState::Started));
    let errs = storage.update(leaf_delta(
        "vessels.A",
        "propulsion.port.state",
        s("sideways"),
        "S",
        "T",
    ));
    assert_eq!(errs, vec![V1MergeError::TypeMismatch]);
}

#[test]
fn environment_group_leaves_merge() {
    let mut storage = Storage::default();
    let errs = storage.update(leaf_delta(
        "vessels.A",
        "environment.depth.belowKeel",
        num(4.2),
        "sounder",
        "T",
    ));
    assert!(errs.is_empty());
    let errs = storage.update(leaf_delta("vessels.A", "environment.heave", num(0.3), "S", "T"));
    assert!(errs.is_empty());
    let v = vessel(&storage, "A");
    let env = v.environment.as_ref().unwrap();
    assert_eq!(
        env.depth.as_ref().unwrap().below_keel.as_ref().unwrap().value,
        bits(4.2)
    );
    assert_eq!(env.heave.as_ref().unwrap().value, bits(0.3));
}

#[test]
fn electrical_battery_leaves_merge() {
    let mut storage = Storage::default();
    let errs = storage.update(leaf_delta(
        "vessels.A",
        "electrical.batteries.house.voltage",
        num(12.6),
        "bms",
        "T",
    ));
    assert!(errs.is_empty());
    let errs = storage.update(leaf_delta(
        "vessels.A",
        "electrical.batteries.house.chemistry",
        s("LiFePO4"),
        "bms",
        "T",
    ));
    assert!(errs.is_empty());
    let v = vessel(&storage, "A");
    let battery = v.electrical.as_ref().unwrap().batteries.as_ref().unwrap().get("house").unwrap();
    assert_eq!(battery.chemistry.as_ref().unwrap(), "LiFePO4");
    let volts = battery
        .dc_qualities
        .as_ref()
        .unwrap()
        .voltage
        .as_ref()
        .unwrap()
        .value
        .as_ref()
        .unwrap();
    assert_eq!(volts.value, bits(12.6));
}

#[test]
fn notification_value_lands_in_category() {
    let mut storage = Storage::default();
    let payload = V1Value::Object(vec![
        ("state".to_string(), s("alarm")),
        ("message".to_string(), s("Engine room fire!")),
        (
            "method".to_string(),
            V1Value::Array(vec![s("visual"), s("sound")]),
        ),
    ]);
    let errs = storage.update(leaf_delta(
        "vessels.A",
        "notifications.fire.engineRoom",
        payload,
        "S",
        "T",
    ));
    assert!(errs.is_empty());
    let v = vessel(&storage, "A");
    let root = v.notifications.as_ref().unwrap();
    let fire = &root
        .childs
        .iter()
        .find(|(k, _)| k == "fire")
        .expect("fire category missing")
        .1;
    let engine_room = &fire
        .childs
        .iter()
        .find(|(k, _)| k == "engineRoom")
        .expect("engineRoom category missing")
        .1;
    let value = engine_room.value.as_ref().unwrap();
    assert_eq!(value.state, "alarm".to_string());
    assert_eq!(value.message, "Engine room fire!".to_string());
    assert_eq!(value.method, vec!["visual".to_string(), "sound".to_string()]);
    assert_eq!(
        engine_room.common_value_fields.as_ref().unwrap().timestamp,
        "T".to_string()
    );
}

#[test]
fn batch_source_falls_back_to_descriptor_label() {
    let mut storage = Storage::default();
    let delta = V1DeltaFormat::builder()
        .context("vessels.A".into())
        .add(
            V1UpdateType::builder()
                .source(signalk::V1DefSource::builder().label("n2k.15".into()).build())
                .timestamp("T".into())
                .add(V1UpdateValue::new("navigation.log".into(), num(45500.0)))
                .build(),
        )
        .build();
    let errs = storage.update(delta);
    assert!(errs.is_empty());
    let v = vessel(&storage, "A");
    assert_eq!(
        v.navigation.as_ref().unwrap().log.as_ref().unwrap().source,
        "n2k.15".to_string()
    );
}
