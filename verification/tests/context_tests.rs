use signalk::GetContext;
use signalk::Updateable;
use signalk::V1FullFormat;
use signalk::V1Navigation;
use signalk::V1Num;
use signalk::V1UpdateType;
use signalk::V1UpdateValue;
use signalk::V1NumberValue;
use signalk::V1Value;
use signalk::V1Vessel;

fn num(x: f64) -> V1Num {
    V1Num::from_bits(x.to_bits())
}

#[test]
fn get_existing_mmsi() {
    let data = V1FullFormat::builder()
        .add_vessel(
            "urn:mrn:imo:mmsi:366982330".into(),
            V1Vessel::builder()
                .mmsi("366982330".into())
                .navigation(
                    V1Navigation::builder()
                        .speed_over_ground(V1NumberValue::builder().value(num(5.6)).build())
                        .build(),
                )
                .build(),
        )
        .build();
    assert_eq!(
        "V1Vessel".to_string(),
        data.lookup_context("vessels.urn:mrn:imo:mmsi:366982330")
            .unwrap()
            .type_label()
    );
    assert_eq!(
        "366982330".to_string(),
        data.lookup_context("vessels.urn:mrn:imo:mmsi:366982330")
            .unwrap()
            .id()
    );
}

#[test]
fn get_other_existing_mmsi() {
    let data = V1FullFormat::builder()
        .add_vessel(
            "urn:mrn:imo:mmsi:234567890".into(),
            V1Vessel::builder().mmsi("234567890".into()).build(),
        )
        .build();
    assert_eq!(
        "V1Vessel".to_string(),
        data.lookup_context("vessels.urn:mrn:imo:mmsi:234567890")
            .unwrap()
            .type_label()
    );
    assert_eq!(
        "234567890".to_string(),
        data.lookup_context("vessels.urn:mrn:imo:mmsi:234567890")
            .unwrap()
            .id()
    );
}

#[test]
fn get_context_misses() {
    let data = V1FullFormat::builder()
        .add_vessel("urn:mrn:imo:mmsi:366982330".into(), V1Vessel::builder().build())
        .build();
    assert!(data.lookup_context("vessels.urn:mrn:imo:mmsi:000000000").is_none());
    assert!(data.lookup_context("atons.urn:mrn:imo:mmsi:366982330").is_none());
    assert!(data.lookup_context("vessels").is_none());
}

#[test]
fn trait_entry_points_behave_like_inherent_ones() {
    let mut vessel = V1Vessel::builder().mmsi("366982330".into()).build();
    let group = V1UpdateType::builder()
        .ref_source("S".into())
        .timestamp("T".into())
        .add(V1UpdateValue::new(
            "navigation.speedOverGround".into(),
            V1Value::Num(num(5.6)),
        ))
        .build();
    vessel.apply_update(group);
    let sog = vessel
        .navigation
        .as_ref()
        .unwrap()
        .speed_over_ground
        .as_ref()
        .unwrap();
    assert_eq!(sog.value, num(5.6));
    assert_eq!(sog.source, "S".to_string());
    assert_eq!(Updateable::id(&vessel), "366982330".to_string());
    assert_eq!(Updateable::type_label(&vessel), "V1Vessel".to_string());

    let data = V1FullFormat::builder()
        .add_vessel("366982330".into(), vessel)
        .build();
    let found = data.get_context("vessels.366982330").unwrap();
    assert_eq!(found.id(), "366982330".to_string());
    assert!(data.get_context("vessels.000000000").is_none());
}
