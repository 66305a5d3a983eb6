use signalk::V1Attr;
use signalk::V1DefSource;
use signalk::V1ElectricalIdentity;
use signalk::V1ElectricalManufacturer;
use signalk::V1NotificationValue;
use signalk::V1Source;
use signalk::V1SourceProperty;
use signalk::V1Sources;

#[test]
fn notification_value_builder_collects_methods() {
    let value = V1NotificationValue::builder()
        .method("visual".into())
        .method("sound".into())
        .state("alert".into())
        .message("Anchor drag".into())
        .build();
    assert_eq!(value.method, vec!["visual".to_string(), "sound".to_string()]);
    assert_eq!(value.state, "alert".to_string());
    assert_eq!(value.message, "Anchor drag".to_string());
}

#[test]
fn electrical_identity_builder_sets_fields() {
    let identity = V1ElectricalIdentity::builder()
        .name("House bank".into())
        .location("Engine room".into())
        .date_installed("2020-05-01".into())
        .manufacturer(
            V1ElectricalManufacturer::builder()
                .name("Victron".into())
                .model("Smart 200".into())
                .url("https://example.com".into())
                .build(),
        )
        .build();
    assert_eq!(identity.name.as_deref(), Some("House bank"));
    assert_eq!(identity.location.as_deref(), Some("Engine room"));
    assert_eq!(identity.date_installed.as_deref(), Some("2020-05-01"));
    let maker = identity.manufacturer.unwrap();
    assert_eq!(maker.name.as_deref(), Some("Victron"));
    assert_eq!(maker.model.as_deref(), Some("Smart 200"));
    assert_eq!(maker.url.as_deref(), Some("https://example.com"));
}

#[test]
fn sources_builder_collects_fields() {
    let sources = V1Sources::builder()
        .t(V1Attr::new(644, "self".into(), "self".into()))
        .add_field(
            "ttyUSB0".into(),
            V1Source::builder()
                .label("ttyUSB0".into())
                .type_("NMEA0183".into())
                .add_property(
                    "GP".into(),
                    V1SourceProperty::builder()
                        .talker("GP".into())
                        .add_sentence("RMC".into(), "2017-05-16T05:15:50.007Z".into())
                        .add_extra("note".into(), "primary gps".into())
                        .build(),
                )
                .build(),
        )
        .build();
    assert_eq!(sources.type_.as_ref().unwrap().mode, Some(644));
    let source = sources.fields.get("ttyUSB0").unwrap();
    assert_eq!(source.label.as_deref(), Some("ttyUSB0"));
    assert_eq!(source.type_.as_deref(), Some("NMEA0183"));
    let prop = source.properties.get("GP").unwrap();
    assert_eq!(prop.talker.as_deref(), Some("GP"));
    assert_eq!(
        prop.sentences.as_ref().unwrap().get("RMC").unwrap(),
        "2017-05-16T05:15:50.007Z"
    );
    assert_eq!(prop.extras.get("note").unwrap(), "primary gps");
}

#[test]
fn def_source_builder_sets_fields() {
    let source = V1DefSource::builder()
        .label("gps_0183_RMC".into())
        .type_("NMEA0183".into())
        .src("ttyUSB0".into())
        .talker("GP".into())
        .sentence("RMC".into())
        .pgn(129025)
        .build();
    assert_eq!(source.label, "gps_0183_RMC".to_string());
    assert_eq!(source.type_.as_deref(), Some("NMEA0183"));
    assert_eq!(source.src.as_deref(), Some("ttyUSB0"));
    assert_eq!(source.talker.as_deref(), Some("GP"));
    assert_eq!(source.sentence.as_deref(), Some("RMC"));
    assert_eq!(source.pgn, Some(129025));
}

#[test]
fn attr_new_wraps_every_field() {
    let attr = V1Attr::new(600, "skipper".into(), "crew".into());
    assert_eq!(attr.mode, Some(600));
    assert_eq!(attr.owner.as_deref(), Some("skipper"));
    assert_eq!(attr.group.as_deref(), Some("crew"));
}

#[test]
fn root_format_builder_mirrors_full_format() {
    let root = signalk::V1RootFormat::builder()
        .version("1.7.0".into())
        .self_("vessels.A".into())
        .add_vessel("A".into(), signalk::V1Vessel::builder().name("Motu".into()).build())
        .build();
    assert_eq!(root.version, "1.7.0".to_string());
    assert_eq!(root.self_, "vessels.A".to_string());
    let vessel = root.vessels.as_ref().unwrap().get("A").unwrap();
    assert_eq!(vessel.name.as_deref(), Some("Motu"));
}

#[test]
fn common_value_fields_builder_sets_provenance() {
    let common = signalk::V1CommonValueFields::builder()
        .timestamp("2017-04-03T06:14:04.451Z".into())
        .source("ttyUSB0.GP".into())
        .pgn(129025)
        .sentence("RMC".into())
        .build();
    assert_eq!(common.timestamp, "2017-04-03T06:14:04.451Z".to_string());
    assert_eq!(common.source, "ttyUSB0.GP".to_string());
    assert_eq!(common.pgn, Some(129025));
    assert_eq!(common.sentence.as_deref(), Some("RMC"));
    assert!(common.attr.is_none());
    assert!(common.meta.is_none());
}

#[test]
fn number_value_builder_carries_reading() {
    let leaf = signalk::V1NumberValue::builder()
        .value(signalk::V1Num::from_bits(5.6f64.to_bits()))
        .timestamp("T1".into())
        .source("S".into())
        .build();
    assert_eq!(leaf.value, signalk::V1Num::from_bits(5.6f64.to_bits()));
    assert_eq!(leaf.timestamp, "T1".to_string());
    assert_eq!(leaf.source, "S".to_string());
    assert!(leaf.pgn.is_none());
}
