use vstd::prelude::*;

use crate::definitions::V1NumberValue;
use crate::navigation::NavigationView;
use crate::navigation::NumberValueView;
use crate::navigation::PositionTypeView;
use crate::navigation::V1Navigation;
use crate::navigation::V1PositionType;
use crate::navigation::V1PositionValue;
use crate::propulsion::PropulsionView;
use crate::propulsion::V1Propulsion;
use crate::propulsion::V1PropulsionState;
use crate::environment::DepthView;
use crate::environment::EnvironmentView;
use crate::environment::OutsideView;
use crate::environment::V1Environment;
use crate::environment::V1EnvironmentDepth;
use crate::environment::V1EnvironmentInside;
use crate::environment::V1EnvironmentOutside;
use crate::environment::V1EnvironmentWater;
use crate::environment::V1EnvironmentWind;
use crate::environment::V1EnvironmentZone;
use crate::environment::WaterView;
use crate::environment::WindView;
use crate::environment::ZoneView;
use crate::electrical::BatteryView;
use crate::electrical::DCCurrentValueView;
use crate::electrical::DCQualitiesView;
use crate::electrical::DCTemperatureValueView;
use crate::electrical::DCVoltageValueView;
use crate::electrical::ElectricalView;
use crate::electrical::V1Battery;
use crate::electrical::V1Electrical;
use crate::electrical::V1ElectricalDCCurrentValue;
use crate::electrical::V1ElectricalDCQualities;
use crate::electrical::V1ElectricalDCTemperatureValue;
use crate::electrical::V1ElectricalDCVoltageValue;
use crate::definitions::CommonFieldsView;
use crate::definitions::V1CommonValueFields;
use crate::notification::NotificationValueView;
use crate::notification::NotificationView;
use crate::notification::V1Notification;
use crate::notification::V1NotificationValue;
use crate::notification::notif_childs_view;
use crate::notification::notif_view;
use crate::strmap::str_eq;
use crate::value::V1Num;
use crate::value::V1Value;
use crate::value::spec_obj_get;

verus! {

/// Why one update record was dropped.  Every error is local to its record (or
/// to its whole batch, for an unresolvable context) and never fatal.
#[derive(PartialEq, Eq, Structural, Debug, Clone, Copy)]
pub enum V1MergeError {
    /// The context does not address a vessel, or names `self` while no self
    /// vessel is designated.
    UnknownContext,
    /// A segment before the leaf matches no schema field or keyed mapping.
    UnknownSegment,
    /// The payload does not fit the leaf the path addresses.
    TypeMismatch,
}

/// What resolving and applying one record against one subtree came to.
/// `Unknown` means the trailing segment names no schema field: the record is
/// not an error, it belongs in the vessel's extension bag.
pub enum MergeOutcome<T> {
    Done(T),
    Unknown,
    Fail(V1MergeError),
}

/// The executable counterpart of `MergeOutcome`: the new state is written in
/// place, `Applied` carries the position-accumulation flag, and `Unknown`
/// hands the payload back for the extension bag.
pub enum MergeAttempt {
    Applied(bool),
    Unknown(V1Value),
    Failed(V1MergeError),
}

/// The numeric payload of a wire value, if it has one.
pub open spec fn spec_num_of(val: V1Value) -> Option<V1Num> {
    match val {
        V1Value::Num(n) => Some(n),
        _ => None,
    }
}

/// The model of a numeric leaf freshly built from a reading and the batch
/// provenance.
pub open spec fn num_leaf_view(n: V1Num, src: Seq<char>, ts: Seq<char>) -> NumberValueView {
    NumberValueView { value: n, timestamp: ts, source: src, pgn: None, sentence: None }
}

/// Builds the numeric leaf for a reading, stamping it with the batch
/// provenance.
pub fn make_num_leaf(n: V1Num, src: &str, ts: &str) -> (r: V1NumberValue)
    ensures
        r@ == num_leaf_view(n, src@, ts@),
{
    V1NumberValue {
        value: n,
        timestamp: ts.to_owned(),
        source: src.to_owned(),
        pgn: None,
        sentence: None,
    }
}

/// A position leaf with zeroed coordinates, the base that sub-field updates
/// accumulate into.
pub open spec fn fresh_position_view(src: Seq<char>, ts: Seq<char>) -> PositionTypeView {
    PositionTypeView {
        value: V1PositionValue {
            latitude: V1Num { bits: 0 },
            longitude: V1Num { bits: 0 },
            altitude: None,
        },
        timestamp: ts,
        source: src,
        pgn: None,
        sentence: None,
    }
}

/// Model of merging one record into a position leaf.  An empty path replaces
/// the leaf from an object holding latitude and longitude; a single segment
/// merges one sub-field, into the leaf already touched in this batch, or into
/// a fresh one when the leaf is untouched or absent (sub-fields accumulate
/// only within a batch; across batches the leaf is replaced).
pub open spec fn position_apply(
    p: Option<PositionTypeView>,
    segs: Seq<Seq<char>>,
    val: V1Value,
    src: Seq<char>,
    ts: Seq<char>,
    touched: bool,
) -> MergeOutcome<(Option<PositionTypeView>, bool)> {
    if segs.len() == 0 {
        match val {
            V1Value::Object(fields) => {
                let lat = spec_obj_get(fields@, "latitude"@);
                let lon = spec_obj_get(fields@, "longitude"@);
                let alt = spec_obj_get(fields@, "altitude"@);
                if (lat matches Some(lv) && spec_num_of(lv) matches Some(la)) && (lon matches Some(
                    ov,
                ) && spec_num_of(ov) matches Some(lo)) {
                    let altitude = match alt {
                        Some(av) => spec_num_of(av),
                        None => None,
                    };
                    MergeOutcome::Done(
                        (
                            Some(PositionTypeView {
                                value: V1PositionValue {
                                    latitude: spec_num_of(lat->0)->0,
                                    longitude: spec_num_of(lon->0)->0,
                                    altitude,
                                },
                                timestamp: ts,
                                source: src,
                                pgn: None,
                                sentence: None,
                            }),
                            true,
                        ),
                    )
                } else {
                    MergeOutcome::Fail(V1MergeError::TypeMismatch)
                }
            },
            _ => MergeOutcome::Fail(V1MergeError::TypeMismatch),
        }
    } else if segs.len() == 1 {
        let base = if touched && p is Some {
            p->0
        } else {
            fresh_position_view(src, ts)
        };
        if segs[0] == "latitude"@ {
            match spec_num_of(val) {
                Some(n) => MergeOutcome::Done(
                    (
                        Some(PositionTypeView {
                            value: V1PositionValue { latitude: n, ..base.value },
                            ..base
                        }),
                        true,
                    ),
                ),
                None => MergeOutcome::Fail(V1MergeError::TypeMismatch),
            }
        } else if segs[0] == "longitude"@ {
            match spec_num_of(val) {
                Some(n) => MergeOutcome::Done(
                    (
                        Some(PositionTypeView {
                            value: V1PositionValue { longitude: n, ..base.value },
                            ..base
                        }),
                        true,
                    ),
                ),
                None => MergeOutcome::Fail(V1MergeError::TypeMismatch),
            }
        } else if segs[0] == "altitude"@ {
            match spec_num_of(val) {
                Some(n) => MergeOutcome::Done(
                    (
                        Some(PositionTypeView {
                            value: V1PositionValue { altitude: Some(n), ..base.value },
                            ..base
                        }),
                        true,
                    ),
                ),
                None => MergeOutcome::Fail(V1MergeError::TypeMismatch),
            }
        } else if segs[0] == "timestamp"@ {
            match val {
                V1Value::Str(s) => MergeOutcome::Done(
                    (Some(PositionTypeView { timestamp: s@, ..base }), true),
                ),
                _ => MergeOutcome::Fail(V1MergeError::TypeMismatch),
            }
        } else if segs[0] == "source"@ {
            match val {
                V1Value::Str(s) => MergeOutcome::Done(
                    (Some(PositionTypeView { source: s@, ..base }), true),
                ),
                _ => MergeOutcome::Fail(V1MergeError::TypeMismatch),
            }
        } else {
            MergeOutcome::Unknown
        }
    } else {
        MergeOutcome::Fail(V1MergeError::UnknownSegment)
    }
}

/// Takes the position leaf to accumulate into: the current leaf when it was
/// already touched in this batch, else a fresh zeroed one.  Leaves the slot
/// empty; the caller writes the edited leaf back.
fn take_position_base(
    p: &mut Option<V1PositionType>,
    src: &str,
    ts: &str,
    touched: bool,
) -> (r: V1PositionType)
    ensures
        r@ == (if touched && *old(p) is Some {
            (*old(p))->0@
        } else {
            fresh_position_view(src@, ts@)
        }),
{
    if touched && p.is_some() {
        let mut cur: Option<V1PositionType> = None;
        std::mem::swap(p, &mut cur);
        match cur {
            Some(b) => b,
            None => V1PositionType {
                value: V1PositionValue {
                    latitude: V1Num { bits: 0 },
                    longitude: V1Num { bits: 0 },
                    altitude: None,
                },
                timestamp: ts.to_owned(),
                source: src.to_owned(),
                pgn: None,
                sentence: None,
            },
        }
    } else {
        V1PositionType {
            value: V1PositionValue {
                latitude: V1Num { bits: 0 },
                longitude: V1Num { bits: 0 },
                altitude: None,
            },
            timestamp: ts.to_owned(),
            source: src.to_owned(),
            pgn: None,
            sentence: None,
        }
    }
}

/// Merges one record into the position slot of a navigation block.
pub fn position_apply_exec(
    p: &mut Option<V1PositionType>,
    segs: &Vec<String>,
    at: usize,
    val: V1Value,
    src: &str,
    ts: &str,
    touched: bool,
) -> (r: MergeAttempt)
    requires
        at <= segs@.len(),
    ensures
        ({
            let spec_r = position_apply(
                crate::navigation::opt_view(*old(p)),
                segs@.skip(at as int).map_values(|x: String| x@),
                val,
                src@,
                ts@,
                touched,
            );
            match r {
                MergeAttempt::Applied(t2) => spec_r == MergeOutcome::Done(
                    (crate::navigation::opt_view(*final(p)), t2),
                ),
                MergeAttempt::Unknown(v2) => spec_r == MergeOutcome::<(
                    Option<PositionTypeView>,
                    bool,
                )>::Unknown && v2 == val && *final(p) == *old(p),
                MergeAttempt::Failed(e) => spec_r == MergeOutcome::<(
                    Option<PositionTypeView>,
                    bool,
                )>::Fail(e) && *final(p) == *old(p),
            }
        }),
{
    let ghost sv = segs@.skip(at as int).map_values(|x: String| x@);
    let n = segs.len();
    if at == n {
        proof {
            assert(sv.len() == 0);
        }
        match val {
            V1Value::Object(fields) => {
                let lat = match V1Value::obj_get(&fields, "latitude") {
                    Some(v) => match v {
                        V1Value::Num(x) => Some(*x),
                        _ => {
                            return MergeAttempt::Failed(V1MergeError::TypeMismatch);
                        },
                    },
                    None => {
                        return MergeAttempt::Failed(V1MergeError::TypeMismatch);
                    },
                };
                let lon = match V1Value::obj_get(&fields, "longitude") {
                    Some(v) => match v {
                        V1Value::Num(x) => Some(*x),
                        _ => {
                            return MergeAttempt::Failed(V1MergeError::TypeMismatch);
                        },
                    },
                    None => {
                        return MergeAttempt::Failed(V1MergeError::TypeMismatch);
                    },
                };
                let alt = match V1Value::obj_get(&fields, "altitude") {
                    Some(v) => match v {
                        V1Value::Num(x) => Some(*x),
                        _ => None,
                    },
                    None => None,
                };
                *p = Some(V1PositionType {
                    value: V1PositionValue {
                        latitude: lat.unwrap(),
                        longitude: lon.unwrap(),
                        altitude: alt,
                    },
                    timestamp: ts.to_owned(),
                    source: src.to_owned(),
                    pgn: None,
                    sentence: None,
                });
                MergeAttempt::Applied(true)
            },
            _ => MergeAttempt::Failed(V1MergeError::TypeMismatch),
        }
    } else if at + 1 == n {
        proof {
            assert(sv.len() == 1);
            assert(sv[0] == segs@[at as int]@);
        }
        let seg = segs[at].as_str();
        if str_eq(seg, "latitude") {
            match val {
                V1Value::Num(x) => {
                    let mut base = take_position_base(p, src, ts, touched);
                    base.value.latitude = x;
                    *p = Some(base);
                    MergeAttempt::Applied(true)
                },
                _ => MergeAttempt::Failed(V1MergeError::TypeMismatch),
            }
        } else if str_eq(seg, "longitude") {
            match val {
                V1Value::Num(x) => {
                    let mut base = take_position_base(p, src, ts, touched);
                    base.value.longitude = x;
                    *p = Some(base);
                    MergeAttempt::Applied(true)
                },
                _ => MergeAttempt::Failed(V1MergeError::TypeMismatch),
            }
        } else if str_eq(seg, "altitude") {
            match val {
                V1Value::Num(x) => {
                    let mut base = take_position_base(p, src, ts, touched);
                    base.value.altitude = Some(x);
                    *p = Some(base);
                    MergeAttempt::Applied(true)
                },
                _ => MergeAttempt::Failed(V1MergeError::TypeMismatch),
            }
        } else if str_eq(seg, "timestamp") {
            match val {
                V1Value::Str(s) => {
                    let mut base = take_position_base(p, src, ts, touched);
                    base.timestamp = s;
                    *p = Some(base);
                    MergeAttempt::Applied(true)
                },
                _ => MergeAttempt::Failed(V1MergeError::TypeMismatch),
            }
        } else if str_eq(seg, "source") {
            match val {
                V1Value::Str(s) => {
                    let mut base = take_position_base(p, src, ts, touched);
                    base.source = s;
                    *p = Some(base);
                    MergeAttempt::Applied(true)
                },
                _ => MergeAttempt::Failed(V1MergeError::TypeMismatch),
            }
        } else {
            MergeAttempt::Unknown(val)
        }
    } else {
        proof {
            assert(sv.len() > 1);
        }
        MergeAttempt::Failed(V1MergeError::UnknownSegment)
    }
}


/// Model of merging one record into the navigation block: the position leaf
/// accumulates per batch; every other field is a numeric leaf that a record
/// overwrites in full.
pub open spec fn nav_apply(
    n: NavigationView,
    segs: Seq<Seq<char>>,
    val: V1Value,
    src: Seq<char>,
    ts: Seq<char>,
    touched: bool,
) -> MergeOutcome<(NavigationView, bool)> {
    if segs.len() == 0 {
        MergeOutcome::Fail(V1MergeError::TypeMismatch)
    } else if segs[0] == "position"@ {
        match position_apply(n.position, segs.drop_first(), val, src, ts, touched) {
            MergeOutcome::Done((p2, t2)) => MergeOutcome::Done(
                (NavigationView { position: p2, ..n }, t2),
            ),
            MergeOutcome::Unknown => MergeOutcome::Unknown,
            MergeOutcome::Fail(e) => MergeOutcome::Fail(e),
        }
    } else if segs.len() == 1 {
        if segs[0] == "courseOverGroundMagnetic"@ {
            match spec_num_of(val) {
                Some(x) => MergeOutcome::Done(
                    (
                        NavigationView { course_over_ground_magnetic: Some(num_leaf_view(x, src, ts)), ..n },
                        touched,
                    ),
                ),
                None => MergeOutcome::Fail(V1MergeError::TypeMismatch),
            }
        } else if segs[0] == "courseOverGroundTrue"@ {
            match spec_num_of(val) {
                Some(x) => MergeOutcome::Done(
                    (
                        NavigationView { course_over_ground_true: Some(num_leaf_view(x, src, ts)), ..n },
                        touched,
                    ),
                ),
                None => MergeOutcome::Fail(V1MergeError::TypeMismatch),
            }
        } else if segs[0] == "courseRhumbline"@ {
            match spec_num_of(val) {
                Some(x) => MergeOutcome::Done(
                    (
                        NavigationView { course_rhumbline: Some(num_leaf_view(x, src, ts)), ..n },
                        touched,
                    ),
                ),
                None => MergeOutcome::Fail(V1MergeError::TypeMismatch),
            }
        } else if segs[0] == "courseGreatCircle"@ {
            match spec_num_of(val) {
                Some(x) => MergeOutcome::Done(
                    (
                        NavigationView { course_great_circle: Some(num_leaf_view(x, src, ts)), ..n },
                        touched,
                    ),
                ),
                None => MergeOutcome::Fail(V1MergeError::TypeMismatch),
            }
        } else if segs[0] == "magneticVariation"@ {
            match spec_num_of(val) {
                Some(x) => MergeOutcome::Done(
                    (
                        NavigationView { magnetic_variation: Some(num_leaf_view(x, src, ts)), ..n },
                        touched,
                    ),
                ),
                None => MergeOutcome::Fail(V1MergeError::TypeMismatch),
            }
        } else if segs[0] == "magneticVariationAgeOfService"@ {
            match spec_num_of(val) {
                Some(x) => MergeOutcome::Done(
                    (
                        NavigationView { magnetic_variation_age_of_service: Some(num_leaf_view(x, src, ts)), ..n },
                        touched,
                    ),
                ),
                None => MergeOutcome::Fail(V1MergeError::TypeMismatch),
            }
        } else if segs[0] == "headingMagnetic"@ {
            match spec_num_of(val) {
                Some(x) => MergeOutcome::Done(
                    (
                        NavigationView { heading_magnetic: Some(num_leaf_view(x, src, ts)), ..n },
                        touched,
                    ),
                ),
                None => MergeOutcome::Fail(V1MergeError::TypeMismatch),
            }
        } else if segs[0] == "magneticDeviation"@ {
            match spec_num_of(val) {
                Some(x) => MergeOutcome::Done(
                    (
                        NavigationView { magnetic_deviation: Some(num_leaf_view(x, src, ts)), ..n },
                        touched,
                    ),
                ),
                None => MergeOutcome::Fail(V1MergeError::TypeMismatch),
            }
        } else if segs[0] == "headingCompass"@ {
            match spec_num_of(val) {
                Some(x) => MergeOutcome::Done(
                    (
                        NavigationView { heading_compass: Some(num_leaf_view(x, src, ts)), ..n },
                        touched,
                    ),
                ),
                None => MergeOutcome::Fail(V1MergeError::TypeMismatch),
            }
        } else if segs[0] == "headingTrue"@ {
            match spec_num_of(val) {
                Some(x) => MergeOutcome::Done(
                    (
                        NavigationView { heading_true: Some(num_leaf_view(x, src, ts)), ..n },
                        touched,
                    ),
                ),
                None => MergeOutcome::Fail(V1MergeError::TypeMismatch),
            }
        } else if segs[0] == "rateOfTurn"@ {
            match spec_num_of(val) {
                Some(x) => MergeOutcome::Done(
                    (
                        NavigationView { rate_of_turn: Some(num_leaf_view(x, src, ts)), ..n },
                        touched,
                    ),
                ),
                None => MergeOutcome::Fail(V1MergeError::TypeMismatch),
            }
        } else if segs[0] == "speedOverGround"@ {
            match spec_num_of(val) {
                Some(x) => MergeOutcome::Done(
                    (
                        NavigationView { speed_over_ground: Some(num_leaf_view(x, src, ts)), ..n },
                        touched,
                    ),
                ),
                None => MergeOutcome::Fail(V1MergeError::TypeMismatch),
            }
        } else if segs[0] == "speedThroughWater"@ {
            match spec_num_of(val) {
                Some(x) => MergeOutcome::Done(
                    (
                        NavigationView { speed_through_water: Some(num_leaf_view(x, src, ts)), ..n },
                        touched,
                    ),
                ),
                None => MergeOutcome::Fail(V1MergeError::TypeMismatch),
            }
        } else if segs[0] == "speedThroughWaterTransverse"@ {
            match spec_num_of(val) {
                Some(x) => MergeOutcome::Done(
                    (
                        NavigationView { speed_through_water_transverse: Some(num_leaf_view(x, src, ts)), ..n },
                        touched,
                    ),
                ),
                None => MergeOutcome::Fail(V1MergeError::TypeMismatch),
            }
        } else if segs[0] == "speedThroughWaterLongitudinal"@ {
            match spec_num_of(val) {
                Some(x) => MergeOutcome::Done(
                    (
                        NavigationView { speed_through_water_longitudinal: Some(num_leaf_view(x, src, ts)), ..n },
                        touched,
                    ),
                ),
                None => MergeOutcome::Fail(V1MergeError::TypeMismatch),
            }
        } else if segs[0] == "leewayAngle"@ {
            match spec_num_of(val) {
                Some(x) => MergeOutcome::Done(
                    (
                        NavigationView { leeway_angle: Some(num_leaf_view(x, src, ts)), ..n },
                        touched,
                    ),
                ),
                None => MergeOutcome::Fail(V1MergeError::TypeMismatch),
            }
        } else if segs[0] == "log"@ {
            match spec_num_of(val) {
                Some(x) => MergeOutcome::Done(
                    (
                        NavigationView { log: Some(num_leaf_view(x, src, ts)), ..n },
                        touched,
                    ),
                ),
                None => MergeOutcome::Fail(V1MergeError::TypeMismatch),
            }
        } else {
            MergeOutcome::Unknown
        }
    } else {
        MergeOutcome::Fail(V1MergeError::UnknownSegment)
    }
}

/// Merges one record into a navigation block.
pub fn nav_apply_exec(
    n: &mut V1Navigation,
    segs: &Vec<String>,
    at: usize,
    val: V1Value,
    src: &str,
    ts: &str,
    touched: bool,
) -> (r: MergeAttempt)
    requires
        at <= segs@.len(),
    ensures
        ({
            let spec_r = nav_apply(
                old(n)@,
                segs@.skip(at as int).map_values(|x: String| x@),
                val,
                src@,
                ts@,
                touched,
            );
            match r {
                MergeAttempt::Applied(t2) => spec_r == MergeOutcome::Done((final(n)@, t2)),
                MergeAttempt::Unknown(v2) => spec_r == MergeOutcome::<(
                    NavigationView,
                    bool,
                )>::Unknown && v2 == val && *final(n) == *old(n),
                MergeAttempt::Failed(e) => spec_r == MergeOutcome::<(NavigationView, bool)>::Fail(
                    e,
                ) && *final(n) == *old(n),
            }
        }),
{
    let ghost sv = segs@.skip(at as int).map_values(|x: String| x@);
    let nn = segs.len();
    if at == nn {
        proof {
            assert(sv.len() == 0);
        }
        return MergeAttempt::Failed(V1MergeError::TypeMismatch);
    }
    proof {
        assert(sv[0] == segs@[at as int]@);
        assert(sv.drop_first() =~= segs@.skip(at as int + 1).map_values(|x: String| x@));
    }
    let seg = segs[at].as_str();
    if str_eq(seg, "position") {
        let r = position_apply_exec(&mut n.position, segs, at + 1, val, src, ts, touched);
        proof {
            match r {
                MergeAttempt::Applied(_) => {
                    assert(final(n)@ =~= (NavigationView {
                        position: crate::navigation::opt_view(final(n).position),
                        ..old(n)@
                    }));
                },
                _ => {
                    assert(*final(n) == *old(n));
                },
            }
        }
        r
    } else if at + 1 == nn {
        proof {
            assert(sv.len() == 1);
        }
        if str_eq(seg, "courseOverGroundMagnetic") {
            match val {
                V1Value::Num(x) => {
                    n.course_over_ground_magnetic = Some(make_num_leaf(x, src, ts));
                    MergeAttempt::Applied(touched)
                },
                _ => MergeAttempt::Failed(V1MergeError::TypeMismatch),
            }
        } else if str_eq(seg, "courseOverGroundTrue") {
            match val {
                V1Value::Num(x) => {
                    n.course_over_ground_true = Some(make_num_leaf(x, src, ts));
                    MergeAttempt::Applied(touched)
                },
                _ => MergeAttempt::Failed(V1MergeError::TypeMismatch),
            }
        } else if str_eq(seg, "courseRhumbline") {
            match val {
                V1Value::Num(x) => {
                    n.course_rhumbline = Some(make_num_leaf(x, src, ts));
                    MergeAttempt::Applied(touched)
                },
                _ => MergeAttempt::Failed(V1MergeError::TypeMismatch),
            }
        } else if str_eq(seg, "courseGreatCircle") {
            match val {
                V1Value::Num(x) => {
                    n.course_great_circle = Some(make_num_leaf(x, src, ts));
                    MergeAttempt::Applied(touched)
                },
                _ => MergeAttempt::Failed(V1MergeError::TypeMismatch),
            }
        } else if str_eq(seg, "magneticVariation") {
            match val {
                V1Value::Num(x) => {
                    n.magnetic_variation = Some(make_num_leaf(x, src, ts));
                    MergeAttempt::Applied(touched)
                },
                _ => MergeAttempt::Failed(V1MergeError::TypeMismatch),
            }
        } else if str_eq(seg, "magneticVariationAgeOfService") {
            match val {
                V1Value::Num(x) => {
                    n.magnetic_variation_age_of_service = Some(make_num_leaf(x, src, ts));
                    MergeAttempt::Applied(touched)
                },
                _ => MergeAttempt::Failed(V1MergeError::TypeMismatch),
            }
        } else if str_eq(seg, "headingMagnetic") {
            match val {
                V1Value::Num(x) => {
                    n.heading_magnetic = Some(make_num_leaf(x, src, ts));
                    MergeAttempt::Applied(touched)
                },
                _ => MergeAttempt::Failed(V1MergeError::TypeMismatch),
            }
        } else if str_eq(seg, "magneticDeviation") {
            match val {
                V1Value::Num(x) => {
                    n.magnetic_deviation = Some(make_num_leaf(x, src, ts));
                    MergeAttempt::Applied(touched)
                },
                _ => MergeAttempt::Failed(V1MergeError::TypeMismatch),
            }
        } else if str_eq(seg, "headingCompass") {
            match val {
                V1Value::Num(x) => {
                    n.heading_compass = Some(make_num_leaf(x, src, ts));
                    MergeAttempt::Applied(touched)
                },
                _ => MergeAttempt::Failed(V1MergeError::TypeMismatch),
            }
        } else if str_eq(seg, "headingTrue") {
            match val {
                V1Value::Num(x) => {
                    n.heading_true = Some(make_num_leaf(x, src, ts));
                    MergeAttempt::Applied(touched)
                },
                _ => MergeAttempt::Failed(V1MergeError::TypeMismatch),
            }
        } else if str_eq(seg, "rateOfTurn") {
            match val {
                V1Value::Num(x) => {
                    n.rate_of_turn = Some(make_num_leaf(x, src, ts));
                    MergeAttempt::Applied(touched)
                },
                _ => MergeAttempt::Failed(V1MergeError::TypeMismatch),
            }
        } else if str_eq(seg, "speedOverGround") {
            match val {
                V1Value::Num(x) => {
                    n.speed_over_ground = Some(make_num_leaf(x, src, ts));
                    MergeAttempt::Applied(touched)
                },
                _ => MergeAttempt::Failed(V1MergeError::TypeMismatch),
            }
        } else if str_eq(seg, "speedThroughWater") {
            match val {
                V1Value::Num(x) => {
                    n.speed_through_water = Some(make_num_leaf(x, src, ts));
                    MergeAttempt::Applied(touched)
                },
                _ => MergeAttempt::Failed(V1MergeError::TypeMismatch),
            }
        } else if str_eq(seg, "speedThroughWaterTransverse") {
            match val {
                V1Value::Num(x) => {
                    n.speed_through_water_transverse = Some(make_num_leaf(x, src, ts));
                    MergeAttempt::Applied(touched)
                },
                _ => MergeAttempt::Failed(V1MergeError::TypeMismatch),
            }
        } else if str_eq(seg, "speedThroughWaterLongitudinal") {
            match val {
                V1Value::Num(x) => {
                    n.speed_through_water_longitudinal = Some(make_num_leaf(x, src, ts));
                    MergeAttempt::Applied(touched)
                },
                _ => MergeAttempt::Failed(V1MergeError::TypeMismatch),
            }
        } else if str_eq(seg, "leewayAngle") {
            match val {
                V1Value::Num(x) => {
                    n.leeway_angle = Some(make_num_leaf(x, src, ts));
                    MergeAttempt::Applied(touched)
                },
                _ => MergeAttempt::Failed(V1MergeError::TypeMismatch),
            }
        } else if str_eq(seg, "log") {
            match val {
                V1Value::Num(x) => {
                    n.log = Some(make_num_leaf(x, src, ts));
                    MergeAttempt::Applied(touched)
                },
                _ => MergeAttempt::Failed(V1MergeError::TypeMismatch),
            }
        } else {
            MergeAttempt::Unknown(val)
        }
    } else {
        proof {
            assert(sv.len() > 1);
        }
        MergeAttempt::Failed(V1MergeError::UnknownSegment)
    }
}


/// Model of merging one record into one engine's field.  `label` and `state`
/// are string leaves (the state must be one of the wire's three state words);
/// everything else the schema knows here is a numeric leaf.
pub open spec fn prop_field_apply(
    e: PropulsionView,
    field: Seq<char>,
    val: V1Value,
    src: Seq<char>,
    ts: Seq<char>,
) -> MergeOutcome<PropulsionView> {
    if field == "label"@ {
        match val {
            V1Value::Str(s) => MergeOutcome::Done((PropulsionView { label: s@, ..e })),
            _ => MergeOutcome::Fail(V1MergeError::TypeMismatch),
        }
    } else if field == "state"@ {
        match val {
            V1Value::Str(s) => if s@ == "stopped"@ {
                MergeOutcome::Done(
                    (PropulsionView { state: Some(V1PropulsionState::Stopped), ..e }),
                )
            } else if s@ == "started"@ {
                MergeOutcome::Done(
                    (PropulsionView { state: Some(V1PropulsionState::Started), ..e }),
                )
            } else if s@ == "unusable"@ {
                MergeOutcome::Done(
                    (PropulsionView { state: Some(V1PropulsionState::Unusable), ..e }),
                )
            } else {
                MergeOutcome::Fail(V1MergeError::TypeMismatch)
            },
            _ => MergeOutcome::Fail(V1MergeError::TypeMismatch),
        }
    } else if field == "revolutions"@ {
        match spec_num_of(val) {
            Some(x) => MergeOutcome::Done(
                (PropulsionView { revolutions: Some(num_leaf_view(x, src, ts)), ..e }),
            ),
            None => MergeOutcome::Fail(V1MergeError::TypeMismatch),
        }
    } else if field == "temperature"@ {
        match spec_num_of(val) {
            Some(x) => MergeOutcome::Done(
                (PropulsionView { temperature: Some(num_leaf_view(x, src, ts)), ..e }),
            ),
            None => MergeOutcome::Fail(V1MergeError::TypeMismatch),
        }
    } else if field == "oilTemperature"@ {
        match spec_num_of(val) {
            Some(x) => MergeOutcome::Done(
                (PropulsionView { oil_temperature: Some(num_leaf_view(x, src, ts)), ..e }),
            ),
            None => MergeOutcome::Fail(V1MergeError::TypeMismatch),
        }
    } else if field == "oilPressure"@ {
        match spec_num_of(val) {
            Some(x) => MergeOutcome::Done(
                (PropulsionView { oil_pressure: Some(num_leaf_view(x, src, ts)), ..e }),
            ),
            None => MergeOutcome::Fail(V1MergeError::TypeMismatch),
        }
    } else if field == "alternatorVoltage"@ {
        match spec_num_of(val) {
            Some(x) => MergeOutcome::Done(
                (PropulsionView { alternator_voltage: Some(num_leaf_view(x, src, ts)), ..e }),
            ),
            None => MergeOutcome::Fail(V1MergeError::TypeMismatch),
        }
    } else if field == "runTime"@ {
        match spec_num_of(val) {
            Some(x) => MergeOutcome::Done(
                (PropulsionView { run_time: Some(num_leaf_view(x, src, ts)), ..e }),
            ),
            None => MergeOutcome::Fail(V1MergeError::TypeMismatch),
        }
    } else if field == "coolantTemperature"@ {
        match spec_num_of(val) {
            Some(x) => MergeOutcome::Done(
                (PropulsionView { coolant_temperature: Some(num_leaf_view(x, src, ts)), ..e }),
            ),
            None => MergeOutcome::Fail(V1MergeError::TypeMismatch),
        }
    } else if field == "coolantPressure"@ {
        match spec_num_of(val) {
            Some(x) => MergeOutcome::Done(
                (PropulsionView { coolant_pressure: Some(num_leaf_view(x, src, ts)), ..e }),
            ),
            None => MergeOutcome::Fail(V1MergeError::TypeMismatch),
        }
    } else if field == "boostPressure"@ {
        match spec_num_of(val) {
            Some(x) => MergeOutcome::Done(
                (PropulsionView { boost_pressure: Some(num_leaf_view(x, src, ts)), ..e }),
            ),
            None => MergeOutcome::Fail(V1MergeError::TypeMismatch),
        }
    } else if field == "intakeManifoldTemperature"@ {
        match spec_num_of(val) {
            Some(x) => MergeOutcome::Done(
                (PropulsionView { intake_manifold_temperature: Some(num_leaf_view(x, src, ts)), ..e }),
            ),
            None => MergeOutcome::Fail(V1MergeError::TypeMismatch),
        }
    } else if field == "engineLoad"@ {
        match spec_num_of(val) {
            Some(x) => MergeOutcome::Done(
                (PropulsionView { engine_load: Some(num_leaf_view(x, src, ts)), ..e }),
            ),
            None => MergeOutcome::Fail(V1MergeError::TypeMismatch),
        }
    } else if field == "engineTorque"@ {
        match spec_num_of(val) {
            Some(x) => MergeOutcome::Done(
                (PropulsionView { engine_torque: Some(num_leaf_view(x, src, ts)), ..e }),
            ),
            None => MergeOutcome::Fail(V1MergeError::TypeMismatch),
        }
    } else {
        MergeOutcome::Unknown
    }
}

/// The model of the propulsion map as the engine sees it.
pub open spec fn prop_map_view(pm: Option<crate::strmap::StrMap<V1Propulsion>>) -> Option<
    Map<Seq<char>, PropulsionView>,
> {
    match pm {
        Some(m) => Some(m@.map_values(|p: V1Propulsion| p@)),
        None => None,
    }
}

/// Model of merging one record into the propulsion map: the first segment is
/// the engine key (the engine is created with that key as its label when it
/// is new), the second names the field.
pub open spec fn prop_apply(
    pm: Option<Map<Seq<char>, PropulsionView>>,
    segs: Seq<Seq<char>>,
    val: V1Value,
    src: Seq<char>,
    ts: Seq<char>,
) -> MergeOutcome<Map<Seq<char>, PropulsionView>> {
    if segs.len() < 2 {
        MergeOutcome::Fail(V1MergeError::TypeMismatch)
    } else if segs.len() == 2 {
        let m = match pm {
            Some(m) => m,
            None => Map::empty(),
        };
        let key = segs[0];
        let e = if m.dom().contains(key) {
            m[key]
        } else {
            PropulsionView::empty(key)
        };
        match prop_field_apply(e, segs[1], val, src, ts) {
            MergeOutcome::Done(e2) => MergeOutcome::Done(m.insert(key, e2)),
            MergeOutcome::Unknown => MergeOutcome::Unknown,
            MergeOutcome::Fail(er) => MergeOutcome::Fail(er),
        }
    } else {
        MergeOutcome::Fail(V1MergeError::UnknownSegment)
    }
}

/// Merges one record into the propulsion map of a vessel.
pub fn prop_apply_exec(
    pm: &mut Option<crate::strmap::StrMap<V1Propulsion>>,
    segs: &Vec<String>,
    at: usize,
    val: V1Value,
    src: &str,
    ts: &str,
    touched: bool,
) -> (r: MergeAttempt)
    requires
        at <= segs@.len(),
    ensures
        ({
            let spec_r = prop_apply(
                prop_map_view(*old(pm)),
                segs@.skip(at as int).map_values(|x: String| x@),
                val,
                src@,
                ts@,
            );
            match r {
                MergeAttempt::Applied(t2) => t2 == touched && ((*final(pm)) matches Some(m2)
                    && spec_r == MergeOutcome::Done(m2@.map_values(|p: V1Propulsion| p@))),
                MergeAttempt::Unknown(v2) => spec_r == MergeOutcome::<
                    Map<Seq<char>, PropulsionView>,
                >::Unknown && v2 == val && *final(pm) == *old(pm),
                MergeAttempt::Failed(e) => spec_r == MergeOutcome::<
                    Map<Seq<char>, PropulsionView>,
                >::Fail(e) && *final(pm) == *old(pm),
            }
        }),
{
    let ghost sv = segs@.skip(at as int).map_values(|x: String| x@);
    let nn = segs.len();
    if nn - at < 2 {
        return MergeAttempt::Failed(V1MergeError::TypeMismatch);
    }
    if nn - at > 2 {
        proof {
            assert(sv.len() > 2);
        }
        return MergeAttempt::Failed(V1MergeError::UnknownSegment);
    }
    proof {
        assert(sv.len() == 2);
        assert(sv[0] == segs@[at as int]@);
        assert(sv[1] == segs@[at as int + 1]@);
    }
    let field = segs[at + 1].as_str();
    // Sort out what the record asks for before anything is edited, so a
    // dropped record provably changes nothing.  The checks run in the same
    // order as the model's dispatch.
    let is_label = str_eq(field, "label");
    let is_state = str_eq(field, "state");
    let is_num = !is_label && !is_state && (str_eq(field, "revolutions") || str_eq(field, "temperature") || str_eq(field, "oilTemperature") || str_eq(field, "oilPressure") || str_eq(field, "alternatorVoltage") || str_eq(field, "runTime") || str_eq(field, "coolantTemperature") || str_eq(field, "coolantPressure") || str_eq(field, "boostPressure") || str_eq(field, "intakeManifoldTemperature") || str_eq(field, "engineLoad") || str_eq(field, "engineTorque"));
    let state_parsed: Option<V1PropulsionState> = match &val {
        V1Value::Str(s) => {
            if str_eq(s.as_str(), "stopped") {
                Some(V1PropulsionState::Stopped)
            } else if str_eq(s.as_str(), "started") {
                Some(V1PropulsionState::Started)
            } else if str_eq(s.as_str(), "unusable") {
                Some(V1PropulsionState::Unusable)
            } else {
                None
            }
        },
        _ => None,
    };
    if is_label {
        match &val {
            V1Value::Str(_) => {},
            _ => {
                return MergeAttempt::Failed(V1MergeError::TypeMismatch);
            },
        }
    } else if is_state {
        if state_parsed.is_none() {
            return MergeAttempt::Failed(V1MergeError::TypeMismatch);
        }
    } else if is_num {
        match &val {
            V1Value::Num(_) => {},
            _ => {
                return MergeAttempt::Failed(V1MergeError::TypeMismatch);
            },
        }
    } else {
        return MergeAttempt::Unknown(val);
    }
    let key = &segs[at];
    let mut cur: Option<crate::strmap::StrMap<V1Propulsion>> = None;
    std::mem::swap(pm, &mut cur);
    let mut m = match cur {
        Some(m) => m,
        None => crate::strmap::StrMap::new(),
    };
    let ghost m0 = m@;
    let mut engine = match m.take(key.as_str()) {
        Some(e) => e,
        None => V1Propulsion {
            label: key.clone(),
            state: None,
            revolutions: None,
            temperature: None,
            oil_temperature: None,
            oil_pressure: None,
            alternator_voltage: None,
            run_time: None,
            coolant_temperature: None,
            coolant_pressure: None,
            boost_pressure: None,
            intake_manifold_temperature: None,
            engine_load: None,
            engine_torque: None,
        },
    };
    let ghost e0 = engine@;
    if is_label {
        match val {
            V1Value::Str(s) => {
                engine.label = s;
            },
            _ => {},
        }
    } else if is_state {
        engine.state = Some(state_parsed.unwrap());
    } else {
        match val {
            V1Value::Num(x) => {
                if str_eq(field, "revolutions") {
                    engine.revolutions = Some(make_num_leaf(x, src, ts));
                } else if str_eq(field, "temperature") {
                    engine.temperature = Some(make_num_leaf(x, src, ts));
                } else if str_eq(field, "oilTemperature") {
                    engine.oil_temperature = Some(make_num_leaf(x, src, ts));
                } else if str_eq(field, "oilPressure") {
                    engine.oil_pressure = Some(make_num_leaf(x, src, ts));
                } else if str_eq(field, "alternatorVoltage") {
                    engine.alternator_voltage = Some(make_num_leaf(x, src, ts));
                } else if str_eq(field, "runTime") {
                    engine.run_time = Some(make_num_leaf(x, src, ts));
                } else if str_eq(field, "coolantTemperature") {
                    engine.coolant_temperature = Some(make_num_leaf(x, src, ts));
                } else if str_eq(field, "coolantPressure") {
                    engine.coolant_pressure = Some(make_num_leaf(x, src, ts));
                } else if str_eq(field, "boostPressure") {
                    engine.boost_pressure = Some(make_num_leaf(x, src, ts));
                } else if str_eq(field, "intakeManifoldTemperature") {
                    engine.intake_manifold_temperature = Some(make_num_leaf(x, src, ts));
                } else if str_eq(field, "engineLoad") {
                    engine.engine_load = Some(make_num_leaf(x, src, ts));
                } else {
                    engine.engine_torque = Some(make_num_leaf(x, src, ts));
                }
            },
            _ => {},
        }
    }
    let ghost e2 = engine@;
    proof {
        if !m0.dom().contains(sv[0]) {
            assert(e0 =~= PropulsionView::empty(sv[0]));
        }
        assert(prop_field_apply(e0, sv[1], val, src@, ts@) == MergeOutcome::Done(e2));
    }
    m.insert(key.clone(), engine);
    *pm = Some(m);
    proof {
        let f = |p: V1Propulsion| p@;
        let mv = match prop_map_view(*old(pm)) {
            Some(x) => x,
            None => Map::<Seq<char>, PropulsionView>::empty(),
        };
        assert(mv =~= m0.map_values(f));
        assert(mv.dom() =~= m0.dom());
        if m0.dom().contains(sv[0]) {
            assert(mv[sv[0]] == f(m0[sv[0]]));
            assert(e0 == mv[sv[0]]);
        }
        assert((*final(pm))->0@.map_values(f) =~= mv.insert(sv[0], e2));
    }
    MergeAttempt::Applied(touched)
}

/// Model of merging one numeric leaf into the `outside` block.
pub open spec fn outside_field_apply(
    g: OutsideView,
    field: Seq<char>,
    val: V1Value,
    src: Seq<char>,
    ts: Seq<char>,
) -> MergeOutcome<OutsideView> {
    if field == "temperature"@ {
        match spec_num_of(val) {
            Some(x) => MergeOutcome::Done((OutsideView { temperature: Some(num_leaf_view(x, src, ts)), ..g })),
            None => MergeOutcome::Fail(V1MergeError::TypeMismatch),
        }
    } else if field == "dewPointTemperature"@ {
        match spec_num_of(val) {
            Some(x) => MergeOutcome::Done((OutsideView { dew_point_temperature: Some(num_leaf_view(x, src, ts)), ..g })),
            None => MergeOutcome::Fail(V1MergeError::TypeMismatch),
        }
    } else if field == "apparentWindChillTemperature"@ {
        match spec_num_of(val) {
            Some(x) => MergeOutcome::Done((OutsideView { apparent_wind_chill_temperature: Some(num_leaf_view(x, src, ts)), ..g })),
            None => MergeOutcome::Fail(V1MergeError::TypeMismatch),
        }
    } else if field == "theoreticalWindChillTemperature"@ {
        match spec_num_of(val) {
            Some(x) => MergeOutcome::Done((OutsideView { theoretical_wind_chill_temperature: Some(num_leaf_view(x, src, ts)), ..g })),
            None => MergeOutcome::Fail(V1MergeError::TypeMismatch),
        }
    } else if field == "heatIndexTemperature"@ {
        match spec_num_of(val) {
            Some(x) => MergeOutcome::Done((OutsideView { heat_index_temperature: Some(num_leaf_view(x, src, ts)), ..g })),
            None => MergeOutcome::Fail(V1MergeError::TypeMismatch),
        }
    } else if field == "pressure"@ {
        match spec_num_of(val) {
            Some(x) => MergeOutcome::Done((OutsideView { pressure: Some(num_leaf_view(x, src, ts)), ..g })),
            None => MergeOutcome::Fail(V1MergeError::TypeMismatch),
        }
    } else if field == "humidity"@ {
        match spec_num_of(val) {
            Some(x) => MergeOutcome::Done((OutsideView { humidity: Some(num_leaf_view(x, src, ts)), ..g })),
            None => MergeOutcome::Fail(V1MergeError::TypeMismatch),
        }
    } else if field == "relativeHumidity"@ {
        match spec_num_of(val) {
            Some(x) => MergeOutcome::Done((OutsideView { relative_humidity: Some(num_leaf_view(x, src, ts)), ..g })),
            None => MergeOutcome::Fail(V1MergeError::TypeMismatch),
        }
    } else if field == "airDensity"@ {
        match spec_num_of(val) {
            Some(x) => MergeOutcome::Done((OutsideView { air_density: Some(num_leaf_view(x, src, ts)), ..g })),
            None => MergeOutcome::Fail(V1MergeError::TypeMismatch),
        }
    } else if field == "illuminance"@ {
        match spec_num_of(val) {
            Some(x) => MergeOutcome::Done((OutsideView { illuminance: Some(num_leaf_view(x, src, ts)), ..g })),
            None => MergeOutcome::Fail(V1MergeError::TypeMismatch),
        }
    } else {
        MergeOutcome::Unknown
    }
}

/// Merges one numeric leaf into an `outside` block.
pub fn outside_apply_exec(
    g: &mut V1EnvironmentOutside,
    field: &str,
    val: V1Value,
    src: &str,
    ts: &str,
    touched: bool,
) -> (r: MergeAttempt)
    ensures
        ({
            let spec_r = outside_field_apply(old(g)@, field@, val, src@, ts@);
            match r {
                MergeAttempt::Applied(t2) => t2 == touched && spec_r == MergeOutcome::Done(
                    final(g)@,
                ),
                MergeAttempt::Unknown(v2) => spec_r == MergeOutcome::<OutsideView>::Unknown && v2 == val
                    && *final(g) == *old(g),
                MergeAttempt::Failed(e) => spec_r == MergeOutcome::<OutsideView>::Fail(e) && *final(g)
                    == *old(g),
            }
        }),
{
    let known = str_eq(field, "temperature") || str_eq(field, "dewPointTemperature") || str_eq(field, "apparentWindChillTemperature") || str_eq(field, "theoreticalWindChillTemperature") || str_eq(field, "heatIndexTemperature") || str_eq(field, "pressure") || str_eq(field, "humidity") || str_eq(field, "relativeHumidity") || str_eq(field, "airDensity") || str_eq(field, "illuminance");
    if !known {
        return MergeAttempt::Unknown(val);
    }
    match val {
        V1Value::Num(x) => {
            if str_eq(field, "temperature") {
                g.temperature = Some(make_num_leaf(x, src, ts));
            } else if str_eq(field, "dewPointTemperature") {
                g.dew_point_temperature = Some(make_num_leaf(x, src, ts));
            } else if str_eq(field, "apparentWindChillTemperature") {
                g.apparent_wind_chill_temperature = Some(make_num_leaf(x, src, ts));
            } else if str_eq(field, "theoreticalWindChillTemperature") {
                g.theoretical_wind_chill_temperature = Some(make_num_leaf(x, src, ts));
            } else if str_eq(field, "heatIndexTemperature") {
                g.heat_index_temperature = Some(make_num_leaf(x, src, ts));
            } else if str_eq(field, "pressure") {
                g.pressure = Some(make_num_leaf(x, src, ts));
            } else if str_eq(field, "humidity") {
                g.humidity = Some(make_num_leaf(x, src, ts));
            } else if str_eq(field, "relativeHumidity") {
                g.relative_humidity = Some(make_num_leaf(x, src, ts));
            } else if str_eq(field, "airDensity") {
                g.air_density = Some(make_num_leaf(x, src, ts));
            } else {
                g.illuminance = Some(make_num_leaf(x, src, ts));
            }
            MergeAttempt::Applied(touched)
        },
        _ => MergeAttempt::Failed(V1MergeError::TypeMismatch),
    }
}

/// Model of merging one numeric leaf into the `water` block.
pub open spec fn water_field_apply(
    g: WaterView,
    field: Seq<char>,
    val: V1Value,
    src: Seq<char>,
    ts: Seq<char>,
) -> MergeOutcome<WaterView> {
    if field == "temperature"@ {
        match spec_num_of(val) {
            Some(x) => MergeOutcome::Done((WaterView { temperature: Some(num_leaf_view(x, src, ts)), ..g })),
            None => MergeOutcome::Fail(V1MergeError::TypeMismatch),
        }
    } else if field == "salinity"@ {
        match spec_num_of(val) {
            Some(x) => MergeOutcome::Done((WaterView { salinity: Some(num_leaf_view(x, src, ts)), ..g })),
            None => MergeOutcome::Fail(V1MergeError::TypeMismatch),
        }
    } else {
        MergeOutcome::Unknown
    }
}

/// Merges one numeric leaf into a `water` block.
pub fn water_apply_exec(
    g: &mut V1EnvironmentWater,
    field: &str,
    val: V1Value,
    src: &str,
    ts: &str,
    touched: bool,
) -> (r: MergeAttempt)
    ensures
        ({
            let spec_r = water_field_apply(old(g)@, field@, val, src@, ts@);
            match r {
                MergeAttempt::Applied(t2) => t2 == touched && spec_r == MergeOutcome::Done(
                    final(g)@,
                ),
                MergeAttempt::Unknown(v2) => spec_r == MergeOutcome::<WaterView>::Unknown && v2 == val
                    && *final(g) == *old(g),
                MergeAttempt::Failed(e) => spec_r == MergeOutcome::<WaterView>::Fail(e) && *final(g)
                    == *old(g),
            }
        }),
{
    let known = str_eq(field, "temperature") || str_eq(field, "salinity");
    if !known {
        return MergeAttempt::Unknown(val);
    }
    match val {
        V1Value::Num(x) => {
            if str_eq(field, "temperature") {
                g.temperature = Some(make_num_leaf(x, src, ts));
            } else {
                g.salinity = Some(make_num_leaf(x, src, ts));
            }
            MergeAttempt::Applied(touched)
        },
        _ => MergeAttempt::Failed(V1MergeError::TypeMismatch),
    }
}

/// Model of merging one numeric leaf into the `depth` block.
pub open spec fn depth_field_apply(
    g: DepthView,
    field: Seq<char>,
    val: V1Value,
    src: Seq<char>,
    ts: Seq<char>,
) -> MergeOutcome<DepthView> {
    if field == "belowKeel"@ {
        match spec_num_of(val) {
            Some(x) => MergeOutcome::Done((DepthView { below_keel: Some(num_leaf_view(x, src, ts)), ..g })),
            None => MergeOutcome::Fail(V1MergeError::TypeMismatch),
        }
    } else if field == "belowTransducer"@ {
        match spec_num_of(val) {
            Some(x) => MergeOutcome::Done((DepthView { below_transducer: Some(num_leaf_view(x, src, ts)), ..g })),
            None => MergeOutcome::Fail(V1MergeError::TypeMismatch),
        }
    } else if field == "belowSurface"@ {
        match spec_num_of(val) {
            Some(x) => MergeOutcome::Done((DepthView { below_surface: Some(num_leaf_view(x, src, ts)), ..g })),
            None => MergeOutcome::Fail(V1MergeError::TypeMismatch),
        }
    } else if field == "transducerToKeel"@ {
        match spec_num_of(val) {
            Some(x) => MergeOutcome::Done((DepthView { transducer_to_keel: Some(num_leaf_view(x, src, ts)), ..g })),
            None => MergeOutcome::Fail(V1MergeError::TypeMismatch),
        }
    } else if field == "surfaceToTransducer"@ {
        match spec_num_of(val) {
            Some(x) => MergeOutcome::Done((DepthView { surface_to_transducer: Some(num_leaf_view(x, src, ts)), ..g })),
            None => MergeOutcome::Fail(V1MergeError::TypeMismatch),
        }
    } else {
        MergeOutcome::Unknown
    }
}

/// Merges one numeric leaf into a `depth` block.
pub fn depth_apply_exec(
    g: &mut V1EnvironmentDepth,
    field: &str,
    val: V1Value,
    src: &str,
    ts: &str,
    touched: bool,
) -> (r: MergeAttempt)
    ensures
        ({
            let spec_r = depth_field_apply(old(g)@, field@, val, src@, ts@);
            match r {
                MergeAttempt::Applied(t2) => t2 == touched && spec_r == MergeOutcome::Done(
                    final(g)@,
                ),
                MergeAttempt::Unknown(v2) => spec_r == MergeOutcome::<DepthView>::Unknown && v2 == val
                    && *final(g) == *old(g),
                MergeAttempt::Failed(e) => spec_r == MergeOutcome::<DepthView>::Fail(e) && *final(g)
                    == *old(g),
            }
        }),
{
    let known = str_eq(field, "belowKeel") || str_eq(field, "belowTransducer") || str_eq(field, "belowSurface") || str_eq(field, "transducerToKeel") || str_eq(field, "surfaceToTransducer");
    if !known {
        return MergeAttempt::Unknown(val);
    }
    match val {
        V1Value::Num(x) => {
            if str_eq(field, "belowKeel") {
                g.below_keel = Some(make_num_leaf(x, src, ts));
            } else if str_eq(field, "belowTransducer") {
                g.below_transducer = Some(make_num_leaf(x, src, ts));
            } else if str_eq(field, "belowSurface") {
                g.below_surface = Some(make_num_leaf(x, src, ts));
            } else if str_eq(field, "transducerToKeel") {
                g.transducer_to_keel = Some(make_num_leaf(x, src, ts));
            } else {
                g.surface_to_transducer = Some(make_num_leaf(x, src, ts));
            }
            MergeAttempt::Applied(touched)
        },
        _ => MergeAttempt::Failed(V1MergeError::TypeMismatch),
    }
}

/// Model of merging one numeric leaf into the `wind` block.
pub open spec fn wind_field_apply(
    g: WindView,
    field: Seq<char>,
    val: V1Value,
    src: Seq<char>,
    ts: Seq<char>,
) -> MergeOutcome<WindView> {
    if field == "angleApparent"@ {
        match spec_num_of(val) {
            Some(x) => MergeOutcome::Done((WindView { angle_apparent: Some(num_leaf_view(x, src, ts)), ..g })),
            None => MergeOutcome::Fail(V1MergeError::TypeMismatch),
        }
    } else if field == "angleTrueGround"@ {
        match spec_num_of(val) {
            Some(x) => MergeOutcome::Done((WindView { angle_true_ground: Some(num_leaf_view(x, src, ts)), ..g })),
            None => MergeOutcome::Fail(V1MergeError::TypeMismatch),
        }
    } else if field == "angleTrueWater"@ {
        match spec_num_of(val) {
            Some(x) => MergeOutcome::Done((WindView { angle_true_water: Some(num_leaf_view(x, src, ts)), ..g })),
            None => MergeOutcome::Fail(V1MergeError::TypeMismatch),
        }
    } else if field == "directionChangeAlarm"@ {
        match spec_num_of(val) {
            Some(x) => MergeOutcome::Done((WindView { direction_change_alarm: Some(num_leaf_view(x, src, ts)), ..g })),
            None => MergeOutcome::Fail(V1MergeError::TypeMismatch),
        }
    } else if field == "directionTrue"@ {
        match spec_num_of(val) {
            Some(x) => MergeOutcome::Done((WindView { direction_true: Some(num_leaf_view(x, src, ts)), ..g })),
            None => MergeOutcome::Fail(V1MergeError::TypeMismatch),
        }
    } else if field == "directionMagnetic"@ {
        match spec_num_of(val) {
            Some(x) => MergeOutcome::Done((WindView { direction_magnetic: Some(num_leaf_view(x, src, ts)), ..g })),
            None => MergeOutcome::Fail(V1MergeError::TypeMismatch),
        }
    } else if field == "speedTrue"@ {
        match spec_num_of(val) {
            Some(x) => MergeOutcome::Done((WindView { speed_true: Some(num_leaf_view(x, src, ts)), ..g })),
            None => MergeOutcome::Fail(V1MergeError::TypeMismatch),
        }
    } else if field == "speedOverGround"@ {
        match spec_num_of(val) {
            Some(x) => MergeOutcome::Done((WindView { speed_over_ground: Some(num_leaf_view(x, src, ts)), ..g })),
            None => MergeOutcome::Fail(V1MergeError::TypeMismatch),
        }
    } else if field == "speedApparent"@ {
        match spec_num_of(val) {
            Some(x) => MergeOutcome::Done((WindView { speed_apparent: Some(num_leaf_view(x, src, ts)), ..g })),
            None => MergeOutcome::Fail(V1MergeError::TypeMismatch),
        }
    } else {
        MergeOutcome::Unknown
    }
}

/// Merges one numeric leaf into a `wind` block.
pub fn wind_apply_exec(
    g: &mut V1EnvironmentWind,
    field: &str,
    val: V1Value,
    src: &str,
    ts: &str,
    touched: bool,
) -> (r: MergeAttempt)
    ensures
        ({
            let spec_r = wind_field_apply(old(g)@, field@, val, src@, ts@);
            match r {
                MergeAttempt::Applied(t2) => t2 == touched && spec_r == MergeOutcome::Done(
                    final(g)@,
                ),
                MergeAttempt::Unknown(v2) => spec_r == MergeOutcome::<WindView>::Unknown && v2 == val
                    && *final(g) == *old(g),
                MergeAttempt::Failed(e) => spec_r == MergeOutcome::<WindView>::Fail(e) && *final(g)
                    == *old(g),
            }
        }),
{
    let known = str_eq(field, "angleApparent") || str_eq(field, "angleTrueGround") || str_eq(field, "angleTrueWater") || str_eq(field, "directionChangeAlarm") || str_eq(field, "directionTrue") || str_eq(field, "directionMagnetic") || str_eq(field, "speedTrue") || str_eq(field, "speedOverGround") || str_eq(field, "speedApparent");
    if !known {
        return MergeAttempt::Unknown(val);
    }
    match val {
        V1Value::Num(x) => {
            if str_eq(field, "angleApparent") {
                g.angle_apparent = Some(make_num_leaf(x, src, ts));
            } else if str_eq(field, "angleTrueGround") {
                g.angle_true_ground = Some(make_num_leaf(x, src, ts));
            } else if str_eq(field, "angleTrueWater") {
                g.angle_true_water = Some(make_num_leaf(x, src, ts));
            } else if str_eq(field, "directionChangeAlarm") {
                g.direction_change_alarm = Some(make_num_leaf(x, src, ts));
            } else if str_eq(field, "directionTrue") {
                g.direction_true = Some(make_num_leaf(x, src, ts));
            } else if str_eq(field, "directionMagnetic") {
                g.direction_magnetic = Some(make_num_leaf(x, src, ts));
            } else if str_eq(field, "speedTrue") {
                g.speed_true = Some(make_num_leaf(x, src, ts));
            } else if str_eq(field, "speedOverGround") {
                g.speed_over_ground = Some(make_num_leaf(x, src, ts));
            } else {
                g.speed_apparent = Some(make_num_leaf(x, src, ts));
            }
            MergeAttempt::Applied(touched)
        },
        _ => MergeAttempt::Failed(V1MergeError::TypeMismatch),
    }
}

/// Model of merging one numeric leaf into the `zone` block.
pub open spec fn zone_field_apply(
    g: ZoneView,
    field: Seq<char>,
    val: V1Value,
    src: Seq<char>,
    ts: Seq<char>,
) -> MergeOutcome<ZoneView> {
    if field == "temperature"@ {
        match spec_num_of(val) {
            Some(x) => MergeOutcome::Done((ZoneView { temperature: Some(num_leaf_view(x, src, ts)), ..g })),
            None => MergeOutcome::Fail(V1MergeError::TypeMismatch),
        }
    } else if field == "heatIndexTemperature"@ {
        match spec_num_of(val) {
            Some(x) => MergeOutcome::Done((ZoneView { heat_index_temperature: Some(num_leaf_view(x, src, ts)), ..g })),
            None => MergeOutcome::Fail(V1MergeError::TypeMismatch),
        }
    } else if field == "pressure"@ {
        match spec_num_of(val) {
            Some(x) => MergeOutcome::Done((ZoneView { pressure: Some(num_leaf_view(x, src, ts)), ..g })),
            None => MergeOutcome::Fail(V1MergeError::TypeMismatch),
        }
    } else if field == "relativeHumidity"@ {
        match spec_num_of(val) {
            Some(x) => MergeOutcome::Done((ZoneView { relative_humidity: Some(num_leaf_view(x, src, ts)), ..g })),
            None => MergeOutcome::Fail(V1MergeError::TypeMismatch),
        }
    } else if field == "dewPoint"@ {
        match spec_num_of(val) {
            Some(x) => MergeOutcome::Done((ZoneView { dew_point: Some(num_leaf_view(x, src, ts)), ..g })),
            None => MergeOutcome::Fail(V1MergeError::TypeMismatch),
        }
    } else if field == "dewPointTemperature"@ {
        match spec_num_of(val) {
            Some(x) => MergeOutcome::Done((ZoneView { dew_point_temperature: Some(num_leaf_view(x, src, ts)), ..g })),
            None => MergeOutcome::Fail(V1MergeError::TypeMismatch),
        }
    } else if field == "airDensity"@ {
        match spec_num_of(val) {
            Some(x) => MergeOutcome::Done((ZoneView { air_density: Some(num_leaf_view(x, src, ts)), ..g })),
            None => MergeOutcome::Fail(V1MergeError::TypeMismatch),
        }
    } else if field == "illuminance"@ {
        match spec_num_of(val) {
            Some(x) => MergeOutcome::Done((ZoneView { illuminance: Some(num_leaf_view(x, src, ts)), ..g })),
            None => MergeOutcome::Fail(V1MergeError::TypeMismatch),
        }
    } else {
        MergeOutcome::Unknown
    }
}

/// Merges one numeric leaf into a `zone` block.
pub fn zone_apply_exec(
    g: &mut V1EnvironmentZone,
    field: &str,
    val: V1Value,
    src: &str,
    ts: &str,
    touched: bool,
) -> (r: MergeAttempt)
    ensures
        ({
            let spec_r = zone_field_apply(old(g)@, field@, val, src@, ts@);
            match r {
                MergeAttempt::Applied(t2) => t2 == touched && spec_r == MergeOutcome::Done(
                    final(g)@,
                ),
                MergeAttempt::Unknown(v2) => spec_r == MergeOutcome::<ZoneView>::Unknown && v2 == val
                    && *final(g) == *old(g),
                MergeAttempt::Failed(e) => spec_r == MergeOutcome::<ZoneView>::Fail(e) && *final(g)
                    == *old(g),
            }
        }),
{
    let known = str_eq(field, "temperature") || str_eq(field, "heatIndexTemperature") || str_eq(field, "pressure") || str_eq(field, "relativeHumidity") || str_eq(field, "dewPoint") || str_eq(field, "dewPointTemperature") || str_eq(field, "airDensity") || str_eq(field, "illuminance");
    if !known {
        return MergeAttempt::Unknown(val);
    }
    match val {
        V1Value::Num(x) => {
            if str_eq(field, "temperature") {
                g.temperature = Some(make_num_leaf(x, src, ts));
            } else if str_eq(field, "heatIndexTemperature") {
                g.heat_index_temperature = Some(make_num_leaf(x, src, ts));
            } else if str_eq(field, "pressure") {
                g.pressure = Some(make_num_leaf(x, src, ts));
            } else if str_eq(field, "relativeHumidity") {
                g.relative_humidity = Some(make_num_leaf(x, src, ts));
            } else if str_eq(field, "dewPoint") {
                g.dew_point = Some(make_num_leaf(x, src, ts));
            } else if str_eq(field, "dewPointTemperature") {
                g.dew_point_temperature = Some(make_num_leaf(x, src, ts));
            } else if str_eq(field, "airDensity") {
                g.air_density = Some(make_num_leaf(x, src, ts));
            } else {
                g.illuminance = Some(make_num_leaf(x, src, ts));
            }
            MergeAttempt::Applied(touched)
        },
        _ => MergeAttempt::Failed(V1MergeError::TypeMismatch),
    }
}
/// Model of merging one record into the environment block.
pub open spec fn env_apply(
    e: EnvironmentView,
    segs: Seq<Seq<char>>,
    val: V1Value,
    src: Seq<char>,
    ts: Seq<char>,
) -> MergeOutcome<EnvironmentView> {
    if segs.len() == 0 {
        MergeOutcome::Fail(V1MergeError::TypeMismatch)
    } else if segs[0] == "outside"@ {
        if segs.len() == 1 {
            MergeOutcome::Fail(V1MergeError::TypeMismatch)
        } else if segs.len() == 2 {
            let g0 = match e.outside {
                Some(g0) => g0,
                None => OutsideView::empty(),
            };
            match outside_field_apply(g0, segs[1], val, src, ts) {
                MergeOutcome::Done(g2) => MergeOutcome::Done(
                    (EnvironmentView { outside: Some(g2), ..e }),
                ),
                MergeOutcome::Unknown => MergeOutcome::Unknown,
                MergeOutcome::Fail(er) => MergeOutcome::Fail(er),
            }
        } else {
            MergeOutcome::Fail(V1MergeError::UnknownSegment)
        }
    } else if segs[0] == "water"@ {
        if segs.len() == 1 {
            MergeOutcome::Fail(V1MergeError::TypeMismatch)
        } else if segs.len() == 2 {
            let g0 = match e.water {
                Some(g0) => g0,
                None => WaterView::empty(),
            };
            match water_field_apply(g0, segs[1], val, src, ts) {
                MergeOutcome::Done(g2) => MergeOutcome::Done(
                    (EnvironmentView { water: Some(g2), ..e }),
                ),
                MergeOutcome::Unknown => MergeOutcome::Unknown,
                MergeOutcome::Fail(er) => MergeOutcome::Fail(er),
            }
        } else {
            MergeOutcome::Fail(V1MergeError::UnknownSegment)
        }
    } else if segs[0] == "depth"@ {
        if segs.len() == 1 {
            MergeOutcome::Fail(V1MergeError::TypeMismatch)
        } else if segs.len() == 2 {
            let g0 = match e.depth {
                Some(g0) => g0,
                None => DepthView::empty(),
            };
            match depth_field_apply(g0, segs[1], val, src, ts) {
                MergeOutcome::Done(g2) => MergeOutcome::Done(
                    (EnvironmentView { depth: Some(g2), ..e }),
                ),
                MergeOutcome::Unknown => MergeOutcome::Unknown,
                MergeOutcome::Fail(er) => MergeOutcome::Fail(er),
            }
        } else {
            MergeOutcome::Fail(V1MergeError::UnknownSegment)
        }
    } else if segs[0] == "wind"@ {
        if segs.len() == 1 {
            MergeOutcome::Fail(V1MergeError::TypeMismatch)
        } else if segs.len() == 2 {
            let g0 = match e.wind {
                Some(g0) => g0,
                None => WindView::empty(),
            };
            match wind_field_apply(g0, segs[1], val, src, ts) {
                MergeOutcome::Done(g2) => MergeOutcome::Done(
                    (EnvironmentView { wind: Some(g2), ..e }),
                ),
                MergeOutcome::Unknown => MergeOutcome::Unknown,
                MergeOutcome::Fail(er) => MergeOutcome::Fail(er),
            }
        } else {
            MergeOutcome::Fail(V1MergeError::UnknownSegment)
        }
    } else if segs[0] == "heave"@ {
        if segs.len() == 1 {
            match spec_num_of(val) {
                Some(x) => MergeOutcome::Done(
                    (EnvironmentView { heave: Some(num_leaf_view(x, src, ts)), ..e }),
                ),
                None => MergeOutcome::Fail(V1MergeError::TypeMismatch),
            }
        } else {
            MergeOutcome::Fail(V1MergeError::UnknownSegment)
        }
    } else if segs[0] == "inside"@ {
        if segs.len() < 3 {
            MergeOutcome::Fail(V1MergeError::TypeMismatch)
        } else if segs.len() == 3 {
            let m = match e.inside {
                Some(m) => m,
                None => Map::empty(),
            };
            let z = if m.dom().contains(segs[1]) {
                m[segs[1]]
            } else {
                ZoneView::empty()
            };
            match zone_field_apply(z, segs[2], val, src, ts) {
                MergeOutcome::Done(z2) => MergeOutcome::Done(
                    (EnvironmentView { inside: Some(m.insert(segs[1], z2)), ..e }),
                ),
                MergeOutcome::Unknown => MergeOutcome::Unknown,
                MergeOutcome::Fail(er) => MergeOutcome::Fail(er),
            }
        } else {
            MergeOutcome::Fail(V1MergeError::UnknownSegment)
        }
    } else if segs.len() == 1 {
        MergeOutcome::Unknown
    } else {
        MergeOutcome::Fail(V1MergeError::UnknownSegment)
    }
}

/// Merges one record into an environment block.
pub fn env_apply_exec(
    env: &mut V1Environment,
    segs: &Vec<String>,
    at: usize,
    val: V1Value,
    src: &str,
    ts: &str,
    touched: bool,
) -> (r: MergeAttempt)
    requires
        at <= segs@.len(),
    ensures
        ({
            let spec_r = env_apply(
                old(env)@,
                segs@.skip(at as int).map_values(|x: String| x@),
                val,
                src@,
                ts@,
            );
            match r {
                MergeAttempt::Applied(t2) => t2 == touched && spec_r == MergeOutcome::Done(
                    final(env)@,
                ),
                MergeAttempt::Unknown(v2) => spec_r == MergeOutcome::<EnvironmentView>::Unknown
                    && v2 == val && *final(env) == *old(env),
                MergeAttempt::Failed(e) => spec_r == MergeOutcome::<EnvironmentView>::Fail(e)
                    && *final(env) == *old(env),
            }
        }),
{
    let ghost sv = segs@.skip(at as int).map_values(|x: String| x@);
    let nn = segs.len();
    if at == nn {
        return MergeAttempt::Failed(V1MergeError::TypeMismatch);
    }
    proof {
        assert(sv[0] == segs@[at as int]@);
    }
    let seg = segs[at].as_str();
    if false {
        MergeAttempt::Failed(V1MergeError::TypeMismatch)
    } else if str_eq(seg, "outside") {
        if nn - at == 1 {
            return MergeAttempt::Failed(V1MergeError::TypeMismatch);
        }
        if nn - at > 2 {
            return MergeAttempt::Failed(V1MergeError::UnknownSegment);
        }
        proof {
            assert(sv[1] == segs@[at as int + 1]@);
        }
        let had = env.outside.is_some();
        let mut cur: Option<V1EnvironmentOutside> = None;
        std::mem::swap(&mut env.outside, &mut cur);
        let mut g0 = match cur {
            Some(g0) => g0,
            None => V1EnvironmentOutside::default(),
        };
        let r = outside_apply_exec(&mut g0, segs[at + 1].as_str(), val, src, ts, touched);
        match r {
            MergeAttempt::Applied(_) => {
                env.outside = Some(g0);
                proof {
                    assert(final(env)@ =~= (EnvironmentView {
                        outside: Some(g0@),
                        ..old(env)@
                    }));
                }
                r
            },
            _ => {
                if had {
                    env.outside = Some(g0);
                }
                proof {
                    assert(*final(env) == *old(env));
                }
                r
            },
        }
    } else if str_eq(seg, "water") {
        if nn - at == 1 {
            return MergeAttempt::Failed(V1MergeError::TypeMismatch);
        }
        if nn - at > 2 {
            return MergeAttempt::Failed(V1MergeError::UnknownSegment);
        }
        proof {
            assert(sv[1] == segs@[at as int + 1]@);
        }
        let had = env.water.is_some();
        let mut cur: Option<V1EnvironmentWater> = None;
        std::mem::swap(&mut env.water, &mut cur);
        let mut g0 = match cur {
            Some(g0) => g0,
            None => V1EnvironmentWater::default(),
        };
        let r = water_apply_exec(&mut g0, segs[at + 1].as_str(), val, src, ts, touched);
        match r {
            MergeAttempt::Applied(_) => {
                env.water = Some(g0);
                proof {
                    assert(final(env)@ =~= (EnvironmentView {
                        water: Some(g0@),
                        ..old(env)@
                    }));
                }
                r
            },
            _ => {
                if had {
                    env.water = Some(g0);
                }
                proof {
                    assert(*final(env) == *old(env));
                }
                r
            },
        }
    } else if str_eq(seg, "depth") {
        if nn - at == 1 {
            return MergeAttempt::Failed(V1MergeError::TypeMismatch);
        }
        if nn - at > 2 {
            return MergeAttempt::Failed(V1MergeError::UnknownSegment);
        }
        proof {
            assert(sv[1] == segs@[at as int + 1]@);
        }
        let had = env.depth.is_some();
        let mut cur: Option<V1EnvironmentDepth> = None;
        std::mem::swap(&mut env.depth, &mut cur);
        let mut g0 = match cur {
            Some(g0) => g0,
            None => V1EnvironmentDepth::default(),
        };
        let r = depth_apply_exec(&mut g0, segs[at + 1].as_str(), val, src, ts, touched);
        match r {
            MergeAttempt::Applied(_) => {
                env.depth = Some(g0);
                proof {
                    assert(final(env)@ =~= (EnvironmentView {
                        depth: Some(g0@),
                        ..old(env)@
                    }));
                }
                r
            },
            _ => {
                if had {
                    env.depth = Some(g0);
                }
                proof {
                    assert(*final(env) == *old(env));
                }
                r
            },
        }
    } else if str_eq(seg, "wind") {
        if nn - at == 1 {
            return MergeAttempt::Failed(V1MergeError::TypeMismatch);
        }
        if nn - at > 2 {
            return MergeAttempt::Failed(V1MergeError::UnknownSegment);
        }
        proof {
            assert(sv[1] == segs@[at as int + 1]@);
        }
        let had = env.wind.is_some();
        let mut cur: Option<V1EnvironmentWind> = None;
        std::mem::swap(&mut env.wind, &mut cur);
        let mut g0 = match cur {
            Some(g0) => g0,
            None => V1EnvironmentWind::default(),
        };
        let r = wind_apply_exec(&mut g0, segs[at + 1].as_str(), val, src, ts, touched);
        match r {
            MergeAttempt::Applied(_) => {
                env.wind = Some(g0);
                proof {
                    assert(final(env)@ =~= (EnvironmentView {
                        wind: Some(g0@),
                        ..old(env)@
                    }));
                }
                r
            },
            _ => {
                if had {
                    env.wind = Some(g0);
                }
                proof {
                    assert(*final(env) == *old(env));
                }
                r
            },
        }
    } else if str_eq(seg, "heave") {
        if nn - at > 1 {
            return MergeAttempt::Failed(V1MergeError::UnknownSegment);
        }
        match val {
            V1Value::Num(x) => {
                env.heave = Some(make_num_leaf(x, src, ts));
                proof {
                    assert(final(env)@ =~= (EnvironmentView {
                        heave: Some(num_leaf_view(x, src@, ts@)),
                        ..old(env)@
                    }));
                }
                MergeAttempt::Applied(touched)
            },
            _ => MergeAttempt::Failed(V1MergeError::TypeMismatch),
        }
    } else if str_eq(seg, "inside") {
        if nn - at < 3 {
            return MergeAttempt::Failed(V1MergeError::TypeMismatch);
        }
        if nn - at > 3 {
            return MergeAttempt::Failed(V1MergeError::UnknownSegment);
        }
        proof {
            assert(sv.len() == 3);
            assert(sv[1] == segs@[at as int + 1]@);
            assert(sv[2] == segs@[at as int + 2]@);
        }
        let field = segs[at + 2].as_str();
        let known = str_eq(field, "temperature") || str_eq(field, "heatIndexTemperature")
            || str_eq(field, "pressure") || str_eq(field, "relativeHumidity") || str_eq(
            field,
            "dewPoint",
        ) || str_eq(field, "dewPointTemperature") || str_eq(field, "airDensity") || str_eq(
            field,
            "illuminance",
        );
        if !known {
            return MergeAttempt::Unknown(val);
        }
        match &val {
            V1Value::Num(_) => {},
            _ => {
                return MergeAttempt::Failed(V1MergeError::TypeMismatch);
            },
        }
        let key = &segs[at + 1];
        let mut cur: Option<V1EnvironmentInside> = None;
        std::mem::swap(&mut env.inside, &mut cur);
        let mut inside = match cur {
            Some(i) => i,
            None => V1EnvironmentInside { zones: crate::strmap::StrMap::new() },
        };
        let ghost m0 = inside.zones@;
        let mut zone = match inside.zones.take(key.as_str()) {
            Some(z) => z,
            None => V1EnvironmentZone::default(),
        };
        let ghost z0 = zone@;
        let r = zone_apply_exec(&mut zone, field, val, src, ts, touched);
        match r {
            MergeAttempt::Applied(_) => {
                let ghost z2 = zone@;
                inside.zones.insert(key.clone(), zone);
                env.inside = Some(inside);
                proof {
                    let f = |z: V1EnvironmentZone| z@;
                    let mv = match old(env)@.inside {
                        Some(x) => x,
                        None => Map::<Seq<char>, ZoneView>::empty(),
                    };
                    assert(mv =~= m0.map_values(f));
                    assert(mv.dom() =~= m0.dom());
                    if m0.dom().contains(sv[1]) {
                        assert(mv[sv[1]] == f(m0[sv[1]]));
                        assert(z0 == mv[sv[1]]);
                    }
                    assert(final(env).inside->0@ =~= mv.insert(sv[1], z2));
                    assert(final(env)@ =~= (EnvironmentView {
                        inside: Some(mv.insert(sv[1], z2)),
                        ..old(env)@
                    }));
                }
                r
            },
            MergeAttempt::Unknown(_) => {
                proof {
                    assert(false);
                }
                r
            },
            MergeAttempt::Failed(_) => {
                proof {
                    assert(false);
                }
                r
            },
        }
    } else if nn - at == 1 {
        MergeAttempt::Unknown(val)
    } else {
        MergeAttempt::Failed(V1MergeError::UnknownSegment)
    }
}

/// Model of merging one record into one battery's field.  The chemistry is a
/// string leaf; voltage, current and temperature set the reading inside the
/// battery's DC measurements, keeping whatever else those entries hold.
pub open spec fn battery_field_apply(
    b: BatteryView,
    field: Seq<char>,
    val: V1Value,
    src: Seq<char>,
    ts: Seq<char>,
) -> MergeOutcome<BatteryView> {
    if field == "chemistry"@ {
        match val {
            V1Value::Str(s) => MergeOutcome::Done((BatteryView { chemistry: Some(s), ..b })),
            _ => MergeOutcome::Fail(V1MergeError::TypeMismatch),
        }
    } else if field == "voltage"@ {
        match spec_num_of(val) {
            Some(x) => {
                let dc = match b.dc_qualities {
                    Some(dc) => dc,
                    None => DCQualitiesView::empty(),
                };
                let v0 = match dc.voltage {
                    Some(v0) => v0,
                    None => DCVoltageValueView { value: None, ripple: None, meta: None },
                };
                MergeOutcome::Done(
                    (BatteryView {
                        dc_qualities: Some(DCQualitiesView {
                            voltage: Some(DCVoltageValueView {
                                value: Some(num_leaf_view(x, src, ts)),
                                ..v0
                            }),
                            ..dc
                        }),
                        ..b
                    }),
                )
            },
            None => MergeOutcome::Fail(V1MergeError::TypeMismatch),
        }
    } else if field == "current"@ {
        match spec_num_of(val) {
            Some(x) => {
                let dc = match b.dc_qualities {
                    Some(dc) => dc,
                    None => DCQualitiesView::empty(),
                };
                let v0 = match dc.current {
                    Some(v0) => v0,
                    None => DCCurrentValueView { value: None, meta: None },
                };
                MergeOutcome::Done(
                    (BatteryView {
                        dc_qualities: Some(DCQualitiesView {
                            current: Some(DCCurrentValueView {
                                value: Some(num_leaf_view(x, src, ts)),
                                ..v0
                            }),
                            ..dc
                        }),
                        ..b
                    }),
                )
            },
            None => MergeOutcome::Fail(V1MergeError::TypeMismatch),
        }
    } else if field == "temperature"@ {
        match spec_num_of(val) {
            Some(x) => {
                let dc = match b.dc_qualities {
                    Some(dc) => dc,
                    None => DCQualitiesView::empty(),
                };
                let v0 = match dc.temperature {
                    Some(v0) => v0,
                    None => DCTemperatureValueView {
                        value: None,
                        warn_upper: None,
                        warn_lower: None,
                        fault_upper: None,
                        fault_lower: None,
                    },
                };
                MergeOutcome::Done(
                    (BatteryView {
                        dc_qualities: Some(DCQualitiesView {
                            temperature: Some(DCTemperatureValueView {
                                value: Some(num_leaf_view(x, src, ts)),
                                ..v0
                            }),
                            ..dc
                        }),
                        ..b
                    }),
                )
            },
            None => MergeOutcome::Fail(V1MergeError::TypeMismatch),
        }
    } else {
        MergeOutcome::Unknown
    }
}

/// Model of merging one record into the electrical block; the battery family
/// is the one addressed through paths.
pub open spec fn elec_apply(
    e: ElectricalView,
    segs: Seq<Seq<char>>,
    val: V1Value,
    src: Seq<char>,
    ts: Seq<char>,
) -> MergeOutcome<ElectricalView> {
    if segs.len() == 0 {
        MergeOutcome::Fail(V1MergeError::TypeMismatch)
    } else if segs[0] == "batteries"@ {
        if segs.len() < 3 {
            MergeOutcome::Fail(V1MergeError::TypeMismatch)
        } else if segs.len() == 3 {
            let m = match e.batteries {
                Some(m) => m,
                None => Map::empty(),
            };
            let b = if m.dom().contains(segs[1]) {
                m[segs[1]]
            } else {
                BatteryView::empty()
            };
            match battery_field_apply(b, segs[2], val, src, ts) {
                MergeOutcome::Done(b2) => MergeOutcome::Done(
                    (ElectricalView { batteries: Some(m.insert(segs[1], b2)), ..e }),
                ),
                MergeOutcome::Unknown => MergeOutcome::Unknown,
                MergeOutcome::Fail(er) => MergeOutcome::Fail(er),
            }
        } else {
            MergeOutcome::Fail(V1MergeError::UnknownSegment)
        }
    } else if segs.len() == 1 {
        MergeOutcome::Unknown
    } else {
        MergeOutcome::Fail(V1MergeError::UnknownSegment)
    }
}

/// Merges one record into one battery.  The caller has already checked the
/// field and the payload, so this cannot fail.
fn battery_apply_exec(b: &mut V1Battery, field: &str, val: V1Value, src: &str, ts: &str)
    requires
        battery_field_apply(old(b)@, field@, val, src@, ts@) is Done,
    ensures
        battery_field_apply(old(b)@, field@, val, src@, ts@) == MergeOutcome::Done(final(b)@),
{
    if str_eq(field, "chemistry") {
        match val {
            V1Value::Str(s) => {
                b.chemistry = Some(s);
            },
            _ => {
                proof {
                    assert(false);
                }
            },
        }
    } else {
        let x = match &val {
            V1Value::Num(x) => *x,
            _ => {
                proof {
                    assert(false);
                }
                V1Num { bits: 0 }
            },
        };
        let mut dccur: Option<V1ElectricalDCQualities> = None;
        std::mem::swap(&mut b.dc_qualities, &mut dccur);
        let mut dc = match dccur {
            Some(dc) => dc,
            None => V1ElectricalDCQualities {
                associated_bus: None,
                voltage: None,
                current: None,
                temperature: None,
            },
        };
        if str_eq(field, "voltage") {
            let mut vcur: Option<V1ElectricalDCVoltageValue> = None;
            std::mem::swap(&mut dc.voltage, &mut vcur);
            let mut v0 = match vcur {
                Some(v0) => v0,
                None => V1ElectricalDCVoltageValue { value: None, ripple: None, meta: None },
            };
            v0.value = Some(make_num_leaf(x, src, ts));
            dc.voltage = Some(v0);
        } else if str_eq(field, "current") {
            let mut vcur: Option<V1ElectricalDCCurrentValue> = None;
            std::mem::swap(&mut dc.current, &mut vcur);
            let mut v0 = match vcur {
                Some(v0) => v0,
                None => V1ElectricalDCCurrentValue { value: None, meta: None },
            };
            v0.value = Some(make_num_leaf(x, src, ts));
            dc.current = Some(v0);
        } else {
            let mut vcur: Option<V1ElectricalDCTemperatureValue> = None;
            std::mem::swap(&mut dc.temperature, &mut vcur);
            let mut v0 = match vcur {
                Some(v0) => v0,
                None => V1ElectricalDCTemperatureValue {
                    value: None,
                    warn_upper: None,
                    warn_lower: None,
                    fault_upper: None,
                    fault_lower: None,
                },
            };
            v0.value = Some(make_num_leaf(x, src, ts));
            dc.temperature = Some(v0);
        }
        b.dc_qualities = Some(dc);
    }
}

/// Merges one record into an electrical block.
pub fn elec_apply_exec(
    elec: &mut V1Electrical,
    segs: &Vec<String>,
    at: usize,
    val: V1Value,
    src: &str,
    ts: &str,
    touched: bool,
) -> (r: MergeAttempt)
    requires
        at <= segs@.len(),
    ensures
        ({
            let spec_r = elec_apply(
                old(elec)@,
                segs@.skip(at as int).map_values(|x: String| x@),
                val,
                src@,
                ts@,
            );
            match r {
                MergeAttempt::Applied(t2) => t2 == touched && spec_r == MergeOutcome::Done(
                    final(elec)@,
                ),
                MergeAttempt::Unknown(v2) => spec_r == MergeOutcome::<ElectricalView>::Unknown
                    && v2 == val && *final(elec) == *old(elec),
                MergeAttempt::Failed(e) => spec_r == MergeOutcome::<ElectricalView>::Fail(e)
                    && *final(elec) == *old(elec),
            }
        }),
{
    let ghost sv = segs@.skip(at as int).map_values(|x: String| x@);
    let nn = segs.len();
    if at == nn {
        return MergeAttempt::Failed(V1MergeError::TypeMismatch);
    }
    proof {
        assert(sv[0] == segs@[at as int]@);
    }
    let seg = segs[at].as_str();
    if str_eq(seg, "batteries") {
        if nn - at < 3 {
            return MergeAttempt::Failed(V1MergeError::TypeMismatch);
        }
        if nn - at > 3 {
            return MergeAttempt::Failed(V1MergeError::UnknownSegment);
        }
        proof {
            assert(sv.len() == 3);
            assert(sv[1] == segs@[at as int + 1]@);
            assert(sv[2] == segs@[at as int + 2]@);
        }
        let field = segs[at + 2].as_str();
        let is_chem = str_eq(field, "chemistry");
        let is_num = !is_chem && (str_eq(field, "voltage") || str_eq(field, "current") || str_eq(
            field,
            "temperature",
        ));
        if is_chem {
            match &val {
                V1Value::Str(_) => {},
                _ => {
                    return MergeAttempt::Failed(V1MergeError::TypeMismatch);
                },
            }
        } else if is_num {
            match &val {
                V1Value::Num(_) => {},
                _ => {
                    return MergeAttempt::Failed(V1MergeError::TypeMismatch);
                },
            }
        } else {
            return MergeAttempt::Unknown(val);
        }
        let key = &segs[at + 1];
        let mut cur: Option<crate::strmap::StrMap<V1Battery>> = None;
        std::mem::swap(&mut elec.batteries, &mut cur);
        let mut m = match cur {
            Some(m) => m,
            None => crate::strmap::StrMap::new(),
        };
        let ghost m0 = m@;
        let mut battery = match m.take(key.as_str()) {
            Some(b) => b,
            None => V1Battery {
                identity: None,
                dc_qualities: None,
                chemistry: None,
                temperature: None,
                capacity: None,
                lifetime_discharge: None,
                lifetime_recharge: None,
            },
        };
        let ghost b0 = battery@;
        proof {
            if !m0.dom().contains(sv[1]) {
                assert(b0 =~= BatteryView::empty());
            }
        }
        battery_apply_exec(&mut battery, field, val, src, ts);
        let ghost b2 = battery@;
        m.insert(key.clone(), battery);
        elec.batteries = Some(m);
        proof {
            let f = |b: V1Battery| b@;
            let mv = match old(elec)@.batteries {
                Some(x) => x,
                None => Map::<Seq<char>, BatteryView>::empty(),
            };
            assert(mv =~= m0.map_values(f));
            assert(mv.dom() =~= m0.dom());
            if m0.dom().contains(sv[1]) {
                assert(mv[sv[1]] == f(m0[sv[1]]));
                assert(b0 == mv[sv[1]]);
            }
            assert(final(elec).batteries->0@.map_values(f) =~= mv.insert(sv[1], b2));
            assert(final(elec)@ =~= (ElectricalView {
                batteries: Some(mv.insert(sv[1], b2)),
                ..old(elec)@
            }));
        }
        MergeAttempt::Applied(touched)
    } else if nn - at == 1 {
        MergeAttempt::Unknown(val)
    } else {
        MergeAttempt::Failed(V1MergeError::UnknownSegment)
    }
}


/// The characters of a string wire value; empty for any other shape.
pub open spec fn str_of(v: V1Value) -> Seq<char> {
    match v {
        V1Value::Str(s) => s@,
        _ => Seq::empty(),
    }
}

/// Whether the optional `method` field of a notification object is absent or
/// an array of strings.
pub open spec fn method_ok(met: Option<V1Value>) -> bool {
    match met {
        None => true,
        Some(V1Value::Array(a)) => forall|i: int| 0 <= i < a@.len() ==> a@[i] is Str,
        Some(_) => false,
    }
}

/// The announcement methods of a notification object.
pub open spec fn methods_of(met: Option<V1Value>) -> Seq<Seq<char>> {
    match met {
        Some(V1Value::Array(a)) => a@.map_values(|v: V1Value| str_of(v)),
        _ => Seq::empty(),
    }
}

/// The notification payload described by an object's fields: `state` and
/// `message` must be strings, `method` may list announcement methods.
pub open spec fn notif_value_of(fields: Seq<(String, V1Value)>) -> Option<NotificationValueView> {
    let st = spec_obj_get(fields, "state"@);
    let msg = spec_obj_get(fields, "message"@);
    let met = spec_obj_get(fields, "method"@);
    if (st matches Some(V1Value::Str(_))) && (msg matches Some(V1Value::Str(_))) && method_ok(
        met,
    ) {
        Some(NotificationValueView {
            method: methods_of(met),
            state: str_of(st->0),
            message: str_of(msg->0),
        })
    } else {
        None
    }
}

/// Reads a notification payload out of an object's fields.
fn parse_notification_value(fields: &Vec<(String, V1Value)>) -> (r: Option<V1NotificationValue>)
    ensures
        match r {
            Some(nv) => notif_value_of(fields@) == Some(nv@),
            None => notif_value_of(fields@) is None,
        },
{
    let state: String = match V1Value::obj_get(fields, "state") {
        Some(v) => match v {
            V1Value::Str(s) => s.clone(),
            _ => {
                return None;
            },
        },
        None => {
            return None;
        },
    };
    let message: String = match V1Value::obj_get(fields, "message") {
        Some(v) => match v {
            V1Value::Str(s) => s.clone(),
            _ => {
                return None;
            },
        },
        None => {
            return None;
        },
    };
    let method: Vec<String> = match V1Value::obj_get(fields, "method") {
        Some(v) => match v {
            V1Value::Array(a) => {
                let mut ms: Vec<String> = Vec::new();
                let n = a.len();
                for i in 0..n
                    invariant
                        n == a@.len(),
                        ms@.len() == i,
                        spec_obj_get(fields@, "method"@) matches Some(x) && x is Array
                            && x->Array_0 == *a,
                        forall|j: int| 0 <= j < i ==> a@[j] is Str,
                        forall|j: int| 0 <= j < i ==> #[trigger] ms@[j]@ == str_of(a@[j]),
                {
                    match &a[i] {
                        V1Value::Str(s) => {
                            ms.push(s.clone());
                        },
                        _ => {
                            proof {
                                assert(!(a@[i as int] is Str));
                                assert(!method_ok(spec_obj_get(fields@, "method"@)));
                            }
                            return None;
                        },
                    }
                }
                proof {
                    assert(ms@.map_values(|m: String| m@) =~= a@.map_values(
                        |v: V1Value| str_of(v),
                    ));
                }
                ms
            },
            _ => {
                return None;
            },
        },
        None => Vec::new(),
    };
    let r = V1NotificationValue { method, state, message };
    proof {
        assert(notif_value_of(fields@) == Some(r@)) by {
            assert(notif_value_of(fields@)->0 =~= r@);
        }
    }
    Some(r)
}

/// Model of merging one record into the notification tree: the remaining
/// segments name nested categories, created on demand, and the record's
/// object payload becomes the addressed node's value, stamped with the batch
/// provenance.
pub open spec fn notif_apply(
    n: NotificationView,
    segs: Seq<Seq<char>>,
    val: V1Value,
    src: Seq<char>,
    ts: Seq<char>,
) -> MergeOutcome<NotificationView>
    decreases segs.len(),
{
    if segs.len() == 0 {
        match val {
            V1Value::Object(fields) => match notif_value_of(fields@) {
                Some(nv) => MergeOutcome::Done(
                    (NotificationView {
                        value: Some(nv),
                        common_value_fields: Some(CommonFieldsView {
                            timestamp: ts,
                            source: src,
                            attr: None,
                            meta: None,
                            pgn: None,
                            sentence: None,
                        }),
                        childs: n.childs,
                    }),
                ),
                None => MergeOutcome::Fail(V1MergeError::TypeMismatch),
            },
            _ => MergeOutcome::Fail(V1MergeError::TypeMismatch),
        }
    } else {
        let child = if n.childs.dom().contains(segs[0]) {
            n.childs[segs[0]]
        } else {
            NotificationView::empty()
        };
        match notif_apply(child, segs.drop_first(), val, src, ts) {
            MergeOutcome::Done(c2) => MergeOutcome::Done(
                (NotificationView { childs: n.childs.insert(segs[0], c2), ..n }),
            ),
            MergeOutcome::Unknown => MergeOutcome::Unknown,
            MergeOutcome::Fail(e) => MergeOutcome::Fail(e),
        }
    }
}

/// The name bound at an index is in the child map.
proof fn lemma_notif_childs_contains(s: Seq<(String, V1Notification)>, i: int)
    requires
        0 <= i < s.len(),
    ensures
        notif_childs_view(s).dom().contains(s[i].0@),
    decreases s.len(),
{
    if i > 0 {
        lemma_notif_childs_contains(s.drop_first(), i - 1);
        assert(s.drop_first()[i - 1] == s[i]);
    }
}

/// If no entry binds a name, the child map lacks it.
proof fn lemma_notif_childs_absent(s: Seq<(String, V1Notification)>, k: Seq<char>)
    requires
        forall|i: int| 0 <= i < s.len() ==> s[i].0@ != k,
    ensures
        !notif_childs_view(s).dom().contains(k),
    decreases s.len(),
{
    if s.len() > 0 {
        assert forall|i: int| 0 <= i < s.drop_first().len()
            implies s.drop_first()[i].0@ != k by {
            assert(s.drop_first()[i] == s[i + 1]);
        }
        lemma_notif_childs_absent(s.drop_first(), k);
    }
}

/// At the first index binding a name, the child map holds that entry's node,
/// and replacing the entry there rebinds exactly that name.
proof fn lemma_notif_childs_first(s: Seq<(String, V1Notification)>, i: int, c: V1Notification)
    requires
        0 <= i < s.len(),
        forall|j: int| 0 <= j < i ==> s[j].0@ != s[i].0@,
    ensures
        notif_childs_view(s)[s[i].0@] == notif_view(s[i].1),
        notif_childs_view(s.update(i, (s[i].0, c))) =~= notif_childs_view(s).insert(
            s[i].0@,
            notif_view(c),
        ),
    decreases s.len(),
{
    lemma_notif_childs_contains(s, i);
    let k = s[i].0@;
    if i == 0 {
        assert(s.update(0, (s[0].0, c)).drop_first() =~= s.drop_first());
        assert(notif_childs_view(s.update(0, (s[0].0, c))) =~= notif_childs_view(
            s.drop_first(),
        ).insert(k, notif_view(c)));
        assert(notif_childs_view(s).insert(k, notif_view(c)) =~= notif_childs_view(
            s.drop_first(),
        ).insert(k, notif_view(c)));
    } else {
        assert(s.drop_first()[i - 1] == s[i]);
        assert forall|j: int| 0 <= j < i - 1
            implies (#[trigger] s.drop_first()[j]).0@ != s.drop_first()[i - 1].0@ by {
            assert(s.drop_first()[j] == s[j + 1]);
        }
        lemma_notif_childs_first(s.drop_first(), i - 1, c);
        assert(s[0].0@ != k);
        assert(s.update(i, (s[i].0, c)).drop_first() =~= s.drop_first().update(i - 1, (s[i].0, c)));
        assert(s.update(i, (s[i].0, c))[0] == s[0]);
        assert(notif_childs_view(s.update(i, (s[i].0, c))) =~= notif_childs_view(
            s.drop_first().update(i - 1, (s[i].0, c)),
        ).insert(s[0].0@, notif_view(s[0].1)));
        assert(notif_childs_view(s.update(i, (s[i].0, c))) =~= notif_childs_view(s).insert(
            k,
            notif_view(c),
        ));
    }
}

/// Appending an entry under a fresh name adds exactly that binding.
proof fn lemma_notif_childs_push(s: Seq<(String, V1Notification)>, e: (String, V1Notification))
    requires
        forall|i: int| 0 <= i < s.len() ==> s[i].0@ != e.0@,
    ensures
        notif_childs_view(s.push(e)) =~= notif_childs_view(s).insert(e.0@, notif_view(e.1)),
    decreases s.len(),
{
    if s.len() == 0 {
        assert(s.push(e).drop_first() =~= Seq::<(String, V1Notification)>::empty());
        assert(s.push(e)[0] == e);
        assert(notif_childs_view(Seq::<(String, V1Notification)>::empty())
            =~= Map::<Seq<char>, NotificationView>::empty());
        assert(notif_childs_view(s.push(e)) =~= notif_childs_view(s).insert(
            e.0@,
            notif_view(e.1),
        ));
    } else {
        assert forall|i: int| 0 <= i < s.drop_first().len()
            implies s.drop_first()[i].0@ != e.0@ by {
            assert(s.drop_first()[i] == s[i + 1]);
        }
        lemma_notif_childs_push(s.drop_first(), e);
        assert(s.push(e).drop_first() =~= s.drop_first().push(e));
        assert(s.push(e)[0] == s[0]);
        assert(s[0].0@ != e.0@);
        assert(notif_childs_view(s.push(e)) =~= notif_childs_view(s.drop_first().push(e)).insert(
            s[0].0@,
            notif_view(s[0].1),
        ));
        assert(notif_childs_view(s.drop_first().push(e)) =~= notif_childs_view(
            s.drop_first(),
        ).insert(e.0@, notif_view(e.1)));
        assert(notif_childs_view(s.push(e)) =~= notif_childs_view(s).insert(
            e.0@,
            notif_view(e.1),
        ));
    }
}

/// The first index binding a category name, if any.
fn notif_child_find(childs: &Vec<(String, V1Notification)>, key: &str) -> (r: Option<usize>)
    ensures
        match r {
            Some(i) => i < childs@.len() && childs@[i as int].0@ == key@ && (forall|j: int|
                0 <= j < i ==> childs@[j].0@ != key@),
            None => forall|j: int| 0 <= j < childs@.len() ==> childs@[j].0@ != key@,
        },
{
    let n = childs.len();
    for i in 0..n
        invariant
            n == childs@.len(),
            forall|j: int| 0 <= j < i ==> childs@[j].0@ != key@,
    {
        if str_eq(childs[i].0.as_str(), key) {
            return Some(i);
        }
    }
    None
}

/// Merges one record into a notification node.
pub fn notif_apply_exec(
    node: &mut V1Notification,
    segs: &Vec<String>,
    at: usize,
    val: V1Value,
    src: &str,
    ts: &str,
    touched: bool,
) -> (r: MergeAttempt)
    requires
        at <= segs@.len(),
    ensures
        ({
            let spec_r = notif_apply(
                old(node)@,
                segs@.skip(at as int).map_values(|x: String| x@),
                val,
                src@,
                ts@,
            );
            match r {
                MergeAttempt::Applied(t2) => t2 == touched && spec_r == MergeOutcome::Done(
                    final(node)@,
                ),
                MergeAttempt::Unknown(v2) => spec_r == MergeOutcome::<NotificationView>::Unknown
                    && v2 == val && final(node)@ == old(node)@,
                MergeAttempt::Failed(e) => spec_r == MergeOutcome::<NotificationView>::Fail(e)
                    && final(node)@ == old(node)@,
            }
        }),
    decreases segs@.len() - at,
{
    let ghost sv = segs@.skip(at as int).map_values(|x: String| x@);
    let nn = segs.len();
    if at == nn {
        match val {
            V1Value::Object(fields) => match parse_notification_value(&fields) {
                Some(nv) => {
                    node.value = Some(nv);
                    node.common_value_fields = Some(V1CommonValueFields {
                        timestamp: ts.to_owned(),
                        source: src.to_owned(),
                        attr: None,
                        meta: None,
                        pgn: None,
                        sentence: None,
                    });
                    proof {
                        assert(final(node)@ =~= (NotificationView {
                            value: Some(notif_value_of(fields@)->0),
                            common_value_fields: Some(CommonFieldsView {
                                timestamp: ts@,
                                source: src@,
                                attr: None,
                                meta: None,
                                pgn: None,
                                sentence: None,
                            }),
                            childs: old(node)@.childs,
                        }));
                    }
                    MergeAttempt::Applied(touched)
                },
                None => MergeAttempt::Failed(V1MergeError::TypeMismatch),
            },
            _ => MergeAttempt::Failed(V1MergeError::TypeMismatch),
        }
    } else {
        proof {
            assert(sv[0] == segs@[at as int]@);
            assert(sv.drop_first() =~= segs@.skip(at as int + 1).map_values(|x: String| x@));
        }
        let key = &segs[at];
        let found = notif_child_find(&node.childs, key.as_str());
        match found {
            Some(i) => {
                let ghost s0 = node.childs@;
                let (k, mut child) = node.childs.remove(i);
                let r = notif_apply_exec(&mut child, segs, at + 1, val, src, ts, touched);
                node.childs.insert(i, (k, child));
                proof {
                    assert(node.childs@ =~= s0.update(i as int, (s0[i as int].0, child)));
                    lemma_notif_childs_first(s0, i as int, child);
                    lemma_notif_childs_contains(s0, i as int);
                    match r {
                        MergeAttempt::Applied(_) => {
                            assert(final(node)@ =~= (NotificationView {
                                childs: notif_childs_view(s0).insert(sv[0], child@),
                                ..old(node)@
                            }));
                        },
                        _ => {
                            assert(notif_view(child) == notif_childs_view(s0)[sv[0]]);
                            assert(notif_childs_view(node.childs@) =~= notif_childs_view(s0));
                            assert(final(node)@ =~= old(node)@);
                        },
                    }
                }
                r
            },
            None => {
                let mut child = V1Notification {
                    value: None,
                    common_value_fields: None,
                    childs: Vec::new(),
                };
                proof {
                    assert(child@ =~= NotificationView::empty());
                    lemma_notif_childs_absent(node.childs@, segs@[at as int]@);
                }
                let r = notif_apply_exec(&mut child, segs, at + 1, val, src, ts, touched);
                match r {
                    MergeAttempt::Applied(_) => {
                        let ghost s0 = node.childs@;
                        let k2 = key.clone();
                        let ghost e = (k2, child);
                        node.childs.push((k2, child));
                        proof {
                            lemma_notif_childs_push(s0, e);
                            assert(final(node)@ =~= (NotificationView {
                                childs: notif_childs_view(s0).insert(sv[0], child@),
                                ..old(node)@
                            }));
                        }
                        r
                    },
                    _ => {
                        proof {
                            assert(final(node)@ =~= old(node)@);
                        }
                        r
                    },
                }
            },
        }
    }
}

} // verus!
