use vstd::prelude::*;

use crate::definitions::V1NumberValue;
use crate::value::V1Num;

verus! {

/// The view of an optional value, at the level its contents are modelled on.
pub open spec fn opt_view<T: View>(o: Option<T>) -> Option<T::V> {
    match o {
        Some(t) => Some(t@),
        None => None,
    }
}

/// Mathematical model of a numeric leaf: the reading and its provenance,
/// strings taken as character sequences.
#[verifier::ext_equal]
pub struct NumberValueView {
    pub value: V1Num,
    pub timestamp: Seq<char>,
    pub source: Seq<char>,
    pub pgn: Option<V1Num>,
    pub sentence: Option<Seq<char>>,
}

impl View for V1NumberValue {
    type V = NumberValueView;

    open spec fn view(&self) -> NumberValueView {
        NumberValueView {
            value: self.value,
            timestamp: self.timestamp@,
            source: self.source@,
            pgn: self.pgn,
            sentence: opt_view(self.sentence),
        }
    }
}

/// A geographic position: latitude and longitude, with altitude when known.
#[derive(PartialEq, Debug, Clone, Copy)]
pub struct V1PositionValue {
    pub latitude: V1Num,
    pub longitude: V1Num,
    pub altitude: Option<V1Num>,
}

impl V1PositionValue {
    pub fn new_2d(latitude: V1Num, longitude: V1Num) -> (r: V1PositionValue)
        ensures
            r == (V1PositionValue { latitude, longitude, altitude: None }),
    {
        V1PositionValue { latitude, longitude, altitude: None }
    }

    pub fn new_3d(latitude: V1Num, longitude: V1Num, altitude: V1Num) -> (r: V1PositionValue)
        ensures
            r == (V1PositionValue { latitude, longitude, altitude: Some(altitude) }),
    {
        V1PositionValue { latitude, longitude, altitude: Some(altitude) }
    }
}

/// A position leaf together with its provenance.
#[derive(PartialEq, Debug, Clone)]
pub struct V1PositionType {
    pub value: V1PositionValue,
    pub timestamp: String,
    pub source: String,
    pub pgn: Option<V1Num>,
    pub sentence: Option<String>,
}

/// Mathematical model of a position leaf.
#[verifier::ext_equal]
pub struct PositionTypeView {
    pub value: V1PositionValue,
    pub timestamp: Seq<char>,
    pub source: Seq<char>,
    pub pgn: Option<V1Num>,
    pub sentence: Option<Seq<char>>,
}

impl View for V1PositionType {
    type V = PositionTypeView;

    open spec fn view(&self) -> PositionTypeView {
        PositionTypeView {
            value: self.value,
            timestamp: self.timestamp@,
            source: self.source@,
            pgn: self.pgn,
            sentence: opt_view(self.sentence),
        }
    }
}

impl V1PositionType {
    pub fn builder() -> (r: V1PositionTypeBuilder)
        ensures
            r.value == (V1PositionValue { latitude: V1Num { bits: 0 }, longitude: V1Num {
                bits: 0 }, altitude: None }),
            r.timestamp@ == Seq::<char>::empty(),
            r.source@ == Seq::<char>::empty(),
            r.pgn is None,
            r.sentence is None,
    {
        V1PositionTypeBuilder {
            value: V1PositionValue {
                latitude: V1Num { bits: 0 },
                longitude: V1Num { bits: 0 },
                altitude: None,
            },
            timestamp: String::new(),
            source: String::new(),
            pgn: None,
            sentence: None,
        }
    }
}

pub struct V1PositionTypeBuilder {
    pub value: V1PositionValue,
    pub timestamp: String,
    pub source: String,
    pub pgn: Option<V1Num>,
    pub sentence: Option<String>,
}

impl V1PositionTypeBuilder {
    pub fn value(self, value: V1PositionValue) -> (r: V1PositionTypeBuilder)
        ensures
            r == (V1PositionTypeBuilder { value, ..self }),
    {
        V1PositionTypeBuilder { value, ..self }
    }

    pub fn timestamp(self, timestamp: String) -> (r: V1PositionTypeBuilder)
        ensures
            r == (V1PositionTypeBuilder { timestamp, ..self }),
    {
        V1PositionTypeBuilder { timestamp, ..self }
    }

    pub fn source(self, source: String) -> (r: V1PositionTypeBuilder)
        ensures
            r == (V1PositionTypeBuilder { source, ..self }),
    {
        V1PositionTypeBuilder { source, ..self }
    }

    pub fn pgn(self, pgn: V1Num) -> (r: V1PositionTypeBuilder)
        ensures
            r == (V1PositionTypeBuilder { pgn: Some(pgn), ..self }),
    {
        V1PositionTypeBuilder { pgn: Some(pgn), ..self }
    }

    pub fn sentence(self, sentence: String) -> (r: V1PositionTypeBuilder)
        ensures
            r == (V1PositionTypeBuilder { sentence: Some(sentence), ..self }),
    {
        V1PositionTypeBuilder { sentence: Some(sentence), ..self }
    }

    pub fn build(self) -> (r: V1PositionType)
        ensures
            r == (V1PositionType {
                value: self.value,
                timestamp: self.timestamp,
                source: self.source,
                pgn: self.pgn,
                sentence: self.sentence,
            }),
    {
        V1PositionType {
            value: self.value,
            timestamp: self.timestamp,
            source: self.source,
            pgn: self.pgn,
            sentence: self.sentence,
        }
    }
}

/// Navigation data of one vessel; every field is absent until merged.
#[derive(PartialEq, Debug, Clone)]
pub struct V1Navigation {
    pub course_over_ground_magnetic: Option<V1NumberValue>,
    pub course_over_ground_true: Option<V1NumberValue>,
    pub course_rhumbline: Option<V1NumberValue>,
    pub course_great_circle: Option<V1NumberValue>,
    pub magnetic_variation: Option<V1NumberValue>,
    pub magnetic_variation_age_of_service: Option<V1NumberValue>,
    pub heading_magnetic: Option<V1NumberValue>,
    pub magnetic_deviation: Option<V1NumberValue>,
    pub heading_compass: Option<V1NumberValue>,
    pub heading_true: Option<V1NumberValue>,
    pub position: Option<V1PositionType>,
    pub rate_of_turn: Option<V1NumberValue>,
    pub speed_over_ground: Option<V1NumberValue>,
    pub speed_through_water: Option<V1NumberValue>,
    pub speed_through_water_transverse: Option<V1NumberValue>,
    pub speed_through_water_longitudinal: Option<V1NumberValue>,
    pub leeway_angle: Option<V1NumberValue>,
    pub log: Option<V1NumberValue>,
}

/// Mathematical model of the navigation block.
#[verifier::ext_equal]
pub struct NavigationView {
    pub course_over_ground_magnetic: Option<NumberValueView>,
    pub course_over_ground_true: Option<NumberValueView>,
    pub course_rhumbline: Option<NumberValueView>,
    pub course_great_circle: Option<NumberValueView>,
    pub magnetic_variation: Option<NumberValueView>,
    pub magnetic_variation_age_of_service: Option<NumberValueView>,
    pub heading_magnetic: Option<NumberValueView>,
    pub magnetic_deviation: Option<NumberValueView>,
    pub heading_compass: Option<NumberValueView>,
    pub heading_true: Option<NumberValueView>,
    pub position: Option<PositionTypeView>,
    pub rate_of_turn: Option<NumberValueView>,
    pub speed_over_ground: Option<NumberValueView>,
    pub speed_through_water: Option<NumberValueView>,
    pub speed_through_water_transverse: Option<NumberValueView>,
    pub speed_through_water_longitudinal: Option<NumberValueView>,
    pub leeway_angle: Option<NumberValueView>,
    pub log: Option<NumberValueView>,
}

impl View for V1Navigation {
    type V = NavigationView;

    open spec fn view(&self) -> NavigationView {
        NavigationView {
            course_over_ground_magnetic: opt_view(self.course_over_ground_magnetic),
            course_over_ground_true: opt_view(self.course_over_ground_true),
            course_rhumbline: opt_view(self.course_rhumbline),
            course_great_circle: opt_view(self.course_great_circle),
            magnetic_variation: opt_view(self.magnetic_variation),
            magnetic_variation_age_of_service: opt_view(self.magnetic_variation_age_of_service),
            heading_magnetic: opt_view(self.heading_magnetic),
            magnetic_deviation: opt_view(self.magnetic_deviation),
            heading_compass: opt_view(self.heading_compass),
            heading_true: opt_view(self.heading_true),
            position: opt_view(self.position),
            rate_of_turn: opt_view(self.rate_of_turn),
            speed_over_ground: opt_view(self.speed_over_ground),
            speed_through_water: opt_view(self.speed_through_water),
            speed_through_water_transverse: opt_view(self.speed_through_water_transverse),
            speed_through_water_longitudinal: opt_view(self.speed_through_water_longitudinal),
            leeway_angle: opt_view(self.leeway_angle),
            log: opt_view(self.log),
        }
    }
}

impl NavigationView {
    /// The model of a navigation block with nothing merged yet.
    pub open spec fn empty() -> NavigationView {
        NavigationView {
            course_over_ground_magnetic: None,
            course_over_ground_true: None,
            course_rhumbline: None,
            course_great_circle: None,
            magnetic_variation: None,
            magnetic_variation_age_of_service: None,
            heading_magnetic: None,
            magnetic_deviation: None,
            heading_compass: None,
            heading_true: None,
            position: None,
            rate_of_turn: None,
            speed_over_ground: None,
            speed_through_water: None,
            speed_through_water_transverse: None,
            speed_through_water_longitudinal: None,
            leeway_angle: None,
            log: None,
        }
    }
}

impl Default for V1Navigation {
    fn default() -> (r: Self)
        ensures
            r@ == NavigationView::empty(),
    {
        V1Navigation {
            course_over_ground_magnetic: None,
            course_over_ground_true: None,
            course_rhumbline: None,
            course_great_circle: None,
            magnetic_variation: None,
            magnetic_variation_age_of_service: None,
            heading_magnetic: None,
            magnetic_deviation: None,
            heading_compass: None,
            heading_true: None,
            position: None,
            rate_of_turn: None,
            speed_over_ground: None,
            speed_through_water: None,
            speed_through_water_transverse: None,
            speed_through_water_longitudinal: None,
            leeway_angle: None,
            log: None,
        }
    }
}

impl V1Navigation {
    pub fn builder() -> (r: V1NavigationBuilder)
        ensures
            r == (V1NavigationBuilder {
                course_over_ground_magnetic: None,
                course_over_ground_true: None,
                course_rhumbline: None,
                course_great_circle: None,
                magnetic_variation: None,
                magnetic_variation_age_of_service: None,
                heading_magnetic: None,
                magnetic_deviation: None,
                heading_compass: None,
                heading_true: None,
                position: None,
                rate_of_turn: None,
                speed_over_ground: None,
                speed_through_water: None,
                speed_through_water_transverse: None,
                speed_through_water_longitudinal: None,
                leeway_angle: None,
                log: None,
            }),
    {
        V1NavigationBuilder {
            course_over_ground_magnetic: None,
            course_over_ground_true: None,
            course_rhumbline: None,
            course_great_circle: None,
            magnetic_variation: None,
            magnetic_variation_age_of_service: None,
            heading_magnetic: None,
            magnetic_deviation: None,
            heading_compass: None,
            heading_true: None,
            position: None,
            rate_of_turn: None,
            speed_over_ground: None,
            speed_through_water: None,
            speed_through_water_transverse: None,
            speed_through_water_longitudinal: None,
            leeway_angle: None,
            log: None,
        }
    }
}

pub struct V1NavigationBuilder {
    pub course_over_ground_magnetic: Option<V1NumberValue>,
    pub course_over_ground_true: Option<V1NumberValue>,
    pub course_rhumbline: Option<V1NumberValue>,
    pub course_great_circle: Option<V1NumberValue>,
    pub magnetic_variation: Option<V1NumberValue>,
    pub magnetic_variation_age_of_service: Option<V1NumberValue>,
    pub heading_magnetic: Option<V1NumberValue>,
    pub magnetic_deviation: Option<V1NumberValue>,
    pub heading_compass: Option<V1NumberValue>,
    pub heading_true: Option<V1NumberValue>,
    pub position: Option<V1PositionType>,
    pub rate_of_turn: Option<V1NumberValue>,
    pub speed_over_ground: Option<V1NumberValue>,
    pub speed_through_water: Option<V1NumberValue>,
    pub speed_through_water_transverse: Option<V1NumberValue>,
    pub speed_through_water_longitudinal: Option<V1NumberValue>,
    pub leeway_angle: Option<V1NumberValue>,
    pub log: Option<V1NumberValue>,
}

impl V1NavigationBuilder {
    pub fn course_over_ground_magnetic(self, value: V1NumberValue) -> (r: V1NavigationBuilder)
        ensures
            r == (V1NavigationBuilder { course_over_ground_magnetic: Some(value), ..self }),
    {
        V1NavigationBuilder { course_over_ground_magnetic: Some(value), ..self }
    }

    pub fn course_over_ground_true(self, value: V1NumberValue) -> (r: V1NavigationBuilder)
        ensures
            r == (V1NavigationBuilder { course_over_ground_true: Some(value), ..self }),
    {
        V1NavigationBuilder { course_over_ground_true: Some(value), ..self }
    }

    pub fn course_rhumbline(self, value: V1NumberValue) -> (r: V1NavigationBuilder)
        ensures
            r == (V1NavigationBuilder { course_rhumbline: Some(value), ..self }),
    {
        V1NavigationBuilder { course_rhumbline: Some(value), ..self }
    }

    pub fn course_great_circle(self, value: V1NumberValue) -> (r: V1NavigationBuilder)
        ensures
            r == (V1NavigationBuilder { course_great_circle: Some(value), ..self }),
    {
        V1NavigationBuilder { course_great_circle: Some(value), ..self }
    }

    pub fn magnetic_variation(self, value: V1NumberValue) -> (r: V1NavigationBuilder)
        ensures
            r == (V1NavigationBuilder { magnetic_variation: Some(value), ..self }),
    {
        V1NavigationBuilder { magnetic_variation: Some(value), ..self }
    }

    pub fn magnetic_variation_age_of_service(self, value: V1NumberValue) -> (
        r: V1NavigationBuilder)
        ensures
            r == (V1NavigationBuilder { magnetic_variation_age_of_service: Some(value), ..self }),
    {
        V1NavigationBuilder { magnetic_variation_age_of_service: Some(value), ..self }
    }

    pub fn heading_magnetic(self, value: V1NumberValue) -> (r: V1NavigationBuilder)
        ensures
            r == (V1NavigationBuilder { heading_magnetic: Some(value), ..self }),
    {
        V1NavigationBuilder { heading_magnetic: Some(value), ..self }
    }

    pub fn magnetic_deviation(self, value: V1NumberValue) -> (r: V1NavigationBuilder)
        ensures
            r == (V1NavigationBuilder { magnetic_deviation: Some(value), ..self }),
    {
        V1NavigationBuilder { magnetic_deviation: Some(value), ..self }
    }

    pub fn heading_compass(self, value: V1NumberValue) -> (r: V1NavigationBuilder)
        ensures
            r == (V1NavigationBuilder { heading_compass: Some(value), ..self }),
    {
        V1NavigationBuilder { heading_compass: Some(value), ..self }
    }

    pub fn heading_true(self, value: V1NumberValue) -> (r: V1NavigationBuilder)
        ensures
            r == (V1NavigationBuilder { heading_true: Some(value), ..self }),
    {
        V1NavigationBuilder { heading_true: Some(value), ..self }
    }

    pub fn position(self, position: V1PositionType) -> (r: V1NavigationBuilder)
        ensures
            r == (V1NavigationBuilder { position: Some(position), ..self }),
    {
        V1NavigationBuilder { position: Some(position), ..self }
    }

    pub fn rate_of_turn(self, value: V1NumberValue) -> (r: V1NavigationBuilder)
        ensures
            r == (V1NavigationBuilder { rate_of_turn: Some(value), ..self }),
    {
        V1NavigationBuilder { rate_of_turn: Some(value), ..self }
    }

    pub fn speed_over_ground(self, value: V1NumberValue) -> (r: V1NavigationBuilder)
        ensures
            r == (V1NavigationBuilder { speed_over_ground: Some(value), ..self }),
    {
        V1NavigationBuilder { speed_over_ground: Some(value), ..self }
    }

    pub fn speed_through_water(self, value: V1NumberValue) -> (r: V1NavigationBuilder)
        ensures
            r == (V1NavigationBuilder { speed_through_water: Some(value), ..self }),
    {
        V1NavigationBuilder { speed_through_water: Some(value), ..self }
    }

    pub fn speed_through_water_transverse(self, value: V1NumberValue) -> (r: V1NavigationBuilder)
        ensures
            r == (V1NavigationBuilder { speed_through_water_transverse: Some(value), ..self }),
    {
        V1NavigationBuilder { speed_through_water_transverse: Some(value), ..self }
    }

    pub fn speed_through_water_longitudinal(self, value: V1NumberValue) -> (r: V1NavigationBuilder)
        ensures
            r == (V1NavigationBuilder { speed_through_water_longitudinal: Some(value), ..self }),
    {
        V1NavigationBuilder { speed_through_water_longitudinal: Some(value), ..self }
    }

    pub fn leeway_angle(self, value: V1NumberValue) -> (r: V1NavigationBuilder)
        ensures
            r == (V1NavigationBuilder { leeway_angle: Some(value), ..self }),
    {
        V1NavigationBuilder { leeway_angle: Some(value), ..self }
    }

    pub fn log(self, value: V1NumberValue) -> (r: V1NavigationBuilder)
        ensures
            r == (V1NavigationBuilder { log: Some(value), ..self }),
    {
        V1NavigationBuilder { log: Some(value), ..self }
    }

    pub fn build(self) -> (r: V1Navigation)
        ensures
            r == (V1Navigation {
                course_over_ground_magnetic: self.course_over_ground_magnetic,
                course_over_ground_true: self.course_over_ground_true,
                course_rhumbline: self.course_rhumbline,
                course_great_circle: self.course_great_circle,
                magnetic_variation: self.magnetic_variation,
                magnetic_variation_age_of_service: self.magnetic_variation_age_of_service,
                heading_magnetic: self.heading_magnetic,
                magnetic_deviation: self.magnetic_deviation,
                heading_compass: self.heading_compass,
                heading_true: self.heading_true,
                position: self.position,
                rate_of_turn: self.rate_of_turn,
                speed_over_ground: self.speed_over_ground,
                speed_through_water: self.speed_through_water,
                speed_through_water_transverse: self.speed_through_water_transverse,
                speed_through_water_longitudinal: self.speed_through_water_longitudinal,
                leeway_angle: self.leeway_angle,
                log: self.log,
            }),
    {
        V1Navigation {
            course_over_ground_magnetic: self.course_over_ground_magnetic,
            course_over_ground_true: self.course_over_ground_true,
            course_rhumbline: self.course_rhumbline,
            course_great_circle: self.course_great_circle,
            magnetic_variation: self.magnetic_variation,
            magnetic_variation_age_of_service: self.magnetic_variation_age_of_service,
            heading_magnetic: self.heading_magnetic,
            magnetic_deviation: self.magnetic_deviation,
            heading_compass: self.heading_compass,
            heading_true: self.heading_true,
            position: self.position,
            rate_of_turn: self.rate_of_turn,
            speed_over_ground: self.speed_over_ground,
            speed_through_water: self.speed_through_water,
            speed_through_water_transverse: self.speed_through_water_transverse,
            speed_through_water_longitudinal: self.speed_through_water_longitudinal,
            leeway_angle: self.leeway_angle,
            log: self.log,
        }
    }
}

} // verus!
