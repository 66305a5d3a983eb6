use vstd::prelude::*;

use crate::definitions::V1CommonValueFields;
use crate::definitions::V1NumberValue;
use crate::navigation::NumberValueView;
use crate::navigation::opt_view;
use crate::strmap::StrMap;
use crate::value::V1Num;

verus! {

/// Conditions measured outside the hull.
#[derive(PartialEq, Debug, Clone)]
pub struct V1EnvironmentOutside {
    pub temperature: Option<V1NumberValue>,
    pub dew_point_temperature: Option<V1NumberValue>,
    pub apparent_wind_chill_temperature: Option<V1NumberValue>,
    pub theoretical_wind_chill_temperature: Option<V1NumberValue>,
    pub heat_index_temperature: Option<V1NumberValue>,
    pub pressure: Option<V1NumberValue>,
    pub humidity: Option<V1NumberValue>,
    pub relative_humidity: Option<V1NumberValue>,
    pub air_density: Option<V1NumberValue>,
    pub illuminance: Option<V1NumberValue>,
}

/// Mathematical model of the outside conditions block.
#[verifier::ext_equal]
pub struct OutsideView {
    pub temperature: Option<NumberValueView>,
    pub dew_point_temperature: Option<NumberValueView>,
    pub apparent_wind_chill_temperature: Option<NumberValueView>,
    pub theoretical_wind_chill_temperature: Option<NumberValueView>,
    pub heat_index_temperature: Option<NumberValueView>,
    pub pressure: Option<NumberValueView>,
    pub humidity: Option<NumberValueView>,
    pub relative_humidity: Option<NumberValueView>,
    pub air_density: Option<NumberValueView>,
    pub illuminance: Option<NumberValueView>,
}

impl View for V1EnvironmentOutside {
    type V = OutsideView;

    open spec fn view(&self) -> OutsideView {
        OutsideView {
            temperature: opt_view(self.temperature),
            dew_point_temperature: opt_view(self.dew_point_temperature),
            apparent_wind_chill_temperature: opt_view(self.apparent_wind_chill_temperature),
            theoretical_wind_chill_temperature: opt_view(self.theoretical_wind_chill_temperature),
            heat_index_temperature: opt_view(self.heat_index_temperature),
            pressure: opt_view(self.pressure),
            humidity: opt_view(self.humidity),
            relative_humidity: opt_view(self.relative_humidity),
            air_density: opt_view(self.air_density),
            illuminance: opt_view(self.illuminance),
        }
    }
}

impl OutsideView {
    pub open spec fn empty() -> OutsideView {
        OutsideView {
            temperature: None,
            dew_point_temperature: None,
            apparent_wind_chill_temperature: None,
            theoretical_wind_chill_temperature: None,
            heat_index_temperature: None,
            pressure: None,
            humidity: None,
            relative_humidity: None,
            air_density: None,
            illuminance: None,
        }
    }
}

impl Default for V1EnvironmentOutside {
    fn default() -> (r: Self)
        ensures
            r@ == OutsideView::empty(),
    {
        V1EnvironmentOutside {
            temperature: None,
            dew_point_temperature: None,
            apparent_wind_chill_temperature: None,
            theoretical_wind_chill_temperature: None,
            heat_index_temperature: None,
            pressure: None,
            humidity: None,
            relative_humidity: None,
            air_density: None,
            illuminance: None,
        }
    }
}

impl V1EnvironmentOutside {
    pub fn builder() -> (r: V1EnvironmentOutsideBuilder)
        ensures
            r == (V1EnvironmentOutsideBuilder {
                temperature: None,
                dew_point_temperature: None,
                apparent_wind_chill_temperature: None,
                theoretical_wind_chill_temperature: None,
                heat_index_temperature: None,
                pressure: None,
                humidity: None,
                relative_humidity: None,
                air_density: None,
                illuminance: None,
            }),
    {
        V1EnvironmentOutsideBuilder {
            temperature: None,
            dew_point_temperature: None,
            apparent_wind_chill_temperature: None,
            theoretical_wind_chill_temperature: None,
            heat_index_temperature: None,
            pressure: None,
            humidity: None,
            relative_humidity: None,
            air_density: None,
            illuminance: None,
        }
    }
}

pub struct V1EnvironmentOutsideBuilder {
    pub temperature: Option<V1NumberValue>,
    pub dew_point_temperature: Option<V1NumberValue>,
    pub apparent_wind_chill_temperature: Option<V1NumberValue>,
    pub theoretical_wind_chill_temperature: Option<V1NumberValue>,
    pub heat_index_temperature: Option<V1NumberValue>,
    pub pressure: Option<V1NumberValue>,
    pub humidity: Option<V1NumberValue>,
    pub relative_humidity: Option<V1NumberValue>,
    pub air_density: Option<V1NumberValue>,
    pub illuminance: Option<V1NumberValue>,
}

impl V1EnvironmentOutsideBuilder {
    pub fn temperature(self, value: V1NumberValue) -> (r: V1EnvironmentOutsideBuilder)
        ensures
            r == (V1EnvironmentOutsideBuilder { temperature: Some(value), ..self }),
    {
        V1EnvironmentOutsideBuilder { temperature: Some(value), ..self }
    }

    pub fn dew_point_temperature(self, value: V1NumberValue) -> (r: V1EnvironmentOutsideBuilder)
        ensures
            r == (V1EnvironmentOutsideBuilder { dew_point_temperature: Some(value), ..self }),
    {
        V1EnvironmentOutsideBuilder { dew_point_temperature: Some(value), ..self }
    }

    pub fn apparent_wind_chill_temperature(self, value: V1NumberValue) -> (
        r: V1EnvironmentOutsideBuilder)
        ensures
            r == (V1EnvironmentOutsideBuilder {
                apparent_wind_chill_temperature: Some(value),
                ..self
            }),
    {
        V1EnvironmentOutsideBuilder { apparent_wind_chill_temperature: Some(value), ..self }
    }

    pub fn theoretical_wind_chill_temperature(self, value: V1NumberValue) -> (
        r: V1EnvironmentOutsideBuilder)
        ensures
            r == (V1EnvironmentOutsideBuilder {
                theoretical_wind_chill_temperature: Some(value),
                ..self
            }),
    {
        V1EnvironmentOutsideBuilder { theoretical_wind_chill_temperature: Some(value), ..self }
    }

    pub fn heat_index_temperature(self, value: V1NumberValue) -> (r: V1EnvironmentOutsideBuilder)
        ensures
            r == (V1EnvironmentOutsideBuilder { heat_index_temperature: Some(value), ..self }),
    {
        V1EnvironmentOutsideBuilder { heat_index_temperature: Some(value), ..self }
    }

    pub fn pressure(self, value: V1NumberValue) -> (r: V1EnvironmentOutsideBuilder)
        ensures
            r == (V1EnvironmentOutsideBuilder { pressure: Some(value), ..self }),
    {
        V1EnvironmentOutsideBuilder { pressure: Some(value), ..self }
    }

    pub fn humidity(self, value: V1NumberValue) -> (r: V1EnvironmentOutsideBuilder)
        ensures
            r == (V1EnvironmentOutsideBuilder { humidity: Some(value), ..self }),
    {
        V1EnvironmentOutsideBuilder { humidity: Some(value), ..self }
    }

    pub fn relative_humidity(self, value: V1NumberValue) -> (r: V1EnvironmentOutsideBuilder)
        ensures
            r == (V1EnvironmentOutsideBuilder { relative_humidity: Some(value), ..self }),
    {
        V1EnvironmentOutsideBuilder { relative_humidity: Some(value), ..self }
    }

    pub fn air_density(self, value: V1NumberValue) -> (r: V1EnvironmentOutsideBuilder)
        ensures
            r == (V1EnvironmentOutsideBuilder { air_density: Some(value), ..self }),
    {
        V1EnvironmentOutsideBuilder { air_density: Some(value), ..self }
    }

    pub fn illuminance(self, value: V1NumberValue) -> (r: V1EnvironmentOutsideBuilder)
        ensures
            r == (V1EnvironmentOutsideBuilder { illuminance: Some(value), ..self }),
    {
        V1EnvironmentOutsideBuilder { illuminance: Some(value), ..self }
    }

    pub fn build(self) -> (r: V1EnvironmentOutside)
        ensures
            r == (V1EnvironmentOutside {
                temperature: self.temperature,
                dew_point_temperature: self.dew_point_temperature,
                apparent_wind_chill_temperature: self.apparent_wind_chill_temperature,
                theoretical_wind_chill_temperature: self.theoretical_wind_chill_temperature,
                heat_index_temperature: self.heat_index_temperature,
                pressure: self.pressure,
                humidity: self.humidity,
                relative_humidity: self.relative_humidity,
                air_density: self.air_density,
                illuminance: self.illuminance,
            }),
    {
        V1EnvironmentOutside {
            temperature: self.temperature,
            dew_point_temperature: self.dew_point_temperature,
            apparent_wind_chill_temperature: self.apparent_wind_chill_temperature,
            theoretical_wind_chill_temperature: self.theoretical_wind_chill_temperature,
            heat_index_temperature: self.heat_index_temperature,
            pressure: self.pressure,
            humidity: self.humidity,
            relative_humidity: self.relative_humidity,
            air_density: self.air_density,
            illuminance: self.illuminance,
        }
    }
}

/// Conditions in one zone inside the vessel.
#[derive(PartialEq, Debug, Clone)]
pub struct V1EnvironmentZone {
    pub temperature: Option<V1NumberValue>,
    pub heat_index_temperature: Option<V1NumberValue>,
    pub pressure: Option<V1NumberValue>,
    pub relative_humidity: Option<V1NumberValue>,
    pub dew_point: Option<V1NumberValue>,
    pub dew_point_temperature: Option<V1NumberValue>,
    pub air_density: Option<V1NumberValue>,
    pub illuminance: Option<V1NumberValue>,
}

/// Mathematical model of one inside zone.
#[verifier::ext_equal]
pub struct ZoneView {
    pub temperature: Option<NumberValueView>,
    pub heat_index_temperature: Option<NumberValueView>,
    pub pressure: Option<NumberValueView>,
    pub relative_humidity: Option<NumberValueView>,
    pub dew_point: Option<NumberValueView>,
    pub dew_point_temperature: Option<NumberValueView>,
    pub air_density: Option<NumberValueView>,
    pub illuminance: Option<NumberValueView>,
}

impl View for V1EnvironmentZone {
    type V = ZoneView;

    open spec fn view(&self) -> ZoneView {
        ZoneView {
            temperature: opt_view(self.temperature),
            heat_index_temperature: opt_view(self.heat_index_temperature),
            pressure: opt_view(self.pressure),
            relative_humidity: opt_view(self.relative_humidity),
            dew_point: opt_view(self.dew_point),
            dew_point_temperature: opt_view(self.dew_point_temperature),
            air_density: opt_view(self.air_density),
            illuminance: opt_view(self.illuminance),
        }
    }
}

impl ZoneView {
    pub open spec fn empty() -> ZoneView {
        ZoneView {
            temperature: None,
            heat_index_temperature: None,
            pressure: None,
            relative_humidity: None,
            dew_point: None,
            dew_point_temperature: None,
            air_density: None,
            illuminance: None,
        }
    }
}

impl Default for V1EnvironmentZone {
    fn default() -> (r: Self)
        ensures
            r@ == ZoneView::empty(),
    {
        V1EnvironmentZone {
            temperature: None,
            heat_index_temperature: None,
            pressure: None,
            relative_humidity: None,
            dew_point: None,
            dew_point_temperature: None,
            air_density: None,
            illuminance: None,
        }
    }
}

impl V1EnvironmentZone {
    pub fn builder() -> (r: V1EnvironmentZoneBuilder)
        ensures
            r == (V1EnvironmentZoneBuilder {
                temperature: None,
                heat_index_temperature: None,
                pressure: None,
                relative_humidity: None,
                dew_point: None,
                dew_point_temperature: None,
                air_density: None,
                illuminance: None,
            }),
    {
        V1EnvironmentZoneBuilder {
            temperature: None,
            heat_index_temperature: None,
            pressure: None,
            relative_humidity: None,
            dew_point: None,
            dew_point_temperature: None,
            air_density: None,
            illuminance: None,
        }
    }
}

pub struct V1EnvironmentZoneBuilder {
    pub temperature: Option<V1NumberValue>,
    pub heat_index_temperature: Option<V1NumberValue>,
    pub pressure: Option<V1NumberValue>,
    pub relative_humidity: Option<V1NumberValue>,
    pub dew_point: Option<V1NumberValue>,
    pub dew_point_temperature: Option<V1NumberValue>,
    pub air_density: Option<V1NumberValue>,
    pub illuminance: Option<V1NumberValue>,
}

impl V1EnvironmentZoneBuilder {
    pub fn temperature(self, value: V1NumberValue) -> (r: V1EnvironmentZoneBuilder)
        ensures
            r == (V1EnvironmentZoneBuilder { temperature: Some(value), ..self }),
    {
        V1EnvironmentZoneBuilder { temperature: Some(value), ..self }
    }

    pub fn heat_index_temperature(self, value: V1NumberValue) -> (r: V1EnvironmentZoneBuilder)
        ensures
            r == (V1EnvironmentZoneBuilder { heat_index_temperature: Some(value), ..self }),
    {
        V1EnvironmentZoneBuilder { heat_index_temperature: Some(value), ..self }
    }

    pub fn pressure(self, value: V1NumberValue) -> (r: V1EnvironmentZoneBuilder)
        ensures
            r == (V1EnvironmentZoneBuilder { pressure: Some(value), ..self }),
    {
        V1EnvironmentZoneBuilder { pressure: Some(value), ..self }
    }

    pub fn relative_humidity(self, value: V1NumberValue) -> (r: V1EnvironmentZoneBuilder)
        ensures
            r == (V1EnvironmentZoneBuilder { relative_humidity: Some(value), ..self }),
    {
        V1EnvironmentZoneBuilder { relative_humidity: Some(value), ..self }
    }

    pub fn dew_point(self, value: V1NumberValue) -> (r: V1EnvironmentZoneBuilder)
        ensures
            r == (V1EnvironmentZoneBuilder { dew_point: Some(value), ..self }),
    {
        V1EnvironmentZoneBuilder { dew_point: Some(value), ..self }
    }

    pub fn dew_point_temperature(self, value: V1NumberValue) -> (r: V1EnvironmentZoneBuilder)
        ensures
            r == (V1EnvironmentZoneBuilder { dew_point_temperature: Some(value), ..self }),
    {
        V1EnvironmentZoneBuilder { dew_point_temperature: Some(value), ..self }
    }

    pub fn air_density(self, value: V1NumberValue) -> (r: V1EnvironmentZoneBuilder)
        ensures
            r == (V1EnvironmentZoneBuilder { air_density: Some(value), ..self }),
    {
        V1EnvironmentZoneBuilder { air_density: Some(value), ..self }
    }

    pub fn illuminance(self, value: V1NumberValue) -> (r: V1EnvironmentZoneBuilder)
        ensures
            r == (V1EnvironmentZoneBuilder { illuminance: Some(value), ..self }),
    {
        V1EnvironmentZoneBuilder { illuminance: Some(value), ..self }
    }

    pub fn build(self) -> (r: V1EnvironmentZone)
        ensures
            r == (V1EnvironmentZone {
                temperature: self.temperature,
                heat_index_temperature: self.heat_index_temperature,
                pressure: self.pressure,
                relative_humidity: self.relative_humidity,
                dew_point: self.dew_point,
                dew_point_temperature: self.dew_point_temperature,
                air_density: self.air_density,
                illuminance: self.illuminance,
            }),
    {
        V1EnvironmentZone {
            temperature: self.temperature,
            heat_index_temperature: self.heat_index_temperature,
            pressure: self.pressure,
            relative_humidity: self.relative_humidity,
            dew_point: self.dew_point,
            dew_point_temperature: self.dew_point_temperature,
            air_density: self.air_density,
            illuminance: self.illuminance,
        }
    }
}

/// Zones inside the vessel, keyed by zone name.
#[derive(Debug)]
pub struct V1EnvironmentInside {
    pub zones: StrMap<V1EnvironmentZone>,
}

impl View for V1EnvironmentInside {
    type V = Map<Seq<char>, ZoneView>;

    open spec fn view(&self) -> Map<Seq<char>, ZoneView> {
        self.zones@.map_values(|z: V1EnvironmentZone| z@)
    }
}

impl Default for V1EnvironmentInside {
    fn default() -> (r: Self)
        ensures
            r@ == Map::<Seq<char>, ZoneView>::empty(),
    {
        let r = V1EnvironmentInside { zones: StrMap::new() };
        proof {
            assert(r@ =~= Map::<Seq<char>, ZoneView>::empty());
        }
        r
    }
}

impl V1EnvironmentInside {
    pub fn builder() -> (r: V1EnvironmentInsideBuilder)
        ensures
            r.zones@ == Map::<Seq<char>, V1EnvironmentZone>::empty(),
    {
        V1EnvironmentInsideBuilder { zones: StrMap::new() }
    }
}

pub struct V1EnvironmentInsideBuilder {
    pub zones: StrMap<V1EnvironmentZone>,
}

impl V1EnvironmentInsideBuilder {
    pub fn add_zone(self, key: String, value: V1EnvironmentZone) -> (r: V1EnvironmentInsideBuilder)
        ensures
            r.zones@ == self.zones@.insert(key@, value),
    {
        let mut zones = self.zones;
        zones.insert(key, value);
        V1EnvironmentInsideBuilder { zones }
    }

    pub fn build(self) -> (r: V1EnvironmentInside)
        ensures
            r.zones@ == self.zones@,
    {
        V1EnvironmentInside { zones: self.zones }
    }
}

/// Water conditions at the hull.
#[derive(PartialEq, Debug, Clone)]
pub struct V1EnvironmentWater {
    pub temperature: Option<V1NumberValue>,
    pub salinity: Option<V1NumberValue>,
}

/// Mathematical model of the water block.
#[verifier::ext_equal]
pub struct WaterView {
    pub temperature: Option<NumberValueView>,
    pub salinity: Option<NumberValueView>,
}

impl View for V1EnvironmentWater {
    type V = WaterView;

    open spec fn view(&self) -> WaterView {
        WaterView {
            temperature: opt_view(self.temperature),
            salinity: opt_view(self.salinity),
        }
    }
}

impl WaterView {
    pub open spec fn empty() -> WaterView {
        WaterView { temperature: None, salinity: None }
    }
}

impl V1EnvironmentWater {
    pub fn new(temperature: Option<V1NumberValue>, salinity: Option<V1NumberValue>) -> (r: Self)
        ensures
            r == (V1EnvironmentWater { temperature, salinity }),
    {
        V1EnvironmentWater { temperature, salinity }
    }
}

impl Default for V1EnvironmentWater {
    fn default() -> (r: Self)
        ensures
            r@ == WaterView::empty(),
    {
        V1EnvironmentWater { temperature: None, salinity: None }
    }
}

/// Depth soundings.
#[derive(PartialEq, Debug, Clone)]
pub struct V1EnvironmentDepth {
    pub below_keel: Option<V1NumberValue>,
    pub below_transducer: Option<V1NumberValue>,
    pub below_surface: Option<V1NumberValue>,
    pub transducer_to_keel: Option<V1NumberValue>,
    pub surface_to_transducer: Option<V1NumberValue>,
}

/// Mathematical model of the depth block.
#[verifier::ext_equal]
pub struct DepthView {
    pub below_keel: Option<NumberValueView>,
    pub below_transducer: Option<NumberValueView>,
    pub below_surface: Option<NumberValueView>,
    pub transducer_to_keel: Option<NumberValueView>,
    pub surface_to_transducer: Option<NumberValueView>,
}

impl View for V1EnvironmentDepth {
    type V = DepthView;

    open spec fn view(&self) -> DepthView {
        DepthView {
            below_keel: opt_view(self.below_keel),
            below_transducer: opt_view(self.below_transducer),
            below_surface: opt_view(self.below_surface),
            transducer_to_keel: opt_view(self.transducer_to_keel),
            surface_to_transducer: opt_view(self.surface_to_transducer),
        }
    }
}

impl DepthView {
    pub open spec fn empty() -> DepthView {
        DepthView {
            below_keel: None,
            below_transducer: None,
            below_surface: None,
            transducer_to_keel: None,
            surface_to_transducer: None,
        }
    }
}

impl Default for V1EnvironmentDepth {
    fn default() -> (r: Self)
        ensures
            r@ == DepthView::empty(),
    {
        V1EnvironmentDepth {
            below_keel: None,
            below_transducer: None,
            below_surface: None,
            transducer_to_keel: None,
            surface_to_transducer: None,
        }
    }
}

impl V1EnvironmentDepth {
    pub fn builder() -> (r: V1EnvironmentDepthBuilder)
        ensures
            r == (V1EnvironmentDepthBuilder {
                below_keel: None,
                below_transducer: None,
                below_surface: None,
                transducer_to_keel: None,
                surface_to_transducer: None,
            }),
    {
        V1EnvironmentDepthBuilder {
            below_keel: None,
            below_transducer: None,
            below_surface: None,
            transducer_to_keel: None,
            surface_to_transducer: None,
        }
    }
}

pub struct V1EnvironmentDepthBuilder {
    pub below_keel: Option<V1NumberValue>,
    pub below_transducer: Option<V1NumberValue>,
    pub below_surface: Option<V1NumberValue>,
    pub transducer_to_keel: Option<V1NumberValue>,
    pub surface_to_transducer: Option<V1NumberValue>,
}

impl V1EnvironmentDepthBuilder {
    pub fn below_keel(self, value: V1NumberValue) -> (r: V1EnvironmentDepthBuilder)
        ensures
            r == (V1EnvironmentDepthBuilder { below_keel: Some(value), ..self }),
    {
        V1EnvironmentDepthBuilder { below_keel: Some(value), ..self }
    }

    pub fn below_transducer(self, value: V1NumberValue) -> (r: V1EnvironmentDepthBuilder)
        ensures
            r == (V1EnvironmentDepthBuilder { below_transducer: Some(value), ..self }),
    {
        V1EnvironmentDepthBuilder { below_transducer: Some(value), ..self }
    }

    pub fn below_surface(self, value: V1NumberValue) -> (r: V1EnvironmentDepthBuilder)
        ensures
            r == (V1EnvironmentDepthBuilder { below_surface: Some(value), ..self }),
    {
        V1EnvironmentDepthBuilder { below_surface: Some(value), ..self }
    }

    pub fn transducer_to_keel(self, value: V1NumberValue) -> (r: V1EnvironmentDepthBuilder)
        ensures
            r == (V1EnvironmentDepthBuilder { transducer_to_keel: Some(value), ..self }),
    {
        V1EnvironmentDepthBuilder { transducer_to_keel: Some(value), ..self }
    }

    pub fn surface_to_transducer(self, value: V1NumberValue) -> (r: V1EnvironmentDepthBuilder)
        ensures
            r == (V1EnvironmentDepthBuilder { surface_to_transducer: Some(value), ..self }),
    {
        V1EnvironmentDepthBuilder { surface_to_transducer: Some(value), ..self }
    }

    pub fn build(self) -> (r: V1EnvironmentDepth)
        ensures
            r == (V1EnvironmentDepth {
                below_keel: self.below_keel,
                below_transducer: self.below_transducer,
                below_surface: self.below_surface,
                transducer_to_keel: self.transducer_to_keel,
                surface_to_transducer: self.surface_to_transducer,
            }),
    {
        V1EnvironmentDepth {
            below_keel: self.below_keel,
            below_transducer: self.below_transducer,
            below_surface: self.below_surface,
            transducer_to_keel: self.transducer_to_keel,
            surface_to_transducer: self.surface_to_transducer,
        }
    }
}

/// A current reading.
#[derive(PartialEq, Debug, Clone)]
pub struct V1EnvironmentCurrentValue {
    pub drift: Option<V1Num>,
    pub set_true: Option<V1Num>,
    pub set_magnetic: Option<V1Num>,
}

/// One source's current reading.
#[derive(PartialEq, Debug, Clone)]
pub struct V1EnvironmentCurrentType {
    pub timestamp: Option<String>,
    pub pgn: Option<V1Num>,
    pub sentence: Option<String>,
    pub value: Option<V1EnvironmentCurrentValue>,
}

/// Water current over all sources.
#[derive(Debug)]
pub struct V1EnvironmentCurrent {
    pub common: Option<V1CommonValueFields>,
    pub value: Option<V1EnvironmentCurrentValue>,
    pub values: Option<StrMap<V1EnvironmentCurrentType>>,
}

/// Tide state.
#[derive(PartialEq, Debug, Clone)]
pub struct V1EnvironmentTide {
    pub height_high: Option<V1NumberValue>,
    pub height_now: Option<V1NumberValue>,
    pub height_low: Option<V1NumberValue>,
    pub time_low: Option<String>,
    pub time_high: Option<String>,
}

/// Wind measurements.
#[derive(PartialEq, Debug, Clone)]
pub struct V1EnvironmentWind {
    pub angle_apparent: Option<V1NumberValue>,
    pub angle_true_ground: Option<V1NumberValue>,
    pub angle_true_water: Option<V1NumberValue>,
    pub direction_change_alarm: Option<V1NumberValue>,
    pub direction_true: Option<V1NumberValue>,
    pub direction_magnetic: Option<V1NumberValue>,
    pub speed_true: Option<V1NumberValue>,
    pub speed_over_ground: Option<V1NumberValue>,
    pub speed_apparent: Option<V1NumberValue>,
}

/// Mathematical model of the wind block.
#[verifier::ext_equal]
pub struct WindView {
    pub angle_apparent: Option<NumberValueView>,
    pub angle_true_ground: Option<NumberValueView>,
    pub angle_true_water: Option<NumberValueView>,
    pub direction_change_alarm: Option<NumberValueView>,
    pub direction_true: Option<NumberValueView>,
    pub direction_magnetic: Option<NumberValueView>,
    pub speed_true: Option<NumberValueView>,
    pub speed_over_ground: Option<NumberValueView>,
    pub speed_apparent: Option<NumberValueView>,
}

impl View for V1EnvironmentWind {
    type V = WindView;

    open spec fn view(&self) -> WindView {
        WindView {
            angle_apparent: opt_view(self.angle_apparent),
            angle_true_ground: opt_view(self.angle_true_ground),
            angle_true_water: opt_view(self.angle_true_water),
            direction_change_alarm: opt_view(self.direction_change_alarm),
            direction_true: opt_view(self.direction_true),
            direction_magnetic: opt_view(self.direction_magnetic),
            speed_true: opt_view(self.speed_true),
            speed_over_ground: opt_view(self.speed_over_ground),
            speed_apparent: opt_view(self.speed_apparent),
        }
    }
}

impl WindView {
    pub open spec fn empty() -> WindView {
        WindView {
            angle_apparent: None,
            angle_true_ground: None,
            angle_true_water: None,
            direction_change_alarm: None,
            direction_true: None,
            direction_magnetic: None,
            speed_true: None,
            speed_over_ground: None,
            speed_apparent: None,
        }
    }
}

impl Default for V1EnvironmentWind {
    fn default() -> (r: Self)
        ensures
            r@ == WindView::empty(),
    {
        V1EnvironmentWind {
            angle_apparent: None,
            angle_true_ground: None,
            angle_true_water: None,
            direction_change_alarm: None,
            direction_true: None,
            direction_magnetic: None,
            speed_true: None,
            speed_over_ground: None,
            speed_apparent: None,
        }
    }
}

/// Time as a source reports it.
#[derive(PartialEq, Debug, Clone)]
pub struct V1EnvironmentTime {
    pub millis: Option<i64>,
    pub timezone_offset: Option<i64>,
    pub timezone_region: Option<String>,
    pub timestamp: Option<String>,
    pub source: Option<String>,
}

/// Sailing mode of the vessel.
#[derive(PartialEq, Debug, Clone)]
pub struct V1EnvironmentMode {
    pub value: Option<String>,
    pub timestamp: Option<String>,
    pub source: Option<String>,
}

/// Environmental data of one vessel.
#[derive(Debug)]
pub struct V1Environment {
    pub outside: Option<V1EnvironmentOutside>,
    pub inside: Option<V1EnvironmentInside>,
    pub water: Option<V1EnvironmentWater>,
    pub depth: Option<V1EnvironmentDepth>,
    pub current: Option<V1EnvironmentCurrent>,
    pub tide: Option<V1EnvironmentTide>,
    pub heave: Option<V1NumberValue>,
    pub wind: Option<V1EnvironmentWind>,
    pub time: Option<V1EnvironmentTime>,
    pub mode: Option<V1EnvironmentMode>,
}

/// Mathematical model of the environment block.  Subtrees the merge engine
/// writes into are modelled; the others are carried as they stand.
#[verifier::ext_equal]
pub struct EnvironmentView {
    pub outside: Option<OutsideView>,
    pub inside: Option<Map<Seq<char>, ZoneView>>,
    pub water: Option<WaterView>,
    pub depth: Option<DepthView>,
    pub current: Option<V1EnvironmentCurrent>,
    pub tide: Option<V1EnvironmentTide>,
    pub heave: Option<NumberValueView>,
    pub wind: Option<WindView>,
    pub time: Option<V1EnvironmentTime>,
    pub mode: Option<V1EnvironmentMode>,
}

impl View for V1Environment {
    type V = EnvironmentView;

    open spec fn view(&self) -> EnvironmentView {
        EnvironmentView {
            outside: opt_view(self.outside),
            inside: opt_view(self.inside),
            water: opt_view(self.water),
            depth: opt_view(self.depth),
            current: self.current,
            tide: self.tide,
            heave: opt_view(self.heave),
            wind: opt_view(self.wind),
            time: self.time,
            mode: self.mode,
        }
    }
}

impl EnvironmentView {
    /// The model of an environment block with nothing merged yet.
    pub open spec fn empty() -> EnvironmentView {
        EnvironmentView {
            outside: None,
            inside: None,
            water: None,
            depth: None,
            current: None,
            tide: None,
            heave: None,
            wind: None,
            time: None,
            mode: None,
        }
    }
}

impl Default for V1Environment {
    fn default() -> (r: Self)
        ensures
            r@ == EnvironmentView::empty(),
    {
        V1Environment {
            outside: None,
            inside: None,
            water: None,
            depth: None,
            current: None,
            tide: None,
            heave: None,
            wind: None,
            time: None,
            mode: None,
        }
    }
}

impl V1Environment {
    pub fn builder() -> (r: V1EnvironmentBuilder)
        ensures
            r.outside is None,
            r.inside is None,
            r.water is None,
            r.depth is None,
            r.current is None,
            r.tide is None,
            r.heave is None,
            r.wind is None,
            r.time is None,
            r.mode is None,
    {
        V1EnvironmentBuilder {
            outside: None,
            inside: None,
            water: None,
            depth: None,
            current: None,
            tide: None,
            heave: None,
            wind: None,
            time: None,
            mode: None,
        }
    }
}

pub struct V1EnvironmentBuilder {
    pub outside: Option<V1EnvironmentOutside>,
    pub inside: Option<V1EnvironmentInside>,
    pub water: Option<V1EnvironmentWater>,
    pub depth: Option<V1EnvironmentDepth>,
    pub current: Option<V1EnvironmentCurrent>,
    pub tide: Option<V1EnvironmentTide>,
    pub heave: Option<V1NumberValue>,
    pub wind: Option<V1EnvironmentWind>,
    pub time: Option<V1EnvironmentTime>,
    pub mode: Option<V1EnvironmentMode>,
}

impl V1EnvironmentBuilder {
    pub fn outside(self, label: V1EnvironmentOutside) -> (r: V1EnvironmentBuilder)
        ensures
            r == (V1EnvironmentBuilder { outside: Some(label), ..self }),
    {
        V1EnvironmentBuilder { outside: Some(label), ..self }
    }

    pub fn inside(self, label: V1EnvironmentInside) -> (r: V1EnvironmentBuilder)
        ensures
            r == (V1EnvironmentBuilder { inside: Some(label), ..self }),
    {
        V1EnvironmentBuilder { inside: Some(label), ..self }
    }

    pub fn water(self, label: V1EnvironmentWater) -> (r: V1EnvironmentBuilder)
        ensures
            r == (V1EnvironmentBuilder { water: Some(label), ..self }),
    {
        V1EnvironmentBuilder { water: Some(label), ..self }
    }

    pub fn depth(self, label: V1EnvironmentDepth) -> (r: V1EnvironmentBuilder)
        ensures
            r == (V1EnvironmentBuilder { depth: Some(label), ..self }),
    {
        V1EnvironmentBuilder { depth: Some(label), ..self }
    }

    pub fn current(self, label: V1EnvironmentCurrent) -> (r: V1EnvironmentBuilder)
        ensures
            r == (V1EnvironmentBuilder { current: Some(label), ..self }),
    {
        V1EnvironmentBuilder { current: Some(label), ..self }
    }

    pub fn tide(self, label: V1EnvironmentTide) -> (r: V1EnvironmentBuilder)
        ensures
            r == (V1EnvironmentBuilder { tide: Some(label), ..self }),
    {
        V1EnvironmentBuilder { tide: Some(label), ..self }
    }

    pub fn heave(self, label: V1NumberValue) -> (r: V1EnvironmentBuilder)
        ensures
            r == (V1EnvironmentBuilder { heave: Some(label), ..self }),
    {
        V1EnvironmentBuilder { heave: Some(label), ..self }
    }

    pub fn wind(self, label: V1EnvironmentWind) -> (r: V1EnvironmentBuilder)
        ensures
            r == (V1EnvironmentBuilder { wind: Some(label), ..self }),
    {
        V1EnvironmentBuilder { wind: Some(label), ..self }
    }

    pub fn time(self, label: V1EnvironmentTime) -> (r: V1EnvironmentBuilder)
        ensures
            r == (V1EnvironmentBuilder { time: Some(label), ..self }),
    {
        V1EnvironmentBuilder { time: Some(label), ..self }
    }

    pub fn mode(self, label: V1EnvironmentMode) -> (r: V1EnvironmentBuilder)
        ensures
            r == (V1EnvironmentBuilder { mode: Some(label), ..self }),
    {
        V1EnvironmentBuilder { mode: Some(label), ..self }
    }

    pub fn build(self) -> (r: V1Environment)
        ensures
            r == (V1Environment {
                outside: self.outside,
                inside: self.inside,
                water: self.water,
                depth: self.depth,
                current: self.current,
                tide: self.tide,
                heave: self.heave,
                wind: self.wind,
                time: self.time,
                mode: self.mode,
            }),
    {
        V1Environment {
            outside: self.outside,
            inside: self.inside,
            water: self.water,
            depth: self.depth,
            current: self.current,
            tide: self.tide,
            heave: self.heave,
            wind: self.wind,
            time: self.time,
            mode: self.mode,
        }
    }
}

} // verus!
