use vstd::prelude::*;

use crate::definitions::V1CommonValueFields;
use crate::definitions::V1NumberValue;
use crate::navigation::NumberValueView;
use crate::navigation::opt_view;
use crate::strmap::StrMap;
use crate::value::V1Num;

verus! {

/// Identity of an electrical device.
#[derive(PartialEq, Debug, Clone)]
pub struct V1ElectricalIdentity {
    pub name: Option<String>,
    pub location: Option<String>,
    pub date_installed: Option<String>,
    pub manufacturer: Option<V1ElectricalManufacturer>,
}

impl V1ElectricalIdentity {
    pub fn builder() -> (r: V1ElectricalIdentityBuilder)
        ensures
            r == (V1ElectricalIdentityBuilder {
                name: None,
                location: None,
                date_installed: None,
                manufacturer: None,
            }),
    {
        V1ElectricalIdentityBuilder {
            name: None,
            location: None,
            date_installed: None,
            manufacturer: None,
        }
    }
}

pub struct V1ElectricalIdentityBuilder {
    pub name: Option<String>,
    pub location: Option<String>,
    pub date_installed: Option<String>,
    pub manufacturer: Option<V1ElectricalManufacturer>,
}

impl V1ElectricalIdentityBuilder {
    pub fn name(self, value: String) -> (r: V1ElectricalIdentityBuilder)
        ensures
            r == (V1ElectricalIdentityBuilder { name: Some(value), ..self }),
    {
        V1ElectricalIdentityBuilder { name: Some(value), ..self }
    }

    pub fn location(self, value: String) -> (r: V1ElectricalIdentityBuilder)
        ensures
            r == (V1ElectricalIdentityBuilder { location: Some(value), ..self }),
    {
        V1ElectricalIdentityBuilder { location: Some(value), ..self }
    }

    pub fn date_installed(self, value: String) -> (r: V1ElectricalIdentityBuilder)
        ensures
            r == (V1ElectricalIdentityBuilder { date_installed: Some(value), ..self }),
    {
        V1ElectricalIdentityBuilder { date_installed: Some(value), ..self }
    }

    pub fn manufacturer(self, value: V1ElectricalManufacturer) -> (r: V1ElectricalIdentityBuilder)
        ensures
            r == (V1ElectricalIdentityBuilder { manufacturer: Some(value), ..self }),
    {
        V1ElectricalIdentityBuilder { manufacturer: Some(value), ..self }
    }

    pub fn build(self) -> (r: V1ElectricalIdentity)
        ensures
            r == (V1ElectricalIdentity {
                name: self.name,
                location: self.location,
                date_installed: self.date_installed,
                manufacturer: self.manufacturer,
            }),
    {
        V1ElectricalIdentity {
            name: self.name,
            location: self.location,
            date_installed: self.date_installed,
            manufacturer: self.manufacturer,
        }
    }
}

/// Maker of an electrical device.
#[derive(PartialEq, Debug, Clone)]
pub struct V1ElectricalManufacturer {
    pub name: Option<String>,
    pub model: Option<String>,
    pub url: Option<String>,
}

impl V1ElectricalManufacturer {
    pub fn builder() -> (r: V1ElectricalManufacturerBuilder)
        ensures
            r == (V1ElectricalManufacturerBuilder { name: None, model: None, url: None }),
    {
        V1ElectricalManufacturerBuilder { name: None, model: None, url: None }
    }
}

pub struct V1ElectricalManufacturerBuilder {
    pub name: Option<String>,
    pub model: Option<String>,
    pub url: Option<String>,
}

impl V1ElectricalManufacturerBuilder {
    pub fn name(self, value: String) -> (r: V1ElectricalManufacturerBuilder)
        ensures
            r == (V1ElectricalManufacturerBuilder { name: Some(value), ..self }),
    {
        V1ElectricalManufacturerBuilder { name: Some(value), ..self }
    }

    pub fn model(self, value: String) -> (r: V1ElectricalManufacturerBuilder)
        ensures
            r == (V1ElectricalManufacturerBuilder { model: Some(value), ..self }),
    {
        V1ElectricalManufacturerBuilder { model: Some(value), ..self }
    }

    pub fn url(self, value: String) -> (r: V1ElectricalManufacturerBuilder)
        ensures
            r == (V1ElectricalManufacturerBuilder { url: Some(value), ..self }),
    {
        V1ElectricalManufacturerBuilder { url: Some(value), ..self }
    }

    pub fn build(self) -> (r: V1ElectricalManufacturer)
        ensures
            r == (V1ElectricalManufacturer {
                name: self.name,
                model: self.model,
                url: self.url,
            }),
    {
        V1ElectricalManufacturer { name: self.name, model: self.model, url: self.url }
    }
}

/// Alarm bounds for a DC voltage.
#[derive(PartialEq, Debug, Clone, Copy)]
pub struct V1ElectricalDCVoltageMeta {
    pub nominal: Option<V1Num>,
    pub warn_upper: Option<V1Num>,
    pub warn_lower: Option<V1Num>,
    pub fault_upper: Option<V1Num>,
    pub fault_lower: Option<V1Num>,
}

impl V1ElectricalDCVoltageMeta {
    pub fn builder() -> (r: V1ElectricalDCVoltageMetaBuilder)
        ensures
            r == (V1ElectricalDCVoltageMetaBuilder {
                nominal: None,
                warn_upper: None,
                warn_lower: None,
                fault_upper: None,
                fault_lower: None,
            }),
    {
        V1ElectricalDCVoltageMetaBuilder {
            nominal: None,
            warn_upper: None,
            warn_lower: None,
            fault_upper: None,
            fault_lower: None,
        }
    }
}

pub struct V1ElectricalDCVoltageMetaBuilder {
    pub nominal: Option<V1Num>,
    pub warn_upper: Option<V1Num>,
    pub warn_lower: Option<V1Num>,
    pub fault_upper: Option<V1Num>,
    pub fault_lower: Option<V1Num>,
}

impl V1ElectricalDCVoltageMetaBuilder {
    pub fn nominal(self, value: V1Num) -> (r: V1ElectricalDCVoltageMetaBuilder)
        ensures
            r == (V1ElectricalDCVoltageMetaBuilder { nominal: Some(value), ..self }),
    {
        V1ElectricalDCVoltageMetaBuilder { nominal: Some(value), ..self }
    }

    pub fn warn_upper(self, value: V1Num) -> (r: V1ElectricalDCVoltageMetaBuilder)
        ensures
            r == (V1ElectricalDCVoltageMetaBuilder { warn_upper: Some(value), ..self }),
    {
        V1ElectricalDCVoltageMetaBuilder { warn_upper: Some(value), ..self }
    }

    pub fn warn_lower(self, value: V1Num) -> (r: V1ElectricalDCVoltageMetaBuilder)
        ensures
            r == (V1ElectricalDCVoltageMetaBuilder { warn_lower: Some(value), ..self }),
    {
        V1ElectricalDCVoltageMetaBuilder { warn_lower: Some(value), ..self }
    }

    pub fn fault_upper(self, value: V1Num) -> (r: V1ElectricalDCVoltageMetaBuilder)
        ensures
            r == (V1ElectricalDCVoltageMetaBuilder { fault_upper: Some(value), ..self }),
    {
        V1ElectricalDCVoltageMetaBuilder { fault_upper: Some(value), ..self }
    }

    pub fn fault_lower(self, value: V1Num) -> (r: V1ElectricalDCVoltageMetaBuilder)
        ensures
            r == (V1ElectricalDCVoltageMetaBuilder { fault_lower: Some(value), ..self }),
    {
        V1ElectricalDCVoltageMetaBuilder { fault_lower: Some(value), ..self }
    }

    pub fn build(self) -> (r: V1ElectricalDCVoltageMeta)
        ensures
            r == (V1ElectricalDCVoltageMeta {
                nominal: self.nominal,
                warn_upper: self.warn_upper,
                warn_lower: self.warn_lower,
                fault_upper: self.fault_upper,
                fault_lower: self.fault_lower,
            }),
    {
        V1ElectricalDCVoltageMeta {
            nominal: self.nominal,
            warn_upper: self.warn_upper,
            warn_lower: self.warn_lower,
            fault_upper: self.fault_upper,
            fault_lower: self.fault_lower,
        }
    }
}

/// A measured DC voltage.
#[derive(PartialEq, Debug, Clone)]
pub struct V1ElectricalDCVoltageValue {
    pub value: Option<V1NumberValue>,
    pub ripple: Option<V1NumberValue>,
    pub meta: Option<V1ElectricalDCVoltageMeta>,
}

/// Mathematical model of a DC voltage entry.
#[verifier::ext_equal]
pub struct DCVoltageValueView {
    pub value: Option<NumberValueView>,
    pub ripple: Option<NumberValueView>,
    pub meta: Option<V1ElectricalDCVoltageMeta>,
}

impl View for V1ElectricalDCVoltageValue {
    type V = DCVoltageValueView;

    open spec fn view(&self) -> DCVoltageValueView {
        DCVoltageValueView {
            value: opt_view(self.value),
            ripple: opt_view(self.ripple),
            meta: self.meta,
        }
    }
}

impl V1ElectricalDCVoltageValue {
    pub fn builder() -> (r: V1ElectricalDCVoltageValueBuilder)
        ensures
            r == (V1ElectricalDCVoltageValueBuilder { value: None, ripple: None, meta: None }),
    {
        V1ElectricalDCVoltageValueBuilder { value: None, ripple: None, meta: None }
    }
}

pub struct V1ElectricalDCVoltageValueBuilder {
    pub value: Option<V1NumberValue>,
    pub ripple: Option<V1NumberValue>,
    pub meta: Option<V1ElectricalDCVoltageMeta>,
}

impl V1ElectricalDCVoltageValueBuilder {
    pub fn value(self, value: V1NumberValue) -> (r: V1ElectricalDCVoltageValueBuilder)
        ensures
            r == (V1ElectricalDCVoltageValueBuilder { value: Some(value), ..self }),
    {
        V1ElectricalDCVoltageValueBuilder { value: Some(value), ..self }
    }

    pub fn ripple(self, value: V1NumberValue) -> (r: V1ElectricalDCVoltageValueBuilder)
        ensures
            r == (V1ElectricalDCVoltageValueBuilder { ripple: Some(value), ..self }),
    {
        V1ElectricalDCVoltageValueBuilder { ripple: Some(value), ..self }
    }

    pub fn meta(self, value: V1ElectricalDCVoltageMeta) -> (r: V1ElectricalDCVoltageValueBuilder)
        ensures
            r == (V1ElectricalDCVoltageValueBuilder { meta: Some(value), ..self }),
    {
        V1ElectricalDCVoltageValueBuilder { meta: Some(value), ..self }
    }

    pub fn build(self) -> (r: V1ElectricalDCVoltageValue)
        ensures
            r == (V1ElectricalDCVoltageValue {
                value: self.value,
                ripple: self.ripple,
                meta: self.meta,
            }),
    {
        V1ElectricalDCVoltageValue { value: self.value, ripple: self.ripple, meta: self.meta }
    }
}

/// Alarm bounds for a DC current.
#[derive(PartialEq, Debug, Clone, Copy)]
pub struct V1ElectricalDCCurrentMeta {
    pub warn_upper: Option<V1Num>,
    pub warn_lower: Option<V1Num>,
    pub fault_upper: Option<V1Num>,
    pub fault_lower: Option<V1Num>,
}

impl V1ElectricalDCCurrentMeta {
    pub fn new(
        warn_upper: Option<V1Num>,
        warn_lower: Option<V1Num>,
        fault_upper: Option<V1Num>,
        fault_lower: Option<V1Num>,
    ) -> (r: Self)
        ensures
            r == (V1ElectricalDCCurrentMeta { warn_upper, warn_lower, fault_upper, fault_lower }),
    {
        V1ElectricalDCCurrentMeta { warn_upper, warn_lower, fault_upper, fault_lower }
    }
}

/// A measured DC current.
#[derive(PartialEq, Debug, Clone)]
pub struct V1ElectricalDCCurrentValue {
    pub value: Option<V1NumberValue>,
    pub meta: Option<V1ElectricalDCCurrentMeta>,
}

/// Mathematical model of a DC current entry.
#[verifier::ext_equal]
pub struct DCCurrentValueView {
    pub value: Option<NumberValueView>,
    pub meta: Option<V1ElectricalDCCurrentMeta>,
}

impl View for V1ElectricalDCCurrentValue {
    type V = DCCurrentValueView;

    open spec fn view(&self) -> DCCurrentValueView {
        DCCurrentValueView { value: opt_view(self.value), meta: self.meta }
    }
}

impl V1ElectricalDCCurrentValue {
    pub fn builder() -> (r: V1ElectricalDCCurrentValueBuilder)
        ensures
            r == (V1ElectricalDCCurrentValueBuilder { value: None, meta: None }),
    {
        V1ElectricalDCCurrentValueBuilder { value: None, meta: None }
    }
}

pub struct V1ElectricalDCCurrentValueBuilder {
    pub value: Option<V1NumberValue>,
    pub meta: Option<V1ElectricalDCCurrentMeta>,
}

impl V1ElectricalDCCurrentValueBuilder {
    pub fn value(self, value: V1NumberValue) -> (r: V1ElectricalDCCurrentValueBuilder)
        ensures
            r == (V1ElectricalDCCurrentValueBuilder { value: Some(value), ..self }),
    {
        V1ElectricalDCCurrentValueBuilder { value: Some(value), ..self }
    }

    pub fn meta(self, value: V1ElectricalDCCurrentMeta) -> (r: V1ElectricalDCCurrentValueBuilder)
        ensures
            r == (V1ElectricalDCCurrentValueBuilder { meta: Some(value), ..self }),
    {
        V1ElectricalDCCurrentValueBuilder { meta: Some(value), ..self }
    }

    pub fn build(self) -> (r: V1ElectricalDCCurrentValue)
        ensures
            r == (V1ElectricalDCCurrentValue { value: self.value, meta: self.meta }),
    {
        V1ElectricalDCCurrentValue { value: self.value, meta: self.meta }
    }
}

/// A measured DC temperature with its alarm bounds.
#[derive(PartialEq, Debug, Clone)]
pub struct V1ElectricalDCTemperatureValue {
    pub value: Option<V1NumberValue>,
    pub warn_upper: Option<V1Num>,
    pub warn_lower: Option<V1Num>,
    pub fault_upper: Option<V1Num>,
    pub fault_lower: Option<V1Num>,
}

/// Mathematical model of a DC temperature entry.
#[verifier::ext_equal]
pub struct DCTemperatureValueView {
    pub value: Option<NumberValueView>,
    pub warn_upper: Option<V1Num>,
    pub warn_lower: Option<V1Num>,
    pub fault_upper: Option<V1Num>,
    pub fault_lower: Option<V1Num>,
}

impl View for V1ElectricalDCTemperatureValue {
    type V = DCTemperatureValueView;

    open spec fn view(&self) -> DCTemperatureValueView {
        DCTemperatureValueView {
            value: opt_view(self.value),
            warn_upper: self.warn_upper,
            warn_lower: self.warn_lower,
            fault_upper: self.fault_upper,
            fault_lower: self.fault_lower,
        }
    }
}

impl V1ElectricalDCTemperatureValue {
    pub fn new(
        value: Option<V1NumberValue>,
        warn_upper: Option<V1Num>,
        warn_lower: Option<V1Num>,
        fault_upper: Option<V1Num>,
        fault_lower: Option<V1Num>,
    ) -> (r: Self)
        ensures
            r == (V1ElectricalDCTemperatureValue {
                value,
                warn_upper,
                warn_lower,
                fault_upper,
                fault_lower,
            }),
    {
        V1ElectricalDCTemperatureValue { value, warn_upper, warn_lower, fault_upper, fault_lower }
    }
}

/// DC-side measurements of a device.
#[derive(PartialEq, Debug, Clone)]
pub struct V1ElectricalDCQualities {
    pub associated_bus: Option<String>,
    pub voltage: Option<V1ElectricalDCVoltageValue>,
    pub current: Option<V1ElectricalDCCurrentValue>,
    pub temperature: Option<V1ElectricalDCTemperatureValue>,
}

/// Mathematical model of the DC-side measurements.
#[verifier::ext_equal]
pub struct DCQualitiesView {
    pub associated_bus: Option<String>,
    pub voltage: Option<DCVoltageValueView>,
    pub current: Option<DCCurrentValueView>,
    pub temperature: Option<DCTemperatureValueView>,
}

impl View for V1ElectricalDCQualities {
    type V = DCQualitiesView;

    open spec fn view(&self) -> DCQualitiesView {
        DCQualitiesView {
            associated_bus: self.associated_bus,
            voltage: opt_view(self.voltage),
            current: opt_view(self.current),
            temperature: opt_view(self.temperature),
        }
    }
}

impl DCQualitiesView {
    pub open spec fn empty() -> DCQualitiesView {
        DCQualitiesView { associated_bus: None, voltage: None, current: None, temperature: None }
    }
}

impl Default for V1ElectricalDCQualities {
    fn default() -> (r: Self)
        ensures
            r@ == DCQualitiesView::empty(),
    {
        V1ElectricalDCQualities {
            associated_bus: None,
            voltage: None,
            current: None,
            temperature: None,
        }
    }
}

impl V1ElectricalDCQualities {
    pub fn builder() -> (r: V1ElectricalDCQualitiesBuilder)
        ensures
            r == (V1ElectricalDCQualitiesBuilder {
                associated_bus: None,
                voltage: None,
                current: None,
                temperature: None,
            }),
    {
        V1ElectricalDCQualitiesBuilder {
            associated_bus: None,
            voltage: None,
            current: None,
            temperature: None,
        }
    }
}

pub struct V1ElectricalDCQualitiesBuilder {
    pub associated_bus: Option<String>,
    pub voltage: Option<V1ElectricalDCVoltageValue>,
    pub current: Option<V1ElectricalDCCurrentValue>,
    pub temperature: Option<V1ElectricalDCTemperatureValue>,
}

impl V1ElectricalDCQualitiesBuilder {
    pub fn associated_bus(self, value: String) -> (r: V1ElectricalDCQualitiesBuilder)
        ensures
            r == (V1ElectricalDCQualitiesBuilder { associated_bus: Some(value), ..self }),
    {
        V1ElectricalDCQualitiesBuilder { associated_bus: Some(value), ..self }
    }

    pub fn voltage(self, value: V1ElectricalDCVoltageValue) -> (r: V1ElectricalDCQualitiesBuilder)
        ensures
            r == (V1ElectricalDCQualitiesBuilder { voltage: Some(value), ..self }),
    {
        V1ElectricalDCQualitiesBuilder { voltage: Some(value), ..self }
    }

    pub fn current(self, value: V1ElectricalDCCurrentValue) -> (r: V1ElectricalDCQualitiesBuilder)
        ensures
            r == (V1ElectricalDCQualitiesBuilder { current: Some(value), ..self }),
    {
        V1ElectricalDCQualitiesBuilder { current: Some(value), ..self }
    }

    pub fn temperature(self, value: V1ElectricalDCTemperatureValue) -> (
        r: V1ElectricalDCQualitiesBuilder)
        ensures
            r == (V1ElectricalDCQualitiesBuilder { temperature: Some(value), ..self }),
    {
        V1ElectricalDCQualitiesBuilder { temperature: Some(value), ..self }
    }

    pub fn build(self) -> (r: V1ElectricalDCQualities)
        ensures
            r == (V1ElectricalDCQualities {
                associated_bus: self.associated_bus,
                voltage: self.voltage,
                current: self.current,
                temperature: self.temperature,
            }),
    {
        V1ElectricalDCQualities {
            associated_bus: self.associated_bus,
            voltage: self.voltage,
            current: self.current,
            temperature: self.temperature,
        }
    }
}

/// AC-side measurements of a device.
#[derive(PartialEq, Debug, Clone)]
pub struct V1ElectricalACQualities {
    pub associated_bus: Option<String>,
    pub line_neutral_voltage: Option<V1NumberValue>,
    pub line_line_voltage: Option<V1NumberValue>,
    pub current: Option<V1NumberValue>,
    pub frequency: Option<V1NumberValue>,
    pub reactive_power: Option<V1NumberValue>,
    pub power_factor: Option<V1NumberValue>,
    pub power_factor_lagging: Option<String>,
    pub real_power: Option<V1NumberValue>,
    pub apparent_power: Option<V1NumberValue>,
}

impl V1ElectricalACQualities {
    pub fn builder() -> (r: V1ElectricalACQualitiesBuilder)
        ensures
            r == (V1ElectricalACQualitiesBuilder {
                associated_bus: None,
                line_neutral_voltage: None,
                line_line_voltage: None,
                current: None,
                frequency: None,
                reactive_power: None,
                power_factor: None,
                power_factor_lagging: None,
                real_power: None,
                apparent_power: None,
            }),
    {
        V1ElectricalACQualitiesBuilder {
            associated_bus: None,
            line_neutral_voltage: None,
            line_line_voltage: None,
            current: None,
            frequency: None,
            reactive_power: None,
            power_factor: None,
            power_factor_lagging: None,
            real_power: None,
            apparent_power: None,
        }
    }
}

pub struct V1ElectricalACQualitiesBuilder {
    pub associated_bus: Option<String>,
    pub line_neutral_voltage: Option<V1NumberValue>,
    pub line_line_voltage: Option<V1NumberValue>,
    pub current: Option<V1NumberValue>,
    pub frequency: Option<V1NumberValue>,
    pub reactive_power: Option<V1NumberValue>,
    pub power_factor: Option<V1NumberValue>,
    pub power_factor_lagging: Option<String>,
    pub real_power: Option<V1NumberValue>,
    pub apparent_power: Option<V1NumberValue>,
}

impl V1ElectricalACQualitiesBuilder {
    pub fn associated_bus(self, value: String) -> (r: V1ElectricalACQualitiesBuilder)
        ensures
            r == (V1ElectricalACQualitiesBuilder { associated_bus: Some(value), ..self }),
    {
        V1ElectricalACQualitiesBuilder { associated_bus: Some(value), ..self }
    }

    pub fn line_neutral_voltage(self, value: V1NumberValue) -> (r: V1ElectricalACQualitiesBuilder)
        ensures
            r == (V1ElectricalACQualitiesBuilder { line_neutral_voltage: Some(value), ..self }),
    {
        V1ElectricalACQualitiesBuilder { line_neutral_voltage: Some(value), ..self }
    }

    pub fn line_line_voltage(self, value: V1NumberValue) -> (r: V1ElectricalACQualitiesBuilder)
        ensures
            r == (V1ElectricalACQualitiesBuilder { line_line_voltage: Some(value), ..self }),
    {
        V1ElectricalACQualitiesBuilder { line_line_voltage: Some(value), ..self }
    }

    pub fn current(self, value: V1NumberValue) -> (r: V1ElectricalACQualitiesBuilder)
        ensures
            r == (V1ElectricalACQualitiesBuilder { current: Some(value), ..self }),
    {
        V1ElectricalACQualitiesBuilder { current: Some(value), ..self }
    }

    pub fn frequency(self, value: V1NumberValue) -> (r: V1ElectricalACQualitiesBuilder)
        ensures
            r == (V1ElectricalACQualitiesBuilder { frequency: Some(value), ..self }),
    {
        V1ElectricalACQualitiesBuilder { frequency: Some(value), ..self }
    }

    pub fn reactive_power(self, value: V1NumberValue) -> (r: V1ElectricalACQualitiesBuilder)
        ensures
            r == (V1ElectricalACQualitiesBuilder { reactive_power: Some(value), ..self }),
    {
        V1ElectricalACQualitiesBuilder { reactive_power: Some(value), ..self }
    }

    pub fn power_factor(self, value: V1NumberValue) -> (r: V1ElectricalACQualitiesBuilder)
        ensures
            r == (V1ElectricalACQualitiesBuilder { power_factor: Some(value), ..self }),
    {
        V1ElectricalACQualitiesBuilder { power_factor: Some(value), ..self }
    }

    pub fn power_factor_lagging(self, value: String) -> (r: V1ElectricalACQualitiesBuilder)
        ensures
            r == (V1ElectricalACQualitiesBuilder { power_factor_lagging: Some(value), ..self }),
    {
        V1ElectricalACQualitiesBuilder { power_factor_lagging: Some(value), ..self }
    }

    pub fn real_power(self, value: V1NumberValue) -> (r: V1ElectricalACQualitiesBuilder)
        ensures
            r == (V1ElectricalACQualitiesBuilder { real_power: Some(value), ..self }),
    {
        V1ElectricalACQualitiesBuilder { real_power: Some(value), ..self }
    }

    pub fn apparent_power(self, value: V1NumberValue) -> (r: V1ElectricalACQualitiesBuilder)
        ensures
            r == (V1ElectricalACQualitiesBuilder { apparent_power: Some(value), ..self }),
    {
        V1ElectricalACQualitiesBuilder { apparent_power: Some(value), ..self }
    }

    pub fn build(self) -> (r: V1ElectricalACQualities)
        ensures
            r == (V1ElectricalACQualities {
                associated_bus: self.associated_bus,
                line_neutral_voltage: self.line_neutral_voltage,
                line_line_voltage: self.line_line_voltage,
                current: self.current,
                frequency: self.frequency,
                reactive_power: self.reactive_power,
                power_factor: self.power_factor,
                power_factor_lagging: self.power_factor_lagging,
                real_power: self.real_power,
                apparent_power: self.apparent_power,
            }),
    {
        V1ElectricalACQualities {
            associated_bus: self.associated_bus,
            line_neutral_voltage: self.line_neutral_voltage,
            line_line_voltage: self.line_line_voltage,
            current: self.current,
            frequency: self.frequency,
            reactive_power: self.reactive_power,
            power_factor: self.power_factor,
            power_factor_lagging: self.power_factor_lagging,
            real_power: self.real_power,
            apparent_power: self.apparent_power,
        }
    }
}

/// Temperature limits of a battery.
#[derive(PartialEq, Debug, Clone, Copy)]
pub struct V1BatteryTemperature {
    pub limit_discharge_lower: Option<V1Num>,
    pub limit_discharge_upper: Option<V1Num>,
    pub limit_recharge_lower: Option<V1Num>,
    pub limit_recharge_upper: Option<V1Num>,
}

impl V1BatteryTemperature {
    pub fn new(
        limit_discharge_lower: Option<V1Num>,
        limit_discharge_upper: Option<V1Num>,
        limit_recharge_lower: Option<V1Num>,
        limit_recharge_upper: Option<V1Num>,
    ) -> (r: Self)
        ensures
            r == (V1BatteryTemperature {
                limit_discharge_lower,
                limit_discharge_upper,
                limit_recharge_lower,
                limit_recharge_upper,
            }),
    {
        V1BatteryTemperature {
            limit_discharge_lower,
            limit_discharge_upper,
            limit_recharge_lower,
            limit_recharge_upper,
        }
    }
}

/// Capacity figures of a battery.
#[derive(PartialEq, Debug, Clone, Copy)]
pub struct V1BatteryCapacity {
    pub nominal: Option<V1Num>,
    pub actual: Option<V1Num>,
    pub remaining: Option<V1Num>,
    pub discharge_limit: Option<V1Num>,
    pub state_of_charge: Option<V1Num>,
    pub state_of_health: Option<V1Num>,
    pub discharge_since_full: Option<V1Num>,
    pub time_remaining: Option<V1Num>,
}

impl V1BatteryCapacity {
    pub fn builder() -> (r: V1BatteryCapacityBuilder)
        ensures
            r == (V1BatteryCapacityBuilder {
                nominal: None,
                actual: None,
                remaining: None,
                discharge_limit: None,
                state_of_charge: None,
                state_of_health: None,
                discharge_since_full: None,
                time_remaining: None,
            }),
    {
        V1BatteryCapacityBuilder {
            nominal: None,
            actual: None,
            remaining: None,
            discharge_limit: None,
            state_of_charge: None,
            state_of_health: None,
            discharge_since_full: None,
            time_remaining: None,
        }
    }
}

pub struct V1BatteryCapacityBuilder {
    pub nominal: Option<V1Num>,
    pub actual: Option<V1Num>,
    pub remaining: Option<V1Num>,
    pub discharge_limit: Option<V1Num>,
    pub state_of_charge: Option<V1Num>,
    pub state_of_health: Option<V1Num>,
    pub discharge_since_full: Option<V1Num>,
    pub time_remaining: Option<V1Num>,
}

impl V1BatteryCapacityBuilder {
    pub fn nominal(self, value: V1Num) -> (r: V1BatteryCapacityBuilder)
        ensures
            r == (V1BatteryCapacityBuilder { nominal: Some(value), ..self }),
    {
        V1BatteryCapacityBuilder { nominal: Some(value), ..self }
    }

    pub fn actual(self, value: V1Num) -> (r: V1BatteryCapacityBuilder)
        ensures
            r == (V1BatteryCapacityBuilder { actual: Some(value), ..self }),
    {
        V1BatteryCapacityBuilder { actual: Some(value), ..self }
    }

    pub fn remaining(self, value: V1Num) -> (r: V1BatteryCapacityBuilder)
        ensures
            r == (V1BatteryCapacityBuilder { remaining: Some(value), ..self }),
    {
        V1BatteryCapacityBuilder { remaining: Some(value), ..self }
    }

    pub fn discharge_limit(self, value: V1Num) -> (r: V1BatteryCapacityBuilder)
        ensures
            r == (V1BatteryCapacityBuilder { discharge_limit: Some(value), ..self }),
    {
        V1BatteryCapacityBuilder { discharge_limit: Some(value), ..self }
    }

    pub fn state_of_charge(self, value: V1Num) -> (r: V1BatteryCapacityBuilder)
        ensures
            r == (V1BatteryCapacityBuilder { state_of_charge: Some(value), ..self }),
    {
        V1BatteryCapacityBuilder { state_of_charge: Some(value), ..self }
    }

    pub fn state_of_health(self, value: V1Num) -> (r: V1BatteryCapacityBuilder)
        ensures
            r == (V1BatteryCapacityBuilder { state_of_health: Some(value), ..self }),
    {
        V1BatteryCapacityBuilder { state_of_health: Some(value), ..self }
    }

    pub fn discharge_since_full(self, value: V1Num) -> (r: V1BatteryCapacityBuilder)
        ensures
            r == (V1BatteryCapacityBuilder { discharge_since_full: Some(value), ..self }),
    {
        V1BatteryCapacityBuilder { discharge_since_full: Some(value), ..self }
    }

    pub fn time_remaining(self, value: V1Num) -> (r: V1BatteryCapacityBuilder)
        ensures
            r == (V1BatteryCapacityBuilder { time_remaining: Some(value), ..self }),
    {
        V1BatteryCapacityBuilder { time_remaining: Some(value), ..self }
    }

    pub fn build(self) -> (r: V1BatteryCapacity)
        ensures
            r == (V1BatteryCapacity {
                nominal: self.nominal,
                actual: self.actual,
                remaining: self.remaining,
                discharge_limit: self.discharge_limit,
                state_of_charge: self.state_of_charge,
                state_of_health: self.state_of_health,
                discharge_since_full: self.discharge_since_full,
                time_remaining: self.time_remaining,
            }),
    {
        V1BatteryCapacity {
            nominal: self.nominal,
            actual: self.actual,
            remaining: self.remaining,
            discharge_limit: self.discharge_limit,
            state_of_charge: self.state_of_charge,
            state_of_health: self.state_of_health,
            discharge_since_full: self.discharge_since_full,
            time_remaining: self.time_remaining,
        }
    }
}

/// One battery.
#[derive(PartialEq, Debug, Clone)]
pub struct V1Battery {
    pub identity: Option<V1ElectricalIdentity>,
    pub dc_qualities: Option<V1ElectricalDCQualities>,
    pub chemistry: Option<String>,
    pub temperature: Option<V1BatteryTemperature>,
    pub capacity: Option<V1BatteryCapacity>,
    pub lifetime_discharge: Option<V1Num>,
    pub lifetime_recharge: Option<V1Num>,
}

/// Mathematical model of a battery block.
#[verifier::ext_equal]
pub struct BatteryView {
    pub identity: Option<V1ElectricalIdentity>,
    pub dc_qualities: Option<DCQualitiesView>,
    pub chemistry: Option<String>,
    pub temperature: Option<V1BatteryTemperature>,
    pub capacity: Option<V1BatteryCapacity>,
    pub lifetime_discharge: Option<V1Num>,
    pub lifetime_recharge: Option<V1Num>,
}

impl View for V1Battery {
    type V = BatteryView;

    open spec fn view(&self) -> BatteryView {
        BatteryView {
            identity: self.identity,
            dc_qualities: opt_view(self.dc_qualities),
            chemistry: self.chemistry,
            temperature: self.temperature,
            capacity: self.capacity,
            lifetime_discharge: self.lifetime_discharge,
            lifetime_recharge: self.lifetime_recharge,
        }
    }
}

impl BatteryView {
    pub open spec fn empty() -> BatteryView {
        BatteryView {
            identity: None,
            dc_qualities: None,
            chemistry: None,
            temperature: None,
            capacity: None,
            lifetime_discharge: None,
            lifetime_recharge: None,
        }
    }
}

impl Default for V1Battery {
    fn default() -> (r: Self)
        ensures
            r@ == BatteryView::empty(),
    {
        V1Battery {
            identity: None,
            dc_qualities: None,
            chemistry: None,
            temperature: None,
            capacity: None,
            lifetime_discharge: None,
            lifetime_recharge: None,
        }
    }
}

impl V1Battery {
    pub fn builder() -> (r: V1BatteryBuilder)
        ensures
            r == (V1BatteryBuilder {
                identity: None,
                dc_qualities: None,
                chemistry: None,
                temperature: None,
                capacity: None,
                lifetime_discharge: None,
                lifetime_recharge: None,
            }),
    {
        V1BatteryBuilder {
            identity: None,
            dc_qualities: None,
            chemistry: None,
            temperature: None,
            capacity: None,
            lifetime_discharge: None,
            lifetime_recharge: None,
        }
    }
}

pub struct V1BatteryBuilder {
    pub identity: Option<V1ElectricalIdentity>,
    pub dc_qualities: Option<V1ElectricalDCQualities>,
    pub chemistry: Option<String>,
    pub temperature: Option<V1BatteryTemperature>,
    pub capacity: Option<V1BatteryCapacity>,
    pub lifetime_discharge: Option<V1Num>,
    pub lifetime_recharge: Option<V1Num>,
}

impl V1BatteryBuilder {
    pub fn identity(self, value: V1ElectricalIdentity) -> (r: V1BatteryBuilder)
        ensures
            r == (V1BatteryBuilder { identity: Some(value), ..self }),
    {
        V1BatteryBuilder { identity: Some(value), ..self }
    }

    pub fn dc_qualities(self, value: V1ElectricalDCQualities) -> (r: V1BatteryBuilder)
        ensures
            r == (V1BatteryBuilder { dc_qualities: Some(value), ..self }),
    {
        V1BatteryBuilder { dc_qualities: Some(value), ..self }
    }

    pub fn chemistry(self, value: String) -> (r: V1BatteryBuilder)
        ensures
            r == (V1BatteryBuilder { chemistry: Some(value), ..self }),
    {
        V1BatteryBuilder { chemistry: Some(value), ..self }
    }

    pub fn temperature(self, value: V1BatteryTemperature) -> (r: V1BatteryBuilder)
        ensures
            r == (V1BatteryBuilder { temperature: Some(value), ..self }),
    {
        V1BatteryBuilder { temperature: Some(value), ..self }
    }

    pub fn capacity(self, value: V1BatteryCapacity) -> (r: V1BatteryBuilder)
        ensures
            r == (V1BatteryBuilder { capacity: Some(value), ..self }),
    {
        V1BatteryBuilder { capacity: Some(value), ..self }
    }

    pub fn lifetime_discharge(self, value: V1Num) -> (r: V1BatteryBuilder)
        ensures
            r == (V1BatteryBuilder { lifetime_discharge: Some(value), ..self }),
    {
        V1BatteryBuilder { lifetime_discharge: Some(value), ..self }
    }

    pub fn lifetime_recharge(self, value: V1Num) -> (r: V1BatteryBuilder)
        ensures
            r == (V1BatteryBuilder { lifetime_recharge: Some(value), ..self }),
    {
        V1BatteryBuilder { lifetime_recharge: Some(value), ..self }
    }

    pub fn build(self) -> (r: V1Battery)
        ensures
            r == (V1Battery {
                identity: self.identity,
                dc_qualities: self.dc_qualities,
                chemistry: self.chemistry,
                temperature: self.temperature,
                capacity: self.capacity,
                lifetime_discharge: self.lifetime_discharge,
                lifetime_recharge: self.lifetime_recharge,
            }),
    {
        V1Battery {
            identity: self.identity,
            dc_qualities: self.dc_qualities,
            chemistry: self.chemistry,
            temperature: self.temperature,
            capacity: self.capacity,
            lifetime_discharge: self.lifetime_discharge,
            lifetime_recharge: self.lifetime_recharge,
        }
    }
}

/// Mode of an inverter.
#[derive(PartialEq, Debug, Clone)]
pub struct V1ElectricalInverterMode {
    pub common: Option<V1CommonValueFields>,
    pub value: Option<String>,
}

impl V1ElectricalInverterMode {
    pub fn new(common: Option<V1CommonValueFields>, value: Option<String>) -> (r: Self)
        ensures
            r == (V1ElectricalInverterMode { common, value }),
    {
        V1ElectricalInverterMode { common, value }
    }
}

/// Charging state of a charger.
#[derive(PartialEq, Debug, Clone)]
pub struct V1ElectricalChargerQualities {
    pub common: Option<V1CommonValueFields>,
    pub value: Option<String>,
}

/// One inverter.
#[derive(PartialEq, Debug, Clone)]
pub struct V1Inverter {
    pub identity: Option<V1ElectricalIdentity>,
    pub dc: Option<V1ElectricalDCQualities>,
    pub ac: Option<V1ElectricalACQualities>,
    pub inverter_mode: Option<V1ElectricalInverterMode>,
}

impl V1Inverter {
    pub fn new(
        identity: Option<V1ElectricalIdentity>,
        dc: Option<V1ElectricalDCQualities>,
        ac: Option<V1ElectricalACQualities>,
        inverter_mode: Option<V1ElectricalInverterMode>,
    ) -> (r: Self)
        ensures
            r == (V1Inverter { identity, dc, ac, inverter_mode }),
    {
        V1Inverter { identity, dc, ac, inverter_mode }
    }
}

/// One charger.
#[derive(PartialEq, Debug, Clone)]
pub struct V1Charger {
    pub identity: Option<V1ElectricalIdentity>,
    pub dc: Option<V1ElectricalDCQualities>,
    pub charger: Option<V1ElectricalChargerQualities>,
}

impl V1Charger {
    pub fn new(
        identity: Option<V1ElectricalIdentity>,
        dc: Option<V1ElectricalDCQualities>,
        charger: Option<V1ElectricalChargerQualities>,
    ) -> (r: Self)
        ensures
            r == (V1Charger { identity, dc, charger }),
    {
        V1Charger { identity, dc, charger }
    }
}

/// One alternator.
#[derive(PartialEq, Debug, Clone)]
pub struct V1Alternator {
    pub identity: Option<V1ElectricalIdentity>,
    pub dc: Option<V1ElectricalDCQualities>,
    pub charger: Option<V1ElectricalChargerQualities>,
    pub revolutions: Option<V1Num>,
    pub pulley_ratio: Option<V1Num>,
    pub field_drive: Option<V1Num>,
    pub regulator_temperature: Option<V1Num>,
}

impl V1Alternator {
    pub fn builder() -> (r: V1AlternatorBuilder)
        ensures
            r == (V1AlternatorBuilder {
                identity: None,
                dc: None,
                charger: None,
                revolutions: None,
                pulley_ratio: None,
                field_drive: None,
                regulator_temperature: None,
            }),
    {
        V1AlternatorBuilder {
            identity: None,
            dc: None,
            charger: None,
            revolutions: None,
            pulley_ratio: None,
            field_drive: None,
            regulator_temperature: None,
        }
    }
}

pub struct V1AlternatorBuilder {
    pub identity: Option<V1ElectricalIdentity>,
    pub dc: Option<V1ElectricalDCQualities>,
    pub charger: Option<V1ElectricalChargerQualities>,
    pub revolutions: Option<V1Num>,
    pub pulley_ratio: Option<V1Num>,
    pub field_drive: Option<V1Num>,
    pub regulator_temperature: Option<V1Num>,
}

impl V1AlternatorBuilder {
    pub fn identity(self, value: V1ElectricalIdentity) -> (r: V1AlternatorBuilder)
        ensures
            r == (V1AlternatorBuilder { identity: Some(value), ..self }),
    {
        V1AlternatorBuilder { identity: Some(value), ..self }
    }

    pub fn dc(self, value: V1ElectricalDCQualities) -> (r: V1AlternatorBuilder)
        ensures
            r == (V1AlternatorBuilder { dc: Some(value), ..self }),
    {
        V1AlternatorBuilder { dc: Some(value), ..self }
    }

    pub fn charger(self, value: V1ElectricalChargerQualities) -> (r: V1AlternatorBuilder)
        ensures
            r == (V1AlternatorBuilder { charger: Some(value), ..self }),
    {
        V1AlternatorBuilder { charger: Some(value), ..self }
    }

    pub fn revolutions(self, value: V1Num) -> (r: V1AlternatorBuilder)
        ensures
            r == (V1AlternatorBuilder { revolutions: Some(value), ..self }),
    {
        V1AlternatorBuilder { revolutions: Some(value), ..self }
    }

    pub fn pulley_ratio(self, value: V1Num) -> (r: V1AlternatorBuilder)
        ensures
            r == (V1AlternatorBuilder { pulley_ratio: Some(value), ..self }),
    {
        V1AlternatorBuilder { pulley_ratio: Some(value), ..self }
    }

    pub fn field_drive(self, value: V1Num) -> (r: V1AlternatorBuilder)
        ensures
            r == (V1AlternatorBuilder { field_drive: Some(value), ..self }),
    {
        V1AlternatorBuilder { field_drive: Some(value), ..self }
    }

    pub fn regulator_temperature(self, value: V1Num) -> (r: V1AlternatorBuilder)
        ensures
            r == (V1AlternatorBuilder { regulator_temperature: Some(value), ..self }),
    {
        V1AlternatorBuilder { regulator_temperature: Some(value), ..self }
    }

    pub fn build(self) -> (r: V1Alternator)
        ensures
            r == (V1Alternator {
                identity: self.identity,
                dc: self.dc,
                charger: self.charger,
                revolutions: self.revolutions,
                pulley_ratio: self.pulley_ratio,
                field_drive: self.field_drive,
                regulator_temperature: self.regulator_temperature,
            }),
    {
        V1Alternator {
            identity: self.identity,
            dc: self.dc,
            charger: self.charger,
            revolutions: self.revolutions,
            pulley_ratio: self.pulley_ratio,
            field_drive: self.field_drive,
            regulator_temperature: self.regulator_temperature,
        }
    }
}

/// Load switch state of a solar charger.
#[derive(PartialEq, Debug, Clone)]
pub struct V1SolarLoad {
    pub common: Option<V1CommonValueFields>,
    pub value: Option<String>,
}

impl V1SolarLoad {
    pub fn new(common: Option<V1CommonValueFields>, value: Option<String>) -> (r: Self)
        ensures
            r == (V1SolarLoad { common, value }),
    {
        V1SolarLoad { common, value }
    }
}

/// One solar installation.
#[derive(PartialEq, Debug, Clone)]
pub struct V1Solar {
    pub identity: Option<V1ElectricalIdentity>,
    pub dc: Option<V1ElectricalDCQualities>,
    pub charger: Option<V1ElectricalChargerQualities>,
    pub value: Option<String>,
    pub panel_voltage: Option<V1Num>,
    pub panel_current: Option<V1Num>,
    pub panel_temperature: Option<V1Num>,
    pub load: Option<V1SolarLoad>,
    pub load_current: Option<V1Num>,
}

impl V1Solar {
    pub fn builder() -> (r: V1SolarBuilder)
        ensures
            r == (V1SolarBuilder {
                identity: None,
                dc: None,
                charger: None,
                value: None,
                panel_voltage: None,
                panel_current: None,
                panel_temperature: None,
                load: None,
                load_current: None,
            }),
    {
        V1SolarBuilder {
            identity: None,
            dc: None,
            charger: None,
            value: None,
            panel_voltage: None,
            panel_current: None,
            panel_temperature: None,
            load: None,
            load_current: None,
        }
    }
}

pub struct V1SolarBuilder {
    pub identity: Option<V1ElectricalIdentity>,
    pub dc: Option<V1ElectricalDCQualities>,
    pub charger: Option<V1ElectricalChargerQualities>,
    pub value: Option<String>,
    pub panel_voltage: Option<V1Num>,
    pub panel_current: Option<V1Num>,
    pub panel_temperature: Option<V1Num>,
    pub load: Option<V1SolarLoad>,
    pub load_current: Option<V1Num>,
}

impl V1SolarBuilder {
    pub fn identity(self, value: V1ElectricalIdentity) -> (r: V1SolarBuilder)
        ensures
            r == (V1SolarBuilder { identity: Some(value), ..self }),
    {
        V1SolarBuilder { identity: Some(value), ..self }
    }

    pub fn dc(self, value: V1ElectricalDCQualities) -> (r: V1SolarBuilder)
        ensures
            r == (V1SolarBuilder { dc: Some(value), ..self }),
    {
        V1SolarBuilder { dc: Some(value), ..self }
    }

    pub fn charger(self, value: V1ElectricalChargerQualities) -> (r: V1SolarBuilder)
        ensures
            r == (V1SolarBuilder { charger: Some(value), ..self }),
    {
        V1SolarBuilder { charger: Some(value), ..self }
    }

    pub fn value(self, value: String) -> (r: V1SolarBuilder)
        ensures
            r == (V1SolarBuilder { value: Some(value), ..self }),
    {
        V1SolarBuilder { value: Some(value), ..self }
    }

    pub fn panel_voltage(self, value: V1Num) -> (r: V1SolarBuilder)
        ensures
            r == (V1SolarBuilder { panel_voltage: Some(value), ..self }),
    {
        V1SolarBuilder { panel_voltage: Some(value), ..self }
    }

    pub fn panel_current(self, value: V1Num) -> (r: V1SolarBuilder)
        ensures
            r == (V1SolarBuilder { panel_current: Some(value), ..self }),
    {
        V1SolarBuilder { panel_current: Some(value), ..self }
    }

    pub fn panel_temperature(self, value: V1Num) -> (r: V1SolarBuilder)
        ensures
            r == (V1SolarBuilder { panel_temperature: Some(value), ..self }),
    {
        V1SolarBuilder { panel_temperature: Some(value), ..self }
    }

    pub fn load(self, value: V1SolarLoad) -> (r: V1SolarBuilder)
        ensures
            r == (V1SolarBuilder { load: Some(value), ..self }),
    {
        V1SolarBuilder { load: Some(value), ..self }
    }

    pub fn load_current(self, value: V1Num) -> (r: V1SolarBuilder)
        ensures
            r == (V1SolarBuilder { load_current: Some(value), ..self }),
    {
        V1SolarBuilder { load_current: Some(value), ..self }
    }

    pub fn build(self) -> (r: V1Solar)
        ensures
            r == (V1Solar {
                identity: self.identity,
                dc: self.dc,
                charger: self.charger,
                value: self.value,
                panel_voltage: self.panel_voltage,
                panel_current: self.panel_current,
                panel_temperature: self.panel_temperature,
                load: self.load,
                load_current: self.load_current,
            }),
    {
        V1Solar {
            identity: self.identity,
            dc: self.dc,
            charger: self.charger,
            value: self.value,
            panel_voltage: self.panel_voltage,
            panel_current: self.panel_current,
            panel_temperature: self.panel_temperature,
            load: self.load,
            load_current: self.load_current,
        }
    }
}

/// One AC bus with its phases.
#[derive(Debug)]
pub struct V1ACBus {
    pub identity: Option<V1ElectricalIdentity>,
    pub phase: StrMap<V1ElectricalACQualities>,
}

impl V1ACBus {
    pub fn builder() -> (r: V1ACBusBuilder)
        ensures
            r.identity is None,
            r.phase@ == Map::<Seq<char>, V1ElectricalACQualities>::empty(),
    {
        V1ACBusBuilder { identity: None, phase: StrMap::new() }
    }
}

pub struct V1ACBusBuilder {
    pub identity: Option<V1ElectricalIdentity>,
    pub phase: StrMap<V1ElectricalACQualities>,
}

impl V1ACBusBuilder {
    pub fn identity(self, value: V1ElectricalIdentity) -> (r: V1ACBusBuilder)
        ensures
            r.identity == Some(value),
            r.phase@ == self.phase@,
    {
        V1ACBusBuilder { identity: Some(value), phase: self.phase }
    }

    pub fn add_phase(self, key: String, value: V1ElectricalACQualities) -> (r: V1ACBusBuilder)
        ensures
            r.identity == self.identity,
            r.phase@ == self.phase@.insert(key@, value),
    {
        let mut phase = self.phase;
        phase.insert(key, value);
        V1ACBusBuilder { identity: self.identity, phase }
    }

    pub fn build(self) -> (r: V1ACBus)
        ensures
            r.identity == self.identity,
            r.phase@ == self.phase@,
    {
        V1ACBus { identity: self.identity, phase: self.phase }
    }
}

/// Electrical devices of one vessel, each family keyed by device id.
#[derive(Debug)]
pub struct V1Electrical {
    pub batteries: Option<StrMap<V1Battery>>,
    pub inverters: Option<StrMap<V1Inverter>>,
    pub chargers: Option<StrMap<V1Charger>>,
    pub alternators: Option<StrMap<V1Alternator>>,
    pub solar: Option<StrMap<V1Solar>>,
    pub ac: Option<StrMap<V1ACBus>>,
}

/// Mathematical model of the electrical block.  Batteries are the family the
/// merge engine writes into; the other families are carried as they stand.
#[verifier::ext_equal]
pub struct ElectricalView {
    pub batteries: Option<Map<Seq<char>, BatteryView>>,
    pub inverters: Option<Map<Seq<char>, V1Inverter>>,
    pub chargers: Option<Map<Seq<char>, V1Charger>>,
    pub alternators: Option<Map<Seq<char>, V1Alternator>>,
    pub solar: Option<Map<Seq<char>, V1Solar>>,
    pub ac: Option<Map<Seq<char>, V1ACBus>>,
}

impl View for V1Electrical {
    type V = ElectricalView;

    open spec fn view(&self) -> ElectricalView {
        ElectricalView {
            batteries: match self.batteries {
                Some(m) => Some(m@.map_values(|b: V1Battery| b@)),
                None => None,
            },
            inverters: match self.inverters {
                Some(m) => Some(m@),
                None => None,
            },
            chargers: match self.chargers {
                Some(m) => Some(m@),
                None => None,
            },
            alternators: match self.alternators {
                Some(m) => Some(m@),
                None => None,
            },
            solar: match self.solar {
                Some(m) => Some(m@),
                None => None,
            },
            ac: match self.ac {
                Some(m) => Some(m@),
                None => None,
            },
        }
    }
}

impl ElectricalView {
    /// The model of an electrical block with nothing merged yet.
    pub open spec fn empty() -> ElectricalView {
        ElectricalView {
            batteries: None,
            inverters: None,
            chargers: None,
            alternators: None,
            solar: None,
            ac: None,
        }
    }
}

impl Default for V1Electrical {
    fn default() -> (r: Self)
        ensures
            r@ == ElectricalView::empty(),
    {
        V1Electrical {
            batteries: None,
            inverters: None,
            chargers: None,
            alternators: None,
            solar: None,
            ac: None,
        }
    }
}

impl V1Electrical {
    pub fn builder() -> (r: V1ElectricalBuilder)
        ensures
            r.batteries is None,
            r.inverters is None,
            r.chargers is None,
            r.alternators is None,
            r.solar is None,
            r.ac is None,
    {
        V1ElectricalBuilder {
            batteries: None,
            inverters: None,
            chargers: None,
            alternators: None,
            solar: None,
            ac: None,
        }
    }
}

pub struct V1ElectricalBuilder {
    pub batteries: Option<StrMap<V1Battery>>,
    pub inverters: Option<StrMap<V1Inverter>>,
    pub chargers: Option<StrMap<V1Charger>>,
    pub alternators: Option<StrMap<V1Alternator>>,
    pub solar: Option<StrMap<V1Solar>>,
    pub ac: Option<StrMap<V1ACBus>>,
}

impl V1ElectricalBuilder {
    pub fn add_battery(self, key: String, value: V1Battery) -> (r: V1ElectricalBuilder)
        ensures
            r.batteries matches Some(m) && m@ == (match self.batteries {
                Some(old_m) => old_m@,
                None => Map::<Seq<char>, V1Battery>::empty(),
            }).insert(key@, value),
            r.inverters == self.inverters,
            r.chargers == self.chargers,
            r.alternators == self.alternators,
            r.solar == self.solar,
            r.ac == self.ac,
    {
        let V1ElectricalBuilder { batteries, inverters, chargers, alternators, solar, ac } = self;
        let mut m = match batteries {
            Some(m) => m,
            None => StrMap::new(),
        };
        m.insert(key, value);
        V1ElectricalBuilder { batteries: Some(m), inverters, chargers, alternators, solar, ac }
    }

    pub fn add_inverter(self, key: String, value: V1Inverter) -> (r: V1ElectricalBuilder)
        ensures
            r.inverters matches Some(m) && m@ == (match self.inverters {
                Some(old_m) => old_m@,
                None => Map::<Seq<char>, V1Inverter>::empty(),
            }).insert(key@, value),
            r.batteries == self.batteries,
            r.chargers == self.chargers,
            r.alternators == self.alternators,
            r.solar == self.solar,
            r.ac == self.ac,
    {
        let V1ElectricalBuilder { batteries, inverters, chargers, alternators, solar, ac } = self;
        let mut m = match inverters {
            Some(m) => m,
            None => StrMap::new(),
        };
        m.insert(key, value);
        V1ElectricalBuilder { batteries, inverters: Some(m), chargers, alternators, solar, ac }
    }

    pub fn add_charger(self, key: String, value: V1Charger) -> (r: V1ElectricalBuilder)
        ensures
            r.chargers matches Some(m) && m@ == (match self.chargers {
                Some(old_m) => old_m@,
                None => Map::<Seq<char>, V1Charger>::empty(),
            }).insert(key@, value),
            r.batteries == self.batteries,
            r.inverters == self.inverters,
            r.alternators == self.alternators,
            r.solar == self.solar,
            r.ac == self.ac,
    {
        let V1ElectricalBuilder { batteries, inverters, chargers, alternators, solar, ac } = self;
        let mut m = match chargers {
            Some(m) => m,
            None => StrMap::new(),
        };
        m.insert(key, value);
        V1ElectricalBuilder { batteries, inverters, chargers: Some(m), alternators, solar, ac }
    }

    pub fn add_alternator(self, key: String, value: V1Alternator) -> (r: V1ElectricalBuilder)
        ensures
            r.alternators matches Some(m) && m@ == (match self.alternators {
                Some(old_m) => old_m@,
                None => Map::<Seq<char>, V1Alternator>::empty(),
            }).insert(key@, value),
            r.batteries == self.batteries,
            r.inverters == self.inverters,
            r.chargers == self.chargers,
            r.solar == self.solar,
            r.ac == self.ac,
    {
        let V1ElectricalBuilder { batteries, inverters, chargers, alternators, solar, ac } = self;
        let mut m = match alternators {
            Some(m) => m,
            None => StrMap::new(),
        };
        m.insert(key, value);
        V1ElectricalBuilder { batteries, inverters, chargers, alternators: Some(m), solar, ac }
    }

    pub fn add_solar(self, key: String, value: V1Solar) -> (r: V1ElectricalBuilder)
        ensures
            r.solar matches Some(m) && m@ == (match self.solar {
                Some(old_m) => old_m@,
                None => Map::<Seq<char>, V1Solar>::empty(),
            }).insert(key@, value),
            r.batteries == self.batteries,
            r.inverters == self.inverters,
            r.chargers == self.chargers,
            r.alternators == self.alternators,
            r.ac == self.ac,
    {
        let V1ElectricalBuilder { batteries, inverters, chargers, alternators, solar, ac } = self;
        let mut m = match solar {
            Some(m) => m,
            None => StrMap::new(),
        };
        m.insert(key, value);
        V1ElectricalBuilder { batteries, inverters, chargers, alternators, solar: Some(m), ac }
    }

    pub fn add_ac(self, key: String, value: V1ACBus) -> (r: V1ElectricalBuilder)
        ensures
            r.ac matches Some(m) && m@ == (match self.ac {
                Some(old_m) => old_m@,
                None => Map::<Seq<char>, V1ACBus>::empty(),
            }).insert(key@, value),
            r.batteries == self.batteries,
            r.inverters == self.inverters,
            r.chargers == self.chargers,
            r.alternators == self.alternators,
            r.solar == self.solar,
    {
        let V1ElectricalBuilder { batteries, inverters, chargers, alternators, solar, ac } = self;
        let mut m = match ac {
            Some(m) => m,
            None => StrMap::new(),
        };
        m.insert(key, value);
        V1ElectricalBuilder { batteries, inverters, chargers, alternators, solar, ac: Some(m) }
    }

    pub fn build(self) -> (r: V1Electrical)
        ensures
            r == (V1Electrical {
                batteries: self.batteries,
                inverters: self.inverters,
                chargers: self.chargers,
                alternators: self.alternators,
                solar: self.solar,
                ac: self.ac,
            }),
    {
        V1Electrical {
            batteries: self.batteries,
            inverters: self.inverters,
            chargers: self.chargers,
            alternators: self.alternators,
            solar: self.solar,
            ac: self.ac,
        }
    }
}

} // verus!
