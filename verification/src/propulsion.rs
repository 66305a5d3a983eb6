use vstd::prelude::*;

use crate::definitions::V1NumberValue;
use crate::navigation::NumberValueView;
use crate::navigation::opt_view;

verus! {

/// Running state of an engine, as the wire reports it.
#[derive(PartialEq, Eq, Structural, Debug, Clone, Copy)]
pub enum V1PropulsionState {
    Stopped,
    Started,
    Unusable,
}

impl Default for V1PropulsionState {
    fn default() -> (r: Self)
        ensures
            r == V1PropulsionState::Unusable,
    {
        V1PropulsionState::Unusable
    }
}

/// Readings of one engine; the label names it, the rest is absent until merged.
#[derive(PartialEq, Debug, Clone)]
pub struct V1Propulsion {
    pub label: String,
    pub state: Option<V1PropulsionState>,
    pub revolutions: Option<V1NumberValue>,
    pub temperature: Option<V1NumberValue>,
    pub oil_temperature: Option<V1NumberValue>,
    pub oil_pressure: Option<V1NumberValue>,
    pub alternator_voltage: Option<V1NumberValue>,
    pub run_time: Option<V1NumberValue>,
    pub coolant_temperature: Option<V1NumberValue>,
    pub coolant_pressure: Option<V1NumberValue>,
    pub boost_pressure: Option<V1NumberValue>,
    pub intake_manifold_temperature: Option<V1NumberValue>,
    pub engine_load: Option<V1NumberValue>,
    pub engine_torque: Option<V1NumberValue>,
}

/// Mathematical model of one engine block.
#[verifier::ext_equal]
pub struct PropulsionView {
    pub label: Seq<char>,
    pub state: Option<V1PropulsionState>,
    pub revolutions: Option<NumberValueView>,
    pub temperature: Option<NumberValueView>,
    pub oil_temperature: Option<NumberValueView>,
    pub oil_pressure: Option<NumberValueView>,
    pub alternator_voltage: Option<NumberValueView>,
    pub run_time: Option<NumberValueView>,
    pub coolant_temperature: Option<NumberValueView>,
    pub coolant_pressure: Option<NumberValueView>,
    pub boost_pressure: Option<NumberValueView>,
    pub intake_manifold_temperature: Option<NumberValueView>,
    pub engine_load: Option<NumberValueView>,
    pub engine_torque: Option<NumberValueView>,
}

impl View for V1Propulsion {
    type V = PropulsionView;

    open spec fn view(&self) -> PropulsionView {
        PropulsionView {
            label: self.label@,
            state: self.state,
            revolutions: opt_view(self.revolutions),
            temperature: opt_view(self.temperature),
            oil_temperature: opt_view(self.oil_temperature),
            oil_pressure: opt_view(self.oil_pressure),
            alternator_voltage: opt_view(self.alternator_voltage),
            run_time: opt_view(self.run_time),
            coolant_temperature: opt_view(self.coolant_temperature),
            coolant_pressure: opt_view(self.coolant_pressure),
            boost_pressure: opt_view(self.boost_pressure),
            intake_manifold_temperature: opt_view(self.intake_manifold_temperature),
            engine_load: opt_view(self.engine_load),
            engine_torque: opt_view(self.engine_torque),
        }
    }
}

impl PropulsionView {
    /// The model of an engine block holding nothing but its label.
    pub open spec fn empty(label: Seq<char>) -> PropulsionView {
        PropulsionView {
            label,
            state: None,
            revolutions: None,
            temperature: None,
            oil_temperature: None,
            oil_pressure: None,
            alternator_voltage: None,
            run_time: None,
            coolant_temperature: None,
            coolant_pressure: None,
            boost_pressure: None,
            intake_manifold_temperature: None,
            engine_load: None,
            engine_torque: None,
        }
    }
}

impl Default for V1Propulsion {
    fn default() -> (r: Self)
        ensures
            r@ == PropulsionView::empty(Seq::<char>::empty()),
    {
        V1Propulsion {
            label: String::new(),
            state: None,
            revolutions: None,
            temperature: None,
            oil_temperature: None,
            oil_pressure: None,
            alternator_voltage: None,
            run_time: None,
            coolant_temperature: None,
            coolant_pressure: None,
            boost_pressure: None,
            intake_manifold_temperature: None,
            engine_load: None,
            engine_torque: None,
        }
    }
}

impl V1Propulsion {
    pub fn builder() -> (r: V1PropulsionBuilder)
        ensures
            r.label@ == Seq::<char>::empty(),
            r.state is None,
            r.revolutions is None,
            r.temperature is None,
            r.oil_temperature is None,
            r.oil_pressure is None,
            r.alternator_voltage is None,
            r.run_time is None,
            r.coolant_temperature is None,
            r.coolant_pressure is None,
            r.boost_pressure is None,
            r.intake_manifold_temperature is None,
            r.engine_load is None,
            r.engine_torque is None,
    {
        V1PropulsionBuilder {
            label: String::new(),
            state: None,
            revolutions: None,
            temperature: None,
            oil_temperature: None,
            oil_pressure: None,
            alternator_voltage: None,
            run_time: None,
            coolant_temperature: None,
            coolant_pressure: None,
            boost_pressure: None,
            intake_manifold_temperature: None,
            engine_load: None,
            engine_torque: None,
        }
    }
}

pub struct V1PropulsionBuilder {
    pub label: String,
    pub state: Option<V1PropulsionState>,
    pub revolutions: Option<V1NumberValue>,
    pub temperature: Option<V1NumberValue>,
    pub oil_temperature: Option<V1NumberValue>,
    pub oil_pressure: Option<V1NumberValue>,
    pub alternator_voltage: Option<V1NumberValue>,
    pub run_time: Option<V1NumberValue>,
    pub coolant_temperature: Option<V1NumberValue>,
    pub coolant_pressure: Option<V1NumberValue>,
    pub boost_pressure: Option<V1NumberValue>,
    pub intake_manifold_temperature: Option<V1NumberValue>,
    pub engine_load: Option<V1NumberValue>,
    pub engine_torque: Option<V1NumberValue>,
}

impl V1PropulsionBuilder {
    pub fn label(self, label: String) -> (r: V1PropulsionBuilder)
        ensures
            r == (V1PropulsionBuilder { label, ..self }),
    {
        V1PropulsionBuilder { label, ..self }
    }

    pub fn state(self, state: V1PropulsionState) -> (r: V1PropulsionBuilder)
        ensures
            r == (V1PropulsionBuilder { state: Some(state), ..self }),
    {
        V1PropulsionBuilder { state: Some(state), ..self }
    }

    pub fn revolutions(self, revolutions: V1NumberValue) -> (r: V1PropulsionBuilder)
        ensures
            r == (V1PropulsionBuilder { revolutions: Some(revolutions), ..self }),
    {
        V1PropulsionBuilder { revolutions: Some(revolutions), ..self }
    }

    pub fn temperature(self, temperature: V1NumberValue) -> (r: V1PropulsionBuilder)
        ensures
            r == (V1PropulsionBuilder { temperature: Some(temperature), ..self }),
    {
        V1PropulsionBuilder { temperature: Some(temperature), ..self }
    }

    pub fn oil_temperature(self, oil_temperature: V1NumberValue) -> (r: V1PropulsionBuilder)
        ensures
            r == (V1PropulsionBuilder { oil_temperature: Some(oil_temperature), ..self }),
    {
        V1PropulsionBuilder { oil_temperature: Some(oil_temperature), ..self }
    }

    pub fn oil_pressure(self, oil_pressure: V1NumberValue) -> (r: V1PropulsionBuilder)
        ensures
            r == (V1PropulsionBuilder { oil_pressure: Some(oil_pressure), ..self }),
    {
        V1PropulsionBuilder { oil_pressure: Some(oil_pressure), ..self }
    }

    pub fn alternator_voltage(self, alternator_voltage: V1NumberValue) -> (r: V1PropulsionBuilder)
        ensures
            r == (V1PropulsionBuilder { alternator_voltage: Some(alternator_voltage), ..self }),
    {
        V1PropulsionBuilder { alternator_voltage: Some(alternator_voltage), ..self }
    }

    pub fn run_time(self, run_time: V1NumberValue) -> (r: V1PropulsionBuilder)
        ensures
            r == (V1PropulsionBuilder { run_time: Some(run_time), ..self }),
    {
        V1PropulsionBuilder { run_time: Some(run_time), ..self }
    }

    pub fn coolant_temperature(self, coolant_temperature: V1NumberValue) -> (
        r: V1PropulsionBuilder)
        ensures
            r == (V1PropulsionBuilder { coolant_temperature: Some(coolant_temperature), ..self }),
    {
        V1PropulsionBuilder { coolant_temperature: Some(coolant_temperature), ..self }
    }

    pub fn coolant_pressure(self, coolant_pressure: V1NumberValue) -> (r: V1PropulsionBuilder)
        ensures
            r == (V1PropulsionBuilder { coolant_pressure: Some(coolant_pressure), ..self }),
    {
        V1PropulsionBuilder { coolant_pressure: Some(coolant_pressure), ..self }
    }

    pub fn boost_pressure(self, boost_pressure: V1NumberValue) -> (r: V1PropulsionBuilder)
        ensures
            r == (V1PropulsionBuilder { boost_pressure: Some(boost_pressure), ..self }),
    {
        V1PropulsionBuilder { boost_pressure: Some(boost_pressure), ..self }
    }

    pub fn intake_manifold_temperature(self, intake_manifold_temperature: V1NumberValue) -> (
        r: V1PropulsionBuilder)
        ensures
            r == (V1PropulsionBuilder {
                intake_manifold_temperature: Some(intake_manifold_temperature),
                ..self
            }),
    {
        V1PropulsionBuilder {
            intake_manifold_temperature: Some(intake_manifold_temperature),
            ..self
        }
    }

    pub fn engine_load(self, engine_load: V1NumberValue) -> (r: V1PropulsionBuilder)
        ensures
            r == (V1PropulsionBuilder { engine_load: Some(engine_load), ..self }),
    {
        V1PropulsionBuilder { engine_load: Some(engine_load), ..self }
    }

    pub fn engine_torque(self, engine_torque: V1NumberValue) -> (r: V1PropulsionBuilder)
        ensures
            r == (V1PropulsionBuilder { engine_torque: Some(engine_torque), ..self }),
    {
        V1PropulsionBuilder { engine_torque: Some(engine_torque), ..self }
    }

    pub fn build(self) -> (r: V1Propulsion)
        ensures
            r == (V1Propulsion {
                label: self.label,
                state: self.state,
                revolutions: self.revolutions,
                temperature: self.temperature,
                oil_temperature: self.oil_temperature,
                oil_pressure: self.oil_pressure,
                alternator_voltage: self.alternator_voltage,
                run_time: self.run_time,
                coolant_temperature: self.coolant_temperature,
                coolant_pressure: self.coolant_pressure,
                boost_pressure: self.boost_pressure,
                intake_manifold_temperature: self.intake_manifold_temperature,
                engine_load: self.engine_load,
                engine_torque: self.engine_torque,
            }),
    {
        V1Propulsion {
            label: self.label,
            state: self.state,
            revolutions: self.revolutions,
            temperature: self.temperature,
            oil_temperature: self.oil_temperature,
            oil_pressure: self.oil_pressure,
            alternator_voltage: self.alternator_voltage,
            run_time: self.run_time,
            coolant_temperature: self.coolant_temperature,
            coolant_pressure: self.coolant_pressure,
            boost_pressure: self.boost_pressure,
            intake_manifold_temperature: self.intake_manifold_temperature,
            engine_load: self.engine_load,
            engine_torque: self.engine_torque,
        }
    }
}

} // verus!
