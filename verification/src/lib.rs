//! A verified delta-merge engine for Signal K marine telemetry.
//!
//! A Signal K feed delivers incremental updates ("deltas") that name a target
//! entity by a dotted context string and an attribute by a dotted path.  This
//! crate owns the canonical nested tree of vessels and their subsystems,
//! resolves those dotted strings onto the rigid schema, and merges new leaf
//! values together with their provenance.  The session state machine and the
//! message classifier that gate the merges live here as well; transports and
//! the HTTP read side stay outside the crate.

mod definitions;
mod delta;
mod electrical;
mod environment;
mod full;
mod hello;
mod laws;
mod merge;
mod message;
mod navigation;
mod notification;
mod path;
mod propulsion;
mod root;
mod session;
mod sources;
mod storage;
mod strmap;
mod value;
mod vessel;

pub use definitions::CommonFieldsView;
pub use definitions::V1Attr;
pub use definitions::V1CommonValueFields;
pub use definitions::V1CommonValueFieldsBuilder;
pub use definitions::V1DefSource;
pub use definitions::V1DefSourceBuilder;
pub use definitions::V1Meta;
pub use definitions::V1NumberValue;
pub use definitions::V1NumberValueBuilder;
pub use delta::V1DeltaFormat;
pub use delta::V1DeltaFormatBuilder;
pub use delta::V1UpdateType;
pub use delta::V1UpdateTypeBuilder;
pub use delta::V1UpdateValue;
pub use electrical::BatteryView;
pub use electrical::DCCurrentValueView;
pub use electrical::DCQualitiesView;
pub use electrical::DCTemperatureValueView;
pub use electrical::DCVoltageValueView;
pub use electrical::ElectricalView;
pub use electrical::V1ACBus;
pub use electrical::V1ACBusBuilder;
pub use electrical::V1Alternator;
pub use electrical::V1AlternatorBuilder;
pub use electrical::V1Battery;
pub use electrical::V1BatteryBuilder;
pub use electrical::V1BatteryCapacity;
pub use electrical::V1BatteryCapacityBuilder;
pub use electrical::V1BatteryTemperature;
pub use electrical::V1Charger;
pub use electrical::V1Electrical;
pub use electrical::V1ElectricalACQualities;
pub use electrical::V1ElectricalACQualitiesBuilder;
pub use electrical::V1ElectricalBuilder;
pub use electrical::V1ElectricalChargerQualities;
pub use electrical::V1ElectricalDCCurrentMeta;
pub use electrical::V1ElectricalDCCurrentValue;
pub use electrical::V1ElectricalDCCurrentValueBuilder;
pub use electrical::V1ElectricalDCQualities;
pub use electrical::V1ElectricalDCQualitiesBuilder;
pub use electrical::V1ElectricalDCTemperatureValue;
pub use electrical::V1ElectricalDCVoltageMeta;
pub use electrical::V1ElectricalDCVoltageMetaBuilder;
pub use electrical::V1ElectricalDCVoltageValue;
pub use electrical::V1ElectricalDCVoltageValueBuilder;
pub use electrical::V1ElectricalIdentity;
pub use electrical::V1ElectricalIdentityBuilder;
pub use electrical::V1ElectricalInverterMode;
pub use electrical::V1ElectricalManufacturer;
pub use electrical::V1ElectricalManufacturerBuilder;
pub use electrical::V1Inverter;
pub use electrical::V1Solar;
pub use electrical::V1SolarBuilder;
pub use electrical::V1SolarLoad;
pub use environment::DepthView;
pub use environment::EnvironmentView;
pub use environment::OutsideView;
pub use environment::V1Environment;
pub use environment::V1EnvironmentBuilder;
pub use environment::V1EnvironmentCurrent;
pub use environment::V1EnvironmentCurrentType;
pub use environment::V1EnvironmentCurrentValue;
pub use environment::V1EnvironmentDepth;
pub use environment::V1EnvironmentDepthBuilder;
pub use environment::V1EnvironmentInside;
pub use environment::V1EnvironmentInsideBuilder;
pub use environment::V1EnvironmentMode;
pub use environment::V1EnvironmentOutside;
pub use environment::V1EnvironmentOutsideBuilder;
pub use environment::V1EnvironmentTide;
pub use environment::V1EnvironmentTime;
pub use environment::V1EnvironmentWater;
pub use environment::V1EnvironmentWind;
pub use environment::V1EnvironmentZone;
pub use environment::V1EnvironmentZoneBuilder;
pub use environment::WaterView;
pub use environment::WindView;
pub use environment::ZoneView;
pub use full::FullView;
pub use full::GetContext;
pub use full::Updateable;
pub use full::V1FullFormat;
pub use full::V1FullFormatBuilder;
pub use hello::V1Hello;
pub use laws::lemma_creation_is_local;
pub use laws::lemma_lazy_creation_content;
pub use laws::lemma_lazy_creation;
pub use laws::lemma_leaf_overwrite;
pub use laws::lemma_partial_batch;
pub use laws::lemma_position_accumulates;
pub use laws::lemma_self_unresolved_drops_delta;
pub use laws::lemma_whole_entity_name;
pub use merge::MergeAttempt;
pub use merge::MergeOutcome;
pub use merge::V1MergeError;
pub use message::SignalKStreamMessage;
pub use message::classify;
pub use message::delta_rel;
pub use message::delta_shape;
pub use message::group_rel;
pub use message::group_shape;
pub use message::hello_rel;
pub use message::hello_shape;
pub use message::obj_field;
pub use message::obj_num_field;
pub use message::obj_str_field;
pub use message::source_rel;
pub use message::str_array_ok;
pub use message::strs_of;
pub use message::value_rel;
pub use message::value_shape;
pub use navigation::NavigationView;
pub use navigation::NumberValueView;
pub use navigation::PositionTypeView;
pub use navigation::V1Navigation;
pub use navigation::V1NavigationBuilder;
pub use navigation::V1PositionType;
pub use navigation::V1PositionTypeBuilder;
pub use navigation::V1PositionValue;
pub use navigation::opt_view;
pub use notification::NotificationValueView;
pub use notification::NotificationView;
pub use notification::V1Notification;
pub use notification::V1NotificationBuilder;
pub use notification::V1NotificationValue;
pub use notification::V1NotificationValueBuilder;
pub use notification::notif_childs_view;
pub use notification::notif_view;
pub use path::join_dots;
pub use path::join_path;
pub use path::split_dots;
pub use path::split_path;
pub use propulsion::PropulsionView;
pub use propulsion::V1Propulsion;
pub use propulsion::V1PropulsionBuilder;
pub use propulsion::V1PropulsionState;
pub use root::V1RootFormat;
pub use root::V1RootFormatBuilder;
pub use session::SignalKUpdater;
pub use session::SignalKWSState;
pub use sources::V1Source;
pub use sources::V1SourceBuilder;
pub use sources::V1SourceProperty;
pub use sources::V1SourcePropertyBuilder;
pub use sources::V1Sources;
pub use sources::V1SourcesBuilder;
pub use storage::Storage;
pub use storage::apply_delta;
pub use storage::apply_group;
pub use storage::apply_groups;
pub use storage::apply_values;
pub use storage::group_source_view;
pub use storage::group_timestamp_view;
pub use storage::is_identity_field;
pub use storage::record_segs;
pub use storage::resolve_context;
pub use storage::resolve_self_id;
pub use storage::set_identity_field;
pub use storage::shallow_fold;
pub use storage::shallow_valid;
pub use storage::vessel_apply;
pub use storage::vessel_apply_exec;
pub use strmap::StrMap;
pub use value::V1Num;
pub use value::V1Value;
pub use vessel::V1Vessel;
pub use vessel::V1VesselBuilder;
pub use vessel::VesselView;
