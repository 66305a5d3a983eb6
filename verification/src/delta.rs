use vstd::prelude::*;

use crate::definitions::V1DefSource;
use crate::value::V1Value;

verus! {

/// One path/value pair of a delta.
#[derive(Debug)]
pub struct V1UpdateValue {
    pub path: String,
    pub value: V1Value,
}

impl V1UpdateValue {
    pub fn new(path: String, value: V1Value) -> (r: Self)
        ensures
            r == (V1UpdateValue { path, value }),
    {
        V1UpdateValue { path, value }
    }
}

/// One update group of a delta: shared provenance and the values it carries.
#[derive(Debug)]
pub struct V1UpdateType {
    pub source: Option<V1DefSource>,
    pub ref_source: Option<String>,
    pub timestamp: Option<String>,
    pub values: Vec<V1UpdateValue>,
}

impl V1UpdateType {
    pub fn builder() -> (r: V1UpdateTypeBuilder)
        ensures
            r.source is None,
            r.ref_source is None,
            r.timestamp is None,
            r.values@ == Seq::<V1UpdateValue>::empty(),
    {
        V1UpdateTypeBuilder { source: None, ref_source: None, timestamp: None, values: Vec::new() }
    }
}

pub struct V1UpdateTypeBuilder {
    pub source: Option<V1DefSource>,
    pub ref_source: Option<String>,
    pub timestamp: Option<String>,
    pub values: Vec<V1UpdateValue>,
}

impl V1UpdateTypeBuilder {
    pub fn source(self, value: V1DefSource) -> (r: V1UpdateTypeBuilder)
        ensures
            r.source == Some(value),
            r.ref_source == self.ref_source,
            r.timestamp == self.timestamp,
            r.values == self.values,
    {
        V1UpdateTypeBuilder {
            source: Some(value),
            ref_source: self.ref_source,
            timestamp: self.timestamp,
            values: self.values,
        }
    }

    pub fn ref_source(self, value: String) -> (r: V1UpdateTypeBuilder)
        ensures
            r.source == self.source,
            r.ref_source == Some(value),
            r.timestamp == self.timestamp,
            r.values == self.values,
    {
        V1UpdateTypeBuilder {
            source: self.source,
            ref_source: Some(value),
            timestamp: self.timestamp,
            values: self.values,
        }
    }

    pub fn timestamp(self, value: String) -> (r: V1UpdateTypeBuilder)
        ensures
            r.source == self.source,
            r.ref_source == self.ref_source,
            r.timestamp == Some(value),
            r.values == self.values,
    {
        V1UpdateTypeBuilder {
            source: self.source,
            ref_source: self.ref_source,
            timestamp: Some(value),
            values: self.values,
        }
    }

    /// Appends one path/value pair to the group.
    pub fn add(self, value: V1UpdateValue) -> (r: V1UpdateTypeBuilder)
        ensures
            r.source == self.source,
            r.ref_source == self.ref_source,
            r.timestamp == self.timestamp,
            r.values@ == self.values@.push(value),
    {
        let V1UpdateTypeBuilder { source, ref_source, timestamp, values } = self;
        let mut values = values;
        values.push(value);
        V1UpdateTypeBuilder { source, ref_source, timestamp, values }
    }

    pub fn build(self) -> (r: V1UpdateType)
        ensures
            r == (V1UpdateType {
                source: self.source,
                ref_source: self.ref_source,
                timestamp: self.timestamp,
                values: self.values,
            }),
    {
        V1UpdateType {
            source: self.source,
            ref_source: self.ref_source,
            timestamp: self.timestamp,
            values: self.values,
        }
    }
}

/// A delta message: the context its updates address, and the update groups.
#[derive(Debug)]
pub struct V1DeltaFormat {
    pub context: Option<String>,
    pub updates: Vec<V1UpdateType>,
}

impl V1DeltaFormat {
    pub fn builder() -> (r: V1DeltaFormatBuilder)
        ensures
            r.context is None,
            r.updates@ == Seq::<V1UpdateType>::empty(),
    {
        V1DeltaFormatBuilder { context: None, updates: Vec::new() }
    }
}

pub struct V1DeltaFormatBuilder {
    pub context: Option<String>,
    pub updates: Vec<V1UpdateType>,
}

impl V1DeltaFormatBuilder {
    pub fn context(self, value: String) -> (r: V1DeltaFormatBuilder)
        ensures
            r.context == Some(value),
            r.updates == self.updates,
    {
        V1DeltaFormatBuilder { context: Some(value), updates: self.updates }
    }

    /// Appends one update group.
    pub fn add(self, value: V1UpdateType) -> (r: V1DeltaFormatBuilder)
        ensures
            r.context == self.context,
            r.updates@ == self.updates@.push(value),
    {
        let V1DeltaFormatBuilder { context, updates } = self;
        let mut updates = updates;
        updates.push(value);
        V1DeltaFormatBuilder { context, updates }
    }

    pub fn build(self) -> (r: V1DeltaFormat)
        ensures
            r == (V1DeltaFormat { context: self.context, updates: self.updates }),
    {
        V1DeltaFormat { context: self.context, updates: self.updates }
    }
}

} // verus!
