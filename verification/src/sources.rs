use vstd::prelude::*;

use crate::definitions::V1Attr;
use crate::strmap::StrMap;

verus! {

/// Properties of one talker behind a source.
#[derive(Debug)]
pub struct V1SourceProperty {
    pub talker: Option<String>,
    pub sentences: Option<StrMap<String>>,
    pub extras: StrMap<String>,
}

impl V1SourceProperty {
    pub fn builder() -> (r: V1SourcePropertyBuilder)
        ensures
            r.talker is None,
            r.sentences is None,
            r.extras@ == Map::<Seq<char>, String>::empty(),
    {
        V1SourcePropertyBuilder { talker: None, sentences: None, extras: StrMap::new() }
    }
}

pub struct V1SourcePropertyBuilder {
    pub talker: Option<String>,
    pub sentences: Option<StrMap<String>>,
    pub extras: StrMap<String>,
}

impl V1SourcePropertyBuilder {
    pub fn talker(self, talker: String) -> (r: V1SourcePropertyBuilder)
        ensures
            r.talker == Some(talker),
            r.sentences == self.sentences,
            r.extras == self.extras,
    {
        V1SourcePropertyBuilder { talker: Some(talker), sentences: self.sentences,
            extras: self.extras }
    }

    pub fn add_sentence(self, key: String, sentence: String) -> (r: V1SourcePropertyBuilder)
        ensures
            r.talker == self.talker,
            r.sentences matches Some(m) && m@ == (match self.sentences {
                Some(old_m) => old_m@,
                None => Map::<Seq<char>, String>::empty(),
            }).insert(key@, sentence),
            r.extras == self.extras,
    {
        let V1SourcePropertyBuilder { talker, sentences, extras } = self;
        let mut m = match sentences {
            Some(m) => m,
            None => StrMap::new(),
        };
        m.insert(key, sentence);
        V1SourcePropertyBuilder { talker, sentences: Some(m), extras }
    }

    pub fn add_extra(self, key: String, value: String) -> (r: V1SourcePropertyBuilder)
        ensures
            r.talker == self.talker,
            r.sentences == self.sentences,
            r.extras@ == self.extras@.insert(key@, value),
    {
        let V1SourcePropertyBuilder { talker, sentences, extras } = self;
        let mut extras = extras;
        extras.insert(key, value);
        V1SourcePropertyBuilder { talker, sentences, extras }
    }

    pub fn build(self) -> (r: V1SourceProperty)
        ensures
            r == (V1SourceProperty {
                talker: self.talker,
                sentences: self.sentences,
                extras: self.extras,
            }),
    {
        V1SourceProperty { talker: self.talker, sentences: self.sentences, extras: self.extras }
    }
}

/// One data source, with its per-talker properties.
#[derive(Debug)]
pub struct V1Source {
    pub label: Option<String>,
    pub type_: Option<String>,
    pub properties: StrMap<V1SourceProperty>,
}

impl V1Source {
    pub fn builder() -> (r: V1SourceBuilder)
        ensures
            r.label is None,
            r.type_ is None,
            r.properties@ == Map::<Seq<char>, V1SourceProperty>::empty(),
    {
        V1SourceBuilder { label: None, type_: None, properties: StrMap::new() }
    }
}

pub struct V1SourceBuilder {
    pub label: Option<String>,
    pub type_: Option<String>,
    pub properties: StrMap<V1SourceProperty>,
}

impl V1SourceBuilder {
    pub fn label(self, label: String) -> (r: V1SourceBuilder)
        ensures
            r.label == Some(label),
            r.type_ == self.type_,
            r.properties == self.properties,
    {
        V1SourceBuilder { label: Some(label), type_: self.type_, properties: self.properties }
    }

    pub fn type_(self, type_: String) -> (r: V1SourceBuilder)
        ensures
            r.label == self.label,
            r.type_ == Some(type_),
            r.properties == self.properties,
    {
        V1SourceBuilder { label: self.label, type_: Some(type_), properties: self.properties }
    }

    pub fn add_property(self, key: String, property: V1SourceProperty) -> (r: V1SourceBuilder)
        ensures
            r.label == self.label,
            r.type_ == self.type_,
            r.properties@ == self.properties@.insert(key@, property),
    {
        let V1SourceBuilder { label, type_, properties } = self;
        let mut properties = properties;
        properties.insert(key, property);
        V1SourceBuilder { label, type_, properties }
    }

    pub fn build(self) -> (r: V1Source)
        ensures
            r == (V1Source {
                label: self.label,
                type_: self.type_,
                properties: self.properties,
            }),
    {
        V1Source { label: self.label, type_: self.type_, properties: self.properties }
    }
}

/// Metadata about every data source feeding the tree, keyed by source id.
#[derive(Debug)]
pub struct V1Sources {
    pub type_: Option<V1Attr>,
    pub fields: StrMap<V1Source>,
}

impl V1Sources {
    pub fn builder() -> (r: V1SourcesBuilder)
        ensures
            r.type_ is None,
            r.fields@ == Map::<Seq<char>, V1Source>::empty(),
    {
        V1SourcesBuilder { type_: None, fields: StrMap::new() }
    }
}

pub struct V1SourcesBuilder {
    pub type_: Option<V1Attr>,
    pub fields: StrMap<V1Source>,
}

impl V1SourcesBuilder {
    pub fn t(self, type_: V1Attr) -> (r: V1SourcesBuilder)
        ensures
            r.type_ == Some(type_),
            r.fields == self.fields,
    {
        V1SourcesBuilder { type_: Some(type_), fields: self.fields }
    }

    pub fn add_field(self, key: String, value: V1Source) -> (r: V1SourcesBuilder)
        ensures
            r.type_ == self.type_,
            r.fields@ == self.fields@.insert(key@, value),
    {
        let V1SourcesBuilder { type_, fields } = self;
        let mut fields = fields;
        fields.insert(key, value);
        V1SourcesBuilder { type_, fields }
    }

    pub fn build(self) -> (r: V1Sources)
        ensures
            r == (V1Sources { type_: self.type_, fields: self.fields }),
    {
        V1Sources { type_: self.type_, fields: self.fields }
    }
}

} // verus!
