use vstd::prelude::*;

use crate::value::V1Num;

verus! {

/// Access metadata attached to a tree node.
#[derive(PartialEq, Debug, Clone)]
pub struct V1Attr {
    pub mode: Option<i64>,
    pub owner: Option<String>,
    pub group: Option<String>,
}

impl Default for V1Attr {
    fn default() -> (r: Self)
        ensures
            r.mode == Some(644i64),
            r.owner matches Some(o) && o@ == "self"@,
            r.group matches Some(g) && g@ == "self"@,
    {
        V1Attr {
            mode: Some(644),
            owner: Some(String::from_str("self")),
            group: Some(String::from_str("self")),
        }
    }
}

impl V1Attr {
    pub fn new(mode: i64, owner: String, group: String) -> (r: V1Attr)
        ensures
            r == (V1Attr { mode: Some(mode), owner: Some(owner), group: Some(group) }),
    {
        V1Attr { mode: Some(mode), owner: Some(owner), group: Some(group) }
    }
}

/// Display metadata that may accompany a leaf.
#[derive(PartialEq, Debug, Clone)]
pub struct V1Meta {
    pub description: String,
    pub display_name: Option<String>,
    pub long_name: Option<String>,
    pub short_name: Option<String>,
    pub enum_: Option<String>,
    pub units: Option<String>,
    pub timeout: Option<V1Num>,
    pub alert_method: Option<Vec<String>>,
    pub warn_method: Option<Vec<String>>,
    pub alarm_method: Option<Vec<String>>,
    pub emergency_method: Option<Vec<String>>,
}

/// Provenance fields shared by several leaf shapes.
#[derive(PartialEq, Debug, Clone)]
pub struct V1CommonValueFields {
    pub timestamp: String,
    pub source: String,
    pub attr: Option<V1Attr>,
    pub meta: Option<V1Meta>,
    pub pgn: Option<i64>,
    pub sentence: Option<String>,
}

impl V1CommonValueFields {
    pub fn builder() -> (r: V1CommonValueFieldsBuilder)
        ensures
            r.timestamp@ == Seq::<char>::empty(),
            r.source@ == Seq::<char>::empty(),
            r.attr is None,
            r.meta is None,
            r.pgn is None,
            r.sentence is None,
    {
        V1CommonValueFieldsBuilder {
            timestamp: String::new(),
            source: String::new(),
            attr: None,
            meta: None,
            pgn: None,
            sentence: None,
        }
    }
}

pub struct V1CommonValueFieldsBuilder {
    pub timestamp: String,
    pub source: String,
    pub attr: Option<V1Attr>,
    pub meta: Option<V1Meta>,
    pub pgn: Option<i64>,
    pub sentence: Option<String>,
}

impl V1CommonValueFieldsBuilder {
    pub fn timestamp(self, value: String) -> (r: V1CommonValueFieldsBuilder)
        ensures
            r == (V1CommonValueFieldsBuilder { timestamp: value, ..self }),
    {
        V1CommonValueFieldsBuilder { timestamp: value, ..self }
    }

    pub fn source(self, value: String) -> (r: V1CommonValueFieldsBuilder)
        ensures
            r == (V1CommonValueFieldsBuilder { source: value, ..self }),
    {
        V1CommonValueFieldsBuilder { source: value, ..self }
    }

    pub fn attr(self, value: V1Attr) -> (r: V1CommonValueFieldsBuilder)
        ensures
            r == (V1CommonValueFieldsBuilder { attr: Some(value), ..self }),
    {
        V1CommonValueFieldsBuilder { attr: Some(value), ..self }
    }

    pub fn meta(self, value: V1Meta) -> (r: V1CommonValueFieldsBuilder)
        ensures
            r == (V1CommonValueFieldsBuilder { meta: Some(value), ..self }),
    {
        V1CommonValueFieldsBuilder { meta: Some(value), ..self }
    }

    pub fn pgn(self, value: i64) -> (r: V1CommonValueFieldsBuilder)
        ensures
            r == (V1CommonValueFieldsBuilder { pgn: Some(value), ..self }),
    {
        V1CommonValueFieldsBuilder { pgn: Some(value), ..self }
    }

    pub fn sentence(self, value: String) -> (r: V1CommonValueFieldsBuilder)
        ensures
            r == (V1CommonValueFieldsBuilder { sentence: Some(value), ..self }),
    {
        V1CommonValueFieldsBuilder { sentence: Some(value), ..self }
    }

    pub fn build(self) -> (r: V1CommonValueFields)
        ensures
            r == (V1CommonValueFields {
                timestamp: self.timestamp,
                source: self.source,
                attr: self.attr,
                meta: self.meta,
                pgn: self.pgn,
                sentence: self.sentence,
            }),
    {
        V1CommonValueFields {
            timestamp: self.timestamp,
            source: self.source,
            attr: self.attr,
            meta: self.meta,
            pgn: self.pgn,
            sentence: self.sentence,
        }
    }
}

/// Mathematical model of the shared provenance fields.
#[verifier::ext_equal]
pub struct CommonFieldsView {
    pub timestamp: Seq<char>,
    pub source: Seq<char>,
    pub attr: Option<V1Attr>,
    pub meta: Option<V1Meta>,
    pub pgn: Option<i64>,
    pub sentence: Option<Seq<char>>,
}

impl View for V1CommonValueFields {
    type V = CommonFieldsView;

    open spec fn view(&self) -> CommonFieldsView {
        CommonFieldsView {
            timestamp: self.timestamp@,
            source: self.source@,
            attr: self.attr,
            meta: self.meta,
            pgn: self.pgn,
            sentence: match self.sentence {
                Some(s) => Some(s@),
                None => None,
            },
        }
    }
}

/// A numeric reading together with its provenance.
#[derive(PartialEq, Debug, Clone)]
pub struct V1NumberValue {
    pub value: V1Num,
    pub timestamp: String,
    pub source: String,
    pub pgn: Option<V1Num>,
    pub sentence: Option<String>,
}

impl V1NumberValue {
    pub fn builder() -> (r: V1NumberValueBuilder)
        ensures
            r.value == (V1Num { bits: 0 }),
            r.timestamp@ == Seq::<char>::empty(),
            r.source@ == Seq::<char>::empty(),
            r.pgn is None,
            r.sentence is None,
    {
        V1NumberValueBuilder {
            value: V1Num { bits: 0 },
            timestamp: String::new(),
            source: String::new(),
            pgn: None,
            sentence: None,
        }
    }
}

pub struct V1NumberValueBuilder {
    pub value: V1Num,
    pub timestamp: String,
    pub source: String,
    pub pgn: Option<V1Num>,
    pub sentence: Option<String>,
}

impl V1NumberValueBuilder {
    pub fn value(self, value: V1Num) -> (r: V1NumberValueBuilder)
        ensures
            r == (V1NumberValueBuilder { value, ..self }),
    {
        V1NumberValueBuilder { value, ..self }
    }

    pub fn timestamp(self, timestamp: String) -> (r: V1NumberValueBuilder)
        ensures
            r == (V1NumberValueBuilder { timestamp, ..self }),
    {
        V1NumberValueBuilder { timestamp, ..self }
    }

    pub fn source(self, source: String) -> (r: V1NumberValueBuilder)
        ensures
            r == (V1NumberValueBuilder { source, ..self }),
    {
        V1NumberValueBuilder { source, ..self }
    }

    pub fn pgn(self, pgn: V1Num) -> (r: V1NumberValueBuilder)
        ensures
            r == (V1NumberValueBuilder { pgn: Some(pgn), ..self }),
    {
        V1NumberValueBuilder { pgn: Some(pgn), ..self }
    }

    pub fn sentence(self, sentence: String) -> (r: V1NumberValueBuilder)
        ensures
            r == (V1NumberValueBuilder { sentence: Some(sentence), ..self }),
    {
        V1NumberValueBuilder { sentence: Some(sentence), ..self }
    }

    pub fn build(self) -> (r: V1NumberValue)
        ensures
            r == (V1NumberValue {
                value: self.value,
                timestamp: self.timestamp,
                source: self.source,
                pgn: self.pgn,
                sentence: self.sentence,
            }),
    {
        V1NumberValue {
            value: self.value,
            timestamp: self.timestamp,
            source: self.source,
            pgn: self.pgn,
            sentence: self.sentence,
        }
    }
}

/// Description of one data source, as a delta names it.
#[derive(PartialEq, Debug, Clone)]
pub struct V1DefSource {
    pub label: String,
    pub type_: Option<String>,
    pub src: Option<String>,
    pub can_name: Option<String>,
    pub pgn: Option<i32>,
    pub instance: Option<String>,
    pub sentence: Option<String>,
    pub talker: Option<String>,
    pub ais_type: Option<i32>,
}

impl V1DefSource {
    pub fn builder() -> (r: V1DefSourceBuilder)
        ensures
            r.label@ == Seq::<char>::empty(),
            r.type_ is None,
            r.src is None,
            r.can_name is None,
            r.pgn is None,
            r.instance is None,
            r.sentence is None,
            r.talker is None,
            r.ais_type is None,
    {
        V1DefSourceBuilder {
            label: String::new(),
            type_: None,
            src: None,
            can_name: None,
            pgn: None,
            instance: None,
            sentence: None,
            talker: None,
            ais_type: None,
        }
    }
}

pub struct V1DefSourceBuilder {
    pub label: String,
    pub type_: Option<String>,
    pub src: Option<String>,
    pub can_name: Option<String>,
    pub pgn: Option<i32>,
    pub instance: Option<String>,
    pub sentence: Option<String>,
    pub talker: Option<String>,
    pub ais_type: Option<i32>,
}

impl V1DefSourceBuilder {
    pub fn label(self, value: String) -> (r: V1DefSourceBuilder)
        ensures
            r == (V1DefSourceBuilder { label: value, ..self }),
    {
        V1DefSourceBuilder { label: value, ..self }
    }

    pub fn type_(self, value: String) -> (r: V1DefSourceBuilder)
        ensures
            r == (V1DefSourceBuilder { type_: Some(value), ..self }),
    {
        V1DefSourceBuilder { type_: Some(value), ..self }
    }

    pub fn src(self, value: String) -> (r: V1DefSourceBuilder)
        ensures
            r == (V1DefSourceBuilder { src: Some(value), ..self }),
    {
        V1DefSourceBuilder { src: Some(value), ..self }
    }

    pub fn can_name(self, value: String) -> (r: V1DefSourceBuilder)
        ensures
            r == (V1DefSourceBuilder { can_name: Some(value), ..self }),
    {
        V1DefSourceBuilder { can_name: Some(value), ..self }
    }

    pub fn pgn(self, value: i32) -> (r: V1DefSourceBuilder)
        ensures
            r == (V1DefSourceBuilder { pgn: Some(value), ..self }),
    {
        V1DefSourceBuilder { pgn: Some(value), ..self }
    }

    pub fn instance(self, value: String) -> (r: V1DefSourceBuilder)
        ensures
            r == (V1DefSourceBuilder { instance: Some(value), ..self }),
    {
        V1DefSourceBuilder { instance: Some(value), ..self }
    }

    pub fn sentence(self, value: String) -> (r: V1DefSourceBuilder)
        ensures
            r == (V1DefSourceBuilder { sentence: Some(value), ..self }),
    {
        V1DefSourceBuilder { sentence: Some(value), ..self }
    }

    pub fn talker(self, value: String) -> (r: V1DefSourceBuilder)
        ensures
            r == (V1DefSourceBuilder { talker: Some(value), ..self }),
    {
        V1DefSourceBuilder { talker: Some(value), ..self }
    }

    pub fn ais_type(self, value: i32) -> (r: V1DefSourceBuilder)
        ensures
            r == (V1DefSourceBuilder { ais_type: Some(value), ..self }),
    {
        V1DefSourceBuilder { ais_type: Some(value), ..self }
    }

    pub fn build(self) -> (r: V1DefSource)
        ensures
            r == (V1DefSource {
                label: self.label,
                type_: self.type_,
                src: self.src,
                can_name: self.can_name,
                pgn: self.pgn,
                instance: self.instance,
                sentence: self.sentence,
                talker: self.talker,
                ais_type: self.ais_type,
            }),
    {
        V1DefSource {
            label: self.label,
            type_: self.type_,
            src: self.src,
            can_name: self.can_name,
            pgn: self.pgn,
            instance: self.instance,
            sentence: self.sentence,
            talker: self.talker,
            ais_type: self.ais_type,
        }
    }
}

} // verus!
