use vstd::prelude::*;

use crate::definitions::V1DefSource;
use crate::delta::V1DeltaFormat;
use crate::delta::V1UpdateType;
use crate::delta::V1UpdateValue;
use crate::hello::V1Hello;
use crate::merge::str_of;
use crate::navigation::opt_view;
use crate::strmap::str_eq;
use crate::value::V1Num;
use crate::value::V1Value;
use crate::value::spec_obj_get;

verus! {

/// One classified inbound stream message: the server handshake, a delta, or
/// anything else, preserved verbatim for diagnostics.
#[derive(Debug)]
pub enum SignalKStreamMessage {
    Hello(V1Hello),
    Delta(V1DeltaFormat),
    Unrecognized(V1Value),
}

/// The field bound to a key when the value is an object.
pub open spec fn obj_field(v: V1Value, k: Seq<char>) -> Option<V1Value> {
    match v {
        V1Value::Object(fs) => spec_obj_get(fs@, k),
        _ => None,
    }
}

/// The characters of a string field, when the key is bound to a string.
pub open spec fn obj_str_field(v: V1Value, k: Seq<char>) -> Option<Seq<char>> {
    match obj_field(v, k) {
        Some(V1Value::Str(s)) => Some(s@),
        _ => None,
    }
}

/// The reading of a numeric field, when the key is bound to a number.
pub open spec fn obj_num_field(v: V1Value, k: Seq<char>) -> Option<V1Num> {
    match obj_field(v, k) {
        Some(V1Value::Num(n)) => Some(n),
        _ => None,
    }
}

/// Whether a wire value is an array of strings.
pub open spec fn str_array_ok(x: V1Value) -> bool {
    &&& x is Array
    &&& forall|i: int| 0 <= i < x->Array_0@.len() ==> x->Array_0@[i] is Str
}

/// The strings of an array value.
pub open spec fn strs_of(x: V1Value) -> Seq<Seq<char>> {
    match x {
        V1Value::Array(a) => a@.map_values(|v: V1Value| str_of(v)),
        _ => Seq::empty(),
    }
}

/// The handshake shape: a `version` string and a `roles` array of strings.
pub open spec fn hello_shape(v: V1Value) -> bool {
    &&& obj_field(v, "version"@) matches Some(V1Value::Str(_))
    &&& obj_field(v, "roles"@) matches Some(r) && str_array_ok(r)
}

/// The shape of one path/value entry of an update group.
pub open spec fn value_shape(x: V1Value) -> bool {
    &&& x is Object
    &&& obj_field(x, "path"@) matches Some(V1Value::Str(_))
    &&& obj_field(x, "value"@) is Some
}

/// An optional field that, when present, must be a string.
pub open spec fn opt_str_field_ok(x: V1Value, k: Seq<char>) -> bool {
    match obj_field(x, k) {
        Some(f) => f is Str,
        None => true,
    }
}

/// The shape of one update group: a `values` array of well-formed entries,
/// with any provenance fields of the right kinds.
pub open spec fn group_shape(x: V1Value) -> bool {
    &&& x is Object
    &&& obj_field(x, "values"@) matches Some(vs) && vs is Array && (forall|j: int|
        0 <= j < vs->Array_0@.len() ==> value_shape(#[trigger] vs->Array_0@[j]))
    &&& opt_str_field_ok(x, "$source"@)
    &&& opt_str_field_ok(x, "timestamp"@)
    &&& match obj_field(x, "source"@) {
        Some(s) => s is Object,
        None => true,
    }
}

/// The delta shape: an `updates` array of well-formed groups, and a context
/// that is a string when present.
pub open spec fn delta_shape(v: V1Value) -> bool {
    &&& obj_field(v, "updates"@) matches Some(u) && u is Array && (forall|i: int|
        0 <= i < u->Array_0@.len() ==> group_shape(#[trigger] u->Array_0@[i]))
    &&& opt_str_field_ok(v, "context"@)
}

/// How a parsed source descriptor relates to the wire object it came from:
/// its string fields are taken when present, its numeric fields are not read.
pub open spec fn source_rel(s: Option<V1DefSource>, x: Option<V1Value>) -> bool {
    match x {
        Some(o) => o is Object ==> (s matches Some(d) && {
            &&& d.label@ == (match obj_str_field(o, "label"@) {
                Some(l) => l,
                None => Seq::<char>::empty(),
            })
            &&& opt_view(d.type_) == obj_str_field(o, "type"@)
            &&& opt_view(d.src) == obj_str_field(o, "src"@)
            &&& opt_view(d.can_name) == obj_str_field(o, "canName"@)
            &&& opt_view(d.instance) == obj_str_field(o, "instance"@)
            &&& opt_view(d.sentence) == obj_str_field(o, "sentence"@)
            &&& opt_view(d.talker) == obj_str_field(o, "talker"@)
            &&& d.pgn is None
            &&& d.ais_type is None
        }),
        None => s is None,
    }
}

/// How one parsed path/value entry relates to its wire object.
pub open spec fn value_rel(u: V1UpdateValue, x: V1Value) -> bool {
    &&& Some(u.path@) == obj_str_field(x, "path"@)
    &&& Some(u.value) == obj_field(x, "value"@)
}

/// How one parsed update group relates to its wire object.
pub open spec fn group_rel(g: V1UpdateType, x: V1Value) -> bool {
    &&& opt_view(g.ref_source) == obj_str_field(x, "$source"@)
    &&& opt_view(g.timestamp) == obj_str_field(x, "timestamp"@)
    &&& source_rel(g.source, obj_field(x, "source"@))
    &&& obj_field(x, "values"@) matches Some(vs) && g.values@.len() == vs->Array_0@.len()
        && (forall|j: int| 0 <= j < g.values@.len() ==> value_rel(
        #[trigger] g.values@[j],
        vs->Array_0@[j],
    ))
}

/// How a parsed handshake relates to the wire object.
pub open spec fn hello_rel(h: V1Hello, v: V1Value) -> bool {
    &&& Some(h.version@) == obj_str_field(v, "version"@)
    &&& opt_view(h.name) == obj_str_field(v, "name"@)
    &&& opt_view(h.timestamp) == obj_str_field(v, "timestamp"@)
    &&& opt_view(h.start_time) == obj_str_field(v, "startTime"@)
    &&& opt_view(h.self_) == obj_str_field(v, "self"@)
    &&& h.playback_rate == obj_num_field(v, "playbackRate"@)
    &&& obj_field(v, "roles"@) matches Some(r) && h.roles@.map_values(|s: String| s@) == strs_of(
        r,
    )
}

/// How a parsed delta relates to the wire object.
pub open spec fn delta_rel(d: V1DeltaFormat, v: V1Value) -> bool {
    &&& opt_view(d.context) == obj_str_field(v, "context"@)
    &&& obj_field(v, "updates"@) matches Some(u) && d.updates@.len() == u->Array_0@.len() && (
    forall|i: int| 0 <= i < d.updates@.len() ==> group_rel(#[trigger] d.updates@[i], u->Array_0@[i]))
}

/// A cloned string field, when the key is bound to a string.
fn get_str_field(fields: &Vec<(String, V1Value)>, key: &str) -> (r: Option<String>)
    ensures
        opt_view(r) == obj_str_field(V1Value::Object(*fields), key@),
{
    match V1Value::obj_get(fields, key) {
        Some(v) => match v {
            V1Value::Str(s) => Some(s.clone()),
            _ => None,
        },
        None => None,
    }
}

/// A numeric field, when the key is bound to a number.
fn get_num_field(fields: &Vec<(String, V1Value)>, key: &str) -> (r: Option<V1Num>)
    ensures
        r == obj_num_field(V1Value::Object(*fields), key@),
{
    match V1Value::obj_get(fields, key) {
        Some(v) => match v {
            V1Value::Num(n) => Some(*n),
            _ => None,
        },
        None => None,
    }
}

/// First-binding lookup distributes over appending one entry at the end.
proof fn lemma_obj_get_push(s: Seq<(String, V1Value)>, e: (String, V1Value), k: Seq<char>)
    ensures
        spec_obj_get(s.push(e), k) == (match spec_obj_get(s, k) {
            Some(v) => Some(v),
            None => if e.0@ == k {
                Some(e.1)
            } else {
                None
            },
        }),
    decreases s.len(),
{
    if s.len() == 0 {
        assert(s.push(e).drop_first() =~= Seq::<(String, V1Value)>::empty());
        assert(s.push(e)[0] == e);
        assert(spec_obj_get(Seq::<(String, V1Value)>::empty(), k) is None);
    } else {
        assert(s.push(e).drop_first() =~= s.drop_first().push(e));
        assert(s.push(e)[0] == s[0]);
        lemma_obj_get_push(s.drop_first(), e, k);
    }
}

/// Moves the first value bound to a key out of an object's field list,
/// dropping everything else.
fn obj_take_first(fields: Vec<(String, V1Value)>, key: &str) -> (r: Option<V1Value>)
    ensures
        match r {
            Some(v) => spec_obj_get(fields@, key@) == Some(v),
            None => spec_obj_get(fields@, key@) is None,
        },
{
    let ghost all = fields@;
    let mut taken: Option<V1Value> = None;
    let mut rev = crate::storage::reversed(fields);
    proof {
        assert(rev@.reverse() =~= all);
        assert(all.subrange(0, 0) =~= Seq::<(String, V1Value)>::empty());
    }
    while rev.len() > 0
        invariant
            rev@.len() <= all.len(),
            rev@.reverse() =~= all.subrange(all.len() - rev@.len(), all.len() as int),
            match taken {
                Some(v) => spec_obj_get(all.subrange(0, all.len() - rev@.len()), key@) == Some(
                    v,
                ),
                None => spec_obj_get(all.subrange(0, all.len() - rev@.len()), key@) is None,
            },
        decreases rev@.len(),
    {
        let ghost done = all.subrange(0, all.len() - rev@.len());
        let ghost remaining = rev@.reverse();
        let (k, fv) = rev.pop().unwrap();
        proof {
            assert(remaining[0] == (k, fv));
            assert(remaining.drop_first() =~= rev@.reverse());
            assert(remaining[0] == all[done.len() as int]);
            assert(done.push((k, fv)) =~= all.subrange(0, done.len() as int + 1));
            lemma_obj_get_push(done, (k, fv), key@);
        }
        if taken.is_none() && str_eq(k.as_str(), key) {
            taken = Some(fv);
        }
        proof {
            assert(rev@.reverse() =~= all.subrange(all.len() - rev@.len(), all.len() as int));
        }
    }
    proof {
        assert(all.subrange(0, all.len() as int) =~= all);
    }
    taken
}

/// Whether a wire value has the handshake shape.
fn hello_shape_check(v: &V1Value) -> (r: bool)
    ensures
        r == hello_shape(*v),
{
    match v {
        V1Value::Object(fields) => {
            let version_ok = match V1Value::obj_get(fields, "version") {
                Some(f) => match f {
                    V1Value::Str(_) => true,
                    _ => false,
                },
                None => false,
            };
            if !version_ok {
                return false;
            }
            match V1Value::obj_get(fields, "roles") {
                Some(f) => match f {
                    V1Value::Array(a) => {
                        let n = a.len();
                        for i in 0..n
                            invariant
                                n == a@.len(),
                                obj_field(*v, "roles"@) matches Some(rr) && rr is Array
                                    && rr->Array_0 == *a,
                                forall|j: int| 0 <= j < i ==> a@[j] is Str,
                        {
                            match &a[i] {
                                V1Value::Str(_) => {},
                                _ => {
                                    return false;
                                },
                            }
                        }
                        true
                    },
                    _ => false,
                },
                None => false,
            }
        },
        _ => false,
    }
}

/// Whether a wire value has the shape of one path/value entry.
fn value_shape_check(x: &V1Value) -> (r: bool)
    ensures
        r == value_shape(*x),
{
    match x {
        V1Value::Object(fields) => {
            let path_ok = match V1Value::obj_get(fields, "path") {
                Some(f) => match f {
                    V1Value::Str(_) => true,
                    _ => false,
                },
                None => false,
            };
            let value_ok = match V1Value::obj_get(fields, "value") {
                Some(_) => true,
                None => false,
            };
            path_ok && value_ok
        },
        _ => false,
    }
}

/// Whether a field that may be present is a string when it is.
fn opt_str_field_check(fields: &Vec<(String, V1Value)>, key: &str) -> (r: bool)
    ensures
        r == opt_str_field_ok(V1Value::Object(*fields), key@),
{
    match V1Value::obj_get(fields, key) {
        Some(f) => match f {
            V1Value::Str(_) => true,
            _ => false,
        },
        None => true,
    }
}

/// Whether a wire value has the shape of one update group.
fn group_shape_check(x: &V1Value) -> (r: bool)
    ensures
        r == group_shape(*x),
{
    match x {
        V1Value::Object(fields) => {
            let values_ok = match V1Value::obj_get(fields, "values") {
                Some(f) => match f {
                    V1Value::Array(a) => {
                        let n = a.len();
                        for i in 0..n
                            invariant
                                n == a@.len(),
                                x is Object,
                                obj_field(*x, "values"@) matches Some(vv) && vv is Array
                                    && vv->Array_0 == *a,
                                forall|j: int| 0 <= j < i ==> value_shape(#[trigger] a@[j]),
                        {
                            if !value_shape_check(&a[i]) {
                                return false;
                            }
                        }
                        true
                    },
                    _ => false,
                },
                None => false,
            };
            if !values_ok {
                return false;
            }
            if !opt_str_field_check(fields, "$source") {
                return false;
            }
            if !opt_str_field_check(fields, "timestamp") {
                return false;
            }
            match V1Value::obj_get(fields, "source") {
                Some(f) => match f {
                    V1Value::Object(_) => true,
                    _ => false,
                },
                None => true,
            }
        },
        _ => false,
    }
}

/// Whether a wire value has the delta shape.
fn delta_shape_check(v: &V1Value) -> (r: bool)
    ensures
        r == delta_shape(*v),
{
    match v {
        V1Value::Object(fields) => {
            let updates_ok = match V1Value::obj_get(fields, "updates") {
                Some(f) => match f {
                    V1Value::Array(a) => {
                        let n = a.len();
                        for i in 0..n
                            invariant
                                n == a@.len(),
                                obj_field(*v, "updates"@) matches Some(uu) && uu is Array
                                    && uu->Array_0 == *a,
                                forall|j: int| 0 <= j < i ==> group_shape(#[trigger] a@[j]),
                        {
                            if !group_shape_check(&a[i]) {
                                return false;
                            }
                        }
                        true
                    },
                    _ => false,
                },
                None => false,
            };
            updates_ok && opt_str_field_check(fields, "context")
        },
        _ => false,
    }
}

/// Reads a handshake out of a wire object of the handshake shape.
fn parse_hello(v: &V1Value) -> (r: V1Hello)
    requires
        hello_shape(*v),
    ensures
        hello_rel(r, *v),
{
    match v {
        V1Value::Object(fields) => {
            let version = match get_str_field(fields, "version") {
                Some(s) => s,
                None => {
                    proof {
                        assert(false);
                    }
                    String::new()
                },
            };
            let mut roles: Vec<String> = Vec::new();
            match V1Value::obj_get(fields, "roles") {
                Some(f) => match f {
                    V1Value::Array(a) => {
                        let n = a.len();
                        for i in 0..n
                            invariant
                                n == a@.len(),
                                hello_shape(*v),
                                obj_field(*v, "roles"@) == Some(V1Value::Array(*a)),
                                roles@.len() == i,
                                forall|j: int| 0 <= j < i ==> #[trigger] roles@[j]@ == str_of(
                                    a@[j],
                                ),
                        {
                            match &a[i] {
                                V1Value::Str(s) => {
                                    roles.push(s.clone());
                                },
                                _ => {
                                    proof {
                                        assert(false);
                                    }
                                },
                            }
                        }
                    },
                    _ => {
                        proof {
                            assert(false);
                        }
                    },
                },
                None => {
                    proof {
                        assert(false);
                    }
                },
            }
            let r = V1Hello {
                name: get_str_field(fields, "name"),
                version,
                timestamp: get_str_field(fields, "timestamp"),
                start_time: get_str_field(fields, "startTime"),
                playback_rate: get_num_field(fields, "playbackRate"),
                self_: get_str_field(fields, "self"),
                roles,
            };
            proof {
                let rr = obj_field(*v, "roles"@)->0;
                assert(r.roles@.map_values(|s: String| s@) =~= strs_of(rr));
            }
            r
        },
        _ => {
            proof {
                assert(false);
            }
            V1Hello {
                name: None,
                version: String::new(),
                timestamp: None,
                start_time: None,
                playback_rate: None,
                self_: None,
                roles: Vec::new(),
            }
        },
    }
}

/// Reads a source descriptor out of a wire object's fields.
fn parse_source_fields(sf: &Vec<(String, V1Value)>) -> (r: V1DefSource)
    ensures
        source_rel(Some(r), Some(V1Value::Object(*sf))),
{
    let label = match get_str_field(sf, "label") {
        Some(s) => s,
        None => String::new(),
    };
    V1DefSource {
        label,
        type_: get_str_field(sf, "type"),
        src: get_str_field(sf, "src"),
        can_name: get_str_field(sf, "canName"),
        pgn: None,
        instance: get_str_field(sf, "instance"),
        sentence: get_str_field(sf, "sentence"),
        talker: get_str_field(sf, "talker"),
        ais_type: None,
    }
}

/// Reads one path/value entry out of a wire object of the right shape.
fn parse_value_entry(x: V1Value) -> (r: V1UpdateValue)
    requires
        value_shape(x),
    ensures
        value_rel(r, x),
{
    match x {
        V1Value::Object(fields) => {
            let path = match get_str_field(&fields, "path") {
                Some(s) => s,
                None => {
                    proof {
                        assert(false);
                    }
                    String::new()
                },
            };
            let value = match obj_take_first(fields, "value") {
                Some(v) => v,
                None => {
                    proof {
                        assert(false);
                    }
                    V1Value::Null
                },
            };
            V1UpdateValue { path, value }
        },
        _ => {
            proof {
                assert(false);
            }
            V1UpdateValue { path: String::new(), value: V1Value::Null }
        },
    }
}

/// Reads one update group out of a wire object of the right shape.
fn parse_group(x: V1Value) -> (r: V1UpdateType)
    requires
        group_shape(x),
    ensures
        group_rel(r, x),
{
    match x {
        V1Value::Object(fields) => {
            let ref_source = get_str_field(&fields, "$source");
            let timestamp = get_str_field(&fields, "timestamp");
            let source = match V1Value::obj_get(&fields, "source") {
                Some(f) => match f {
                    V1Value::Object(sf) => Some(parse_source_fields(sf)),
                    _ => {
                        proof {
                            assert(false);
                        }
                        None
                    },
                },
                None => None,
            };
            let values_arr = match obj_take_first(fields, "values") {
                Some(V1Value::Array(a)) => a,
                _ => {
                    proof {
                        assert(false);
                    }
                    Vec::new()
                },
            };
            let ghost arr0 = values_arr@;
            let mut values: Vec<V1UpdateValue> = Vec::new();
            let mut rev = crate::storage::reversed(values_arr);
            proof {
                assert(rev@.reverse() =~= arr0);
            }
            while rev.len() > 0
                invariant
                    rev@.len() <= arr0.len(),
                    rev@.reverse() =~= arr0.subrange(arr0.len() - rev@.len(), arr0.len() as int),
                    values@.len() == arr0.len() - rev@.len(),
                    forall|j: int| 0 <= j < arr0.len() ==> value_shape(#[trigger] arr0[j]),
                    forall|j: int| 0 <= j < values@.len() ==> value_rel(
                        #[trigger] values@[j],
                        arr0[j],
                    ),
                decreases rev@.len(),
            {
                let ghost remaining = rev@.reverse();
                let entry = rev.pop().unwrap();
                proof {
                    assert(remaining[0] == entry);
                    assert(remaining[0] == arr0[values@.len() as int]);
                    assert(remaining.drop_first() =~= rev@.reverse());
                }
                let u = parse_value_entry(entry);
                values.push(u);
            }
            V1UpdateType { source, ref_source, timestamp, values }
        },
        _ => {
            proof {
                assert(false);
            }
            V1UpdateType { source: None, ref_source: None, timestamp: None, values: Vec::new() }
        },
    }
}

/// Reads a delta out of a wire object of the delta shape.
fn parse_delta(v: V1Value) -> (r: V1DeltaFormat)
    requires
        delta_shape(v),
    ensures
        delta_rel(r, v),
{
    match v {
        V1Value::Object(fields) => {
            let context = get_str_field(&fields, "context");
            let updates_arr = match obj_take_first(fields, "updates") {
                Some(V1Value::Array(a)) => a,
                _ => {
                    proof {
                        assert(false);
                    }
                    Vec::new()
                },
            };
            let ghost arr0 = updates_arr@;
            let mut updates: Vec<V1UpdateType> = Vec::new();
            let mut rev = crate::storage::reversed(updates_arr);
            proof {
                assert(rev@.reverse() =~= arr0);
            }
            while rev.len() > 0
                invariant
                    rev@.len() <= arr0.len(),
                    rev@.reverse() =~= arr0.subrange(arr0.len() - rev@.len(), arr0.len() as int),
                    updates@.len() == arr0.len() - rev@.len(),
                    forall|j: int| 0 <= j < arr0.len() ==> group_shape(#[trigger] arr0[j]),
                    forall|j: int| 0 <= j < updates@.len() ==> group_rel(
                        #[trigger] updates@[j],
                        arr0[j],
                    ),
                decreases rev@.len(),
            {
                let ghost remaining = rev@.reverse();
                let entry = rev.pop().unwrap();
                proof {
                    assert(remaining[0] == entry);
                    assert(remaining[0] == arr0[updates@.len() as int]);
                    assert(remaining.drop_first() =~= rev@.reverse());
                }
                let g = parse_group(entry);
                updates.push(g);
            }
            V1DeltaFormat { context, updates }
        },
        _ => {
            proof {
                assert(false);
            }
            V1DeltaFormat { context: None, updates: Vec::new() }
        },
    }
}

/// Classifies one inbound wire value: the handshake shape is tried first,
/// then the delta shape; anything else is preserved verbatim.  Nothing here
/// can fail and nothing here touches the tree.
pub fn classify(val: V1Value) -> (r: SignalKStreamMessage)
    ensures
        match r {
            SignalKStreamMessage::Hello(h) => hello_shape(val) && hello_rel(h, val),
            SignalKStreamMessage::Delta(d) => !hello_shape(val) && delta_shape(val) && delta_rel(
                d,
                val,
            ),
            SignalKStreamMessage::Unrecognized(v2) => !hello_shape(val) && !delta_shape(val) && v2
                == val,
        },
{
    if hello_shape_check(&val) {
        let h = parse_hello(&val);
        SignalKStreamMessage::Hello(h)
    } else if delta_shape_check(&val) {
        SignalKStreamMessage::Delta(parse_delta(val))
    } else {
        SignalKStreamMessage::Unrecognized(val)
    }
}

} // verus!
