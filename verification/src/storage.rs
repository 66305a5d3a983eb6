use vstd::prelude::*;

use crate::definitions::V1DefSource;
use crate::delta::V1DeltaFormat;
use crate::delta::V1UpdateType;
use crate::delta::V1UpdateValue;
use crate::electrical::ElectricalView;
use crate::electrical::V1Electrical;
use crate::environment::EnvironmentView;
use crate::environment::V1Environment;
use crate::merge::MergeAttempt;
use crate::merge::MergeOutcome;
use crate::merge::V1MergeError;
use crate::merge::elec_apply;
use crate::merge::elec_apply_exec;
use crate::merge::env_apply;
use crate::merge::env_apply_exec;
use crate::merge::nav_apply;
use crate::merge::nav_apply_exec;
use crate::merge::notif_apply;
use crate::merge::notif_apply_exec;
use crate::merge::prop_apply;
use crate::merge::prop_apply_exec;
use crate::navigation::NavigationView;
use crate::navigation::V1Navigation;
use crate::notification::NotificationView;
use crate::notification::V1Notification;
use crate::full::FullView;
use crate::full::V1FullFormat;
use crate::path::join_dots;
use crate::path::join_path;
use crate::path::split_dots;
use crate::path::split_path;
use crate::strmap::StrMap;
use crate::strmap::str_eq;
use crate::value::V1Value;
use crate::vessel::V1Vessel;
use crate::vessel::VesselView;

verus! {

/// The vessel-level identity fields a path or a whole-entity merge can set.
pub open spec fn is_identity_field(k: Seq<char>) -> bool {
    k == "name"@ || k == "mmsi"@ || k == "uuid"@ || k == "url"@ || k == "mothershipMmsi"@ || k
        == "port"@ || k == "flag"@
}

/// The vessel with one identity field rebound.
pub open spec fn set_identity_field(v: VesselView, k: Seq<char>, s: String) -> VesselView {
    if k == "name"@ {
        VesselView { name: Some(s), ..v }
    } else if k == "mmsi"@ {
        VesselView { mmsi: Some(s), ..v }
    } else if k == "uuid"@ {
        VesselView { uuid: Some(s), ..v }
    } else if k == "url"@ {
        VesselView { url: Some(s), ..v }
    } else if k == "mothershipMmsi"@ {
        VesselView { mothership_mmsi: Some(s), ..v }
    } else if k == "port"@ {
        VesselView { port: Some(s), ..v }
    } else {
        VesselView { flag: Some(s), ..v }
    }
}

/// A whole-entity object is merged only when every identity field it names
/// carries a string.
pub open spec fn shallow_valid(fields: Seq<(String, V1Value)>) -> bool {
    forall|i: int| 0 <= i < fields.len() ==> (is_identity_field(#[trigger] fields[i].0@)
        ==> fields[i].1 is Str)
}

/// Model of the whole-entity shallow merge: identity keys set their fields in
/// order, every other key lands in the extension bag.
pub open spec fn shallow_fold(v: VesselView, fields: Seq<(String, V1Value)>) -> VesselView
    decreases fields.len(),
{
    if fields.len() == 0 {
        v
    } else {
        let v1 = if is_identity_field(fields[0].0@) {
            match fields[0].1 {
                V1Value::Str(s) => set_identity_field(v, fields[0].0@, s),
                _ => v,
            }
        } else {
            VesselView { extras: v.extras.insert(fields[0].0@, fields[0].1), ..v }
        };
        shallow_fold(v1, fields.drop_first())
    }
}

/// Model of resolving one record's path against a vessel and merging its
/// value.  An empty path shallow-merges an object into the vessel itself; a
/// known head segment dispatches into the subsystem, created on demand; an
/// unknown trailing segment is kept in the extension bag; an unknown
/// intermediate segment is an error and the vessel is untouched.
pub open spec fn vessel_apply(
    v: VesselView,
    segs: Seq<Seq<char>>,
    val: V1Value,
    src: Seq<char>,
    ts: Seq<char>,
    touched: bool,
) -> Result<(VesselView, bool), V1MergeError> {
    if segs.len() == 0 {
        match val {
            V1Value::Object(fields) => if shallow_valid(fields@) {
                Ok((shallow_fold(v, fields@), touched))
            } else {
                Err(V1MergeError::TypeMismatch)
            },
            _ => Err(V1MergeError::TypeMismatch),
        }
    } else if is_identity_field(segs[0]) {
        if segs.len() == 1 {
            match val {
                V1Value::Str(s) => Ok((set_identity_field(v, segs[0], s), touched)),
                _ => Err(V1MergeError::TypeMismatch),
            }
        } else {
            Err(V1MergeError::UnknownSegment)
        }
    } else if segs[0] == "navigation"@ {
        let n = match v.navigation {
            Some(n) => n,
            None => NavigationView::empty(),
        };
        match nav_apply(n, segs.drop_first(), val, src, ts, touched) {
            MergeOutcome::Done((n2, t2)) => Ok((VesselView { navigation: Some(n2), ..v }, t2)),
            MergeOutcome::Unknown => Ok(
                (VesselView { extras: v.extras.insert(join_path(segs), val), ..v }, touched),
            ),
            MergeOutcome::Fail(e) => Err(e),
        }
    } else if segs[0] == "propulsion"@ {
        match prop_apply(v.propulsion, segs.drop_first(), val, src, ts) {
            MergeOutcome::Done(m2) => Ok((VesselView { propulsion: Some(m2), ..v }, touched)),
            MergeOutcome::Unknown => Ok(
                (VesselView { extras: v.extras.insert(join_path(segs), val), ..v }, touched),
            ),
            MergeOutcome::Fail(e) => Err(e),
        }
    } else if segs[0] == "environment"@ {
        let en = match v.environment {
            Some(en) => en,
            None => EnvironmentView::empty(),
        };
        match env_apply(en, segs.drop_first(), val, src, ts) {
            MergeOutcome::Done(e2) => Ok((VesselView { environment: Some(e2), ..v }, touched)),
            MergeOutcome::Unknown => Ok(
                (VesselView { extras: v.extras.insert(join_path(segs), val), ..v }, touched),
            ),
            MergeOutcome::Fail(e) => Err(e),
        }
    } else if segs[0] == "electrical"@ {
        let el = match v.electrical {
            Some(el) => el,
            None => ElectricalView::empty(),
        };
        match elec_apply(el, segs.drop_first(), val, src, ts) {
            MergeOutcome::Done(e2) => Ok((VesselView { electrical: Some(e2), ..v }, touched)),
            MergeOutcome::Unknown => Ok(
                (VesselView { extras: v.extras.insert(join_path(segs), val), ..v }, touched),
            ),
            MergeOutcome::Fail(e) => Err(e),
        }
    } else if segs[0] == "notifications"@ {
        let n = match v.notifications {
            Some(n) => n,
            None => NotificationView::empty(),
        };
        match notif_apply(n, segs.drop_first(), val, src, ts) {
            MergeOutcome::Done(n2) => Ok((VesselView { notifications: Some(n2), ..v }, touched)),
            MergeOutcome::Unknown => Ok(
                (VesselView { extras: v.extras.insert(join_path(segs), val), ..v }, touched),
            ),
            MergeOutcome::Fail(e) => Err(e),
        }
    } else if segs.len() == 1 {
        Ok((VesselView { extras: v.extras.insert(join_path(segs), val), ..v }, touched))
    } else {
        Err(V1MergeError::UnknownSegment)
    }
}

/// Sets one identity field from a wire string.
fn set_identity_exec(v: &mut V1Vessel, k: &str, s: String)
    requires
        is_identity_field(k@),
    ensures
        final(v)@ == set_identity_field(old(v)@, k@, s),
{
    if str_eq(k, "name") {
        v.name = Some(s);
    } else if str_eq(k, "mmsi") {
        v.mmsi = Some(s);
    } else if str_eq(k, "uuid") {
        v.uuid = Some(s);
    } else if str_eq(k, "url") {
        v.url = Some(s);
    } else if str_eq(k, "mothershipMmsi") {
        v.mothership_mmsi = Some(s);
    } else if str_eq(k, "port") {
        v.port = Some(s);
    } else {
        v.flag = Some(s);
        proof {
            assert(final(v)@ =~= set_identity_field(old(v)@, k@, s));
        }
    }
}

/// A vector with its elements in reverse order.
pub(crate) fn reversed<T>(xs: Vec<T>) -> (r: Vec<T>)
    ensures
        r@ == xs@.reverse(),
{
    let mut xs = xs;
    let mut r: Vec<T> = Vec::new();
    let ghost orig = xs@;
    proof {
        assert(xs@ =~= orig.subrange(0, xs@.len() as int));
        assert(r@ =~= orig.subrange(xs@.len() as int, orig.len() as int).reverse());
    }
    while xs.len() > 0
        invariant
            xs@.len() <= orig.len(),
            xs@ == orig.subrange(0, xs@.len() as int),
            r@ == orig.subrange(xs@.len() as int, orig.len() as int).reverse(),
        decreases xs@.len(),
    {
        let ghost k = xs@.len() as int;
        match xs.pop() {
            Some(x) => {
                r.push(x);
                proof {
                    assert(x == orig[k - 1]);
                    assert(xs@ =~= orig.subrange(0, k - 1));
                    assert(orig.subrange(k - 1, orig.len() as int) =~= seq![orig[k - 1]]
                        + orig.subrange(k, orig.len() as int));
                    assert(r@ =~= orig.subrange(k - 1, orig.len() as int).reverse());
                }
            },
            None => {},
        }
    }
    proof {
        assert(orig.subrange(0, orig.len() as int) =~= orig);
        assert(r@ =~= orig.reverse());
    }
    r
}

/// Whether a whole-entity object's identity keys all carry strings.
fn shallow_check(fields: &Vec<(String, V1Value)>) -> (r: bool)
    ensures
        r == shallow_valid(fields@),
{
    let n = fields.len();
    for i in 0..n
        invariant
            n == fields@.len(),
            forall|j: int| 0 <= j < i ==> (is_identity_field(#[trigger] fields@[j].0@)
                ==> fields@[j].1 is Str),
    {
        let k = fields[i].0.as_str();
        let id_field = str_eq(k, "name") || str_eq(k, "mmsi") || str_eq(k, "uuid") || str_eq(
            k,
            "url",
        ) || str_eq(k, "mothershipMmsi") || str_eq(k, "port") || str_eq(k, "flag");
        if id_field {
            match &fields[i].1 {
                V1Value::Str(_) => {},
                _ => {
                    proof {
                        assert(!shallow_valid(fields@));
                    }
                    return false;
                },
            }
        }
    }
    true
}

/// Merges one record, addressed by its resolved segments, into a vessel.
pub fn vessel_apply_exec(
    v: &mut V1Vessel,
    segs: &Vec<String>,
    val: V1Value,
    src: &str,
    ts: &str,
    touched: bool,
) -> (r: Result<bool, V1MergeError>)
    ensures
        ({
            let spec_r = vessel_apply(
                old(v)@,
                segs@.map_values(|x: String| x@),
                val,
                src@,
                ts@,
                touched,
            );
            match r {
                Ok(t2) => spec_r == Ok::<_, V1MergeError>((final(v)@, t2)),
                Err(e) => spec_r == Err::<(VesselView, bool), _>(e) && final(v)@ == old(v)@,
            }
        }),
{
    let ghost sv = segs@.map_values(|x: String| x@);
    proof {
        assert(segs@.skip(0).map_values(|x: String| x@) =~= sv);
    }
    let nn = segs.len();
    if nn == 0 {
        match val {
            V1Value::Object(fields) => {
                if !shallow_check(&fields) {
                    return Err(V1MergeError::TypeMismatch);
                }
                let ghost all_fields = fields@;
                let mut rev = reversed(fields);
                proof {
                    assert(rev@.reverse() =~= all_fields);
                }
                while rev.len() > 0
                    invariant
                        shallow_valid(all_fields),
                        forall|j: int| 0 <= j < rev@.len() ==> (is_identity_field(
                            #[trigger] rev@[j].0@,
                        ) ==> rev@[j].1 is Str),
                        shallow_fold(old(v)@, all_fields) == shallow_fold(v@, rev@.reverse()),
                    decreases rev@.len(),
                {
                    let ghost remaining = rev@.reverse();
                    match rev.pop() {
                        Some((k, fv)) => {
                            proof {
                                assert(remaining[0] == (k, fv));
                                assert(remaining.drop_first() =~= rev@.reverse());
                            }
                            let ks = k.as_str();
                            let id_field = str_eq(ks, "name") || str_eq(ks, "mmsi") || str_eq(
                                ks,
                                "uuid",
                            ) || str_eq(ks, "url") || str_eq(ks, "mothershipMmsi") || str_eq(
                                ks,
                                "port",
                            ) || str_eq(ks, "flag");
                            if id_field {
                                match fv {
                                    V1Value::Str(s) => {
                                        set_identity_exec(v, ks, s);
                                    },
                                    _ => {
                                        proof {
                                            assert(false);
                                        }
                                    },
                                }
                            } else {
                                let ghost before = v@;
                                v.extras.insert(k, fv);
                                proof {
                                    assert(v@ =~= (VesselView {
                                        extras: before.extras.insert(k@, fv),
                                        ..before
                                    }));
                                }
                            }
                        },
                        None => {},
                    }
                }
                proof {
                    assert(rev@.reverse() =~= Seq::<(String, V1Value)>::empty());
                    assert(shallow_fold(v@, Seq::<(String, V1Value)>::empty()) == v@);
                }
                Ok(touched)
            },
            _ => Err(V1MergeError::TypeMismatch),
        }
    } else {
        proof {
            assert(sv[0] == segs@[0]@);
            assert(sv.drop_first() =~= segs@.skip(1).map_values(|x: String| x@));
        }
        let seg = segs[0].as_str();
        let id_field = str_eq(seg, "name") || str_eq(seg, "mmsi") || str_eq(seg, "uuid")
            || str_eq(seg, "url") || str_eq(seg, "mothershipMmsi") || str_eq(seg, "port")
            || str_eq(seg, "flag");
        if id_field {
            if nn > 1 {
                return Err(V1MergeError::UnknownSegment);
            }
            match val {
                V1Value::Str(s) => {
                    set_identity_exec(v, seg, s);
                    Ok(touched)
                },
                _ => Err(V1MergeError::TypeMismatch),
            }
        } else if str_eq(seg, "navigation") {
            let had = v.navigation.is_some();
            let mut cur: Option<V1Navigation> = None;
            std::mem::swap(&mut v.navigation, &mut cur);
            let mut nav = match cur {
                Some(n) => n,
                None => V1Navigation::default(),
            };
            match nav_apply_exec(&mut nav, segs, 1, val, src, ts, touched) {
                MergeAttempt::Applied(t2) => {
                    v.navigation = Some(nav);
                    proof {
                        assert(final(v)@ =~= (VesselView {
                            navigation: Some(nav@),
                            ..old(v)@
                        }));
                    }
                    Ok(t2)
                },
                MergeAttempt::Unknown(v2) => {
                    if had {
                        v.navigation = Some(nav);
                    }
                    let key = join_dots(segs, 0);
                    v.extras.insert(key, v2);
                    proof {
                        assert(final(v)@ =~= (VesselView {
                            extras: old(v)@.extras.insert(join_path(sv), v2),
                            ..old(v)@
                        }));
                    }
                    Ok(touched)
                },
                MergeAttempt::Failed(e) => {
                    if had {
                        v.navigation = Some(nav);
                    }
                    proof {
                        assert(final(v)@ =~= old(v)@);
                    }
                    Err(e)
                },
            }
        } else if str_eq(seg, "propulsion") {
            match prop_apply_exec(&mut v.propulsion, segs, 1, val, src, ts, touched) {
                MergeAttempt::Applied(t2) => {
                    proof {
                        assert(final(v)@ =~= (VesselView {
                            propulsion: crate::merge::prop_map_view(final(v).propulsion),
                            ..old(v)@
                        }));
                    }
                    Ok(t2)
                },
                MergeAttempt::Unknown(v2) => {
                    let key = join_dots(segs, 0);
                    v.extras.insert(key, v2);
                    proof {
                        assert(final(v)@ =~= (VesselView {
                            extras: old(v)@.extras.insert(join_path(sv), v2),
                            ..old(v)@
                        }));
                    }
                    Ok(touched)
                },
                MergeAttempt::Failed(e) => {
                    proof {
                        assert(final(v)@ =~= old(v)@);
                    }
                    Err(e)
                },
            }
        } else if str_eq(seg, "environment") {
            let had = v.environment.is_some();
            let mut cur: Option<V1Environment> = None;
            std::mem::swap(&mut v.environment, &mut cur);
            let mut env = match cur {
                Some(e) => e,
                None => V1Environment::default(),
            };
            match env_apply_exec(&mut env, segs, 1, val, src, ts, touched) {
                MergeAttempt::Applied(t2) => {
                    v.environment = Some(env);
                    proof {
                        assert(final(v)@ =~= (VesselView {
                            environment: Some(env@),
                            ..old(v)@
                        }));
                    }
                    Ok(t2)
                },
                MergeAttempt::Unknown(v2) => {
                    if had {
                        v.environment = Some(env);
                    }
                    let key = join_dots(segs, 0);
                    v.extras.insert(key, v2);
                    proof {
                        assert(final(v)@ =~= (VesselView {
                            extras: old(v)@.extras.insert(join_path(sv), v2),
                            ..old(v)@
                        }));
                    }
                    Ok(touched)
                },
                MergeAttempt::Failed(e) => {
                    if had {
                        v.environment = Some(env);
                    }
                    proof {
                        assert(final(v)@ =~= old(v)@);
                    }
                    Err(e)
                },
            }
        } else if str_eq(seg, "electrical") {
            let had = v.electrical.is_some();
            let mut cur: Option<V1Electrical> = None;
            std::mem::swap(&mut v.electrical, &mut cur);
            let mut el = match cur {
                Some(e) => e,
                None => V1Electrical::default(),
            };
            match elec_apply_exec(&mut el, segs, 1, val, src, ts, touched) {
                MergeAttempt::Applied(t2) => {
                    v.electrical = Some(el);
                    proof {
                        assert(final(v)@ =~= (VesselView {
                            electrical: Some(el@),
                            ..old(v)@
                        }));
                    }
                    Ok(t2)
                },
                MergeAttempt::Unknown(v2) => {
                    if had {
                        v.electrical = Some(el);
                    }
                    let key = join_dots(segs, 0);
                    v.extras.insert(key, v2);
                    proof {
                        assert(final(v)@ =~= (VesselView {
                            extras: old(v)@.extras.insert(join_path(sv), v2),
                            ..old(v)@
                        }));
                    }
                    Ok(touched)
                },
                MergeAttempt::Failed(e) => {
                    if had {
                        v.electrical = Some(el);
                    }
                    proof {
                        assert(final(v)@ =~= old(v)@);
                    }
                    Err(e)
                },
            }
        } else if str_eq(seg, "notifications") {
            let had = v.notifications.is_some();
            let mut cur: Option<V1Notification> = None;
            std::mem::swap(&mut v.notifications, &mut cur);
            let mut node = match cur {
                Some(n) => n,
                None => V1Notification::default(),
            };
            match notif_apply_exec(&mut node, segs, 1, val, src, ts, touched) {
                MergeAttempt::Applied(t2) => {
                    v.notifications = Some(node);
                    proof {
                        assert(final(v)@ =~= (VesselView {
                            notifications: Some(node@),
                            ..old(v)@
                        }));
                    }
                    Ok(t2)
                },
                MergeAttempt::Unknown(v2) => {
                    if had {
                        v.notifications = Some(node);
                    }
                    let key = join_dots(segs, 0);
                    v.extras.insert(key, v2);
                    proof {
                        assert(final(v)@ =~= (VesselView {
                            extras: old(v)@.extras.insert(join_path(sv), v2),
                            ..old(v)@
                        }));
                    }
                    Ok(touched)
                },
                MergeAttempt::Failed(e) => {
                    if had {
                        v.notifications = Some(node);
                    }
                    proof {
                        assert(final(v)@ =~= old(v)@);
                    }
                    Err(e)
                },
            }
        } else if nn == 1 {
            let key = join_dots(segs, 0);
            v.extras.insert(key, val);
            proof {
                assert(final(v)@ =~= (VesselView {
                    extras: old(v)@.extras.insert(join_path(sv), val),
                    ..old(v)@
                }));
            }
            Ok(touched)
        } else {
            Err(V1MergeError::UnknownSegment)
        }
    }
}


/// The vessel id designated by a self context of the shape `vessels.<id>`.
pub open spec fn resolve_self_id(self_: Seq<char>) -> Option<Seq<char>> {
    let ss = split_path(self_);
    if ss.len() >= 2 && ss[0] == "vessels"@ {
        Some(ss[1])
    } else {
        None
    }
}

/// Model of context resolution: the id of the vessel a delta addresses, and
/// the path prefix carried by any context segments after the id.  A missing
/// context addresses the self vessel; the literal id `self` resolves through
/// the designated self context; both fail with `UnknownContext` when no self
/// is designated.
pub open spec fn resolve_context(self_: Seq<char>, context: Option<String>) -> Result<
    (Seq<char>, Seq<Seq<char>>),
    V1MergeError,
> {
    match context {
        None => match resolve_self_id(self_) {
            Some(id) => Ok((id, Seq::empty())),
            None => Err(V1MergeError::UnknownContext),
        },
        Some(c) => {
            let segs = split_path(c@);
            if segs.len() < 2 || segs[0] != "vessels"@ {
                Err(V1MergeError::UnknownContext)
            } else {
                let prefix = segs.skip(2);
                if segs[1] == "self"@ {
                    match resolve_self_id(self_) {
                        Some(id) => Ok((id, prefix)),
                        None => Err(V1MergeError::UnknownContext),
                    }
                } else {
                    Ok((segs[1], prefix))
                }
            }
        },
    }
}

/// The segments one record resolves to: the context's path prefix followed by
/// the record's own path; an empty path contributes nothing, so an empty
/// context tail with an empty path addresses the whole vessel.
pub open spec fn record_segs(prefix: Seq<Seq<char>>, path: Seq<char>) -> Seq<Seq<char>> {
    if path.len() == 0 {
        prefix
    } else {
        prefix + split_path(path)
    }
}

/// The provenance source of an update group: its `$source` reference when
/// present, else the label of its source descriptor, else empty.
pub open spec fn group_source_view(ref_source: Option<String>, source: Option<V1DefSource>) -> Seq<
    char,
> {
    match ref_source {
        Some(s) => s@,
        None => match source {
            Some(d) => d.label@,
            None => Seq::empty(),
        },
    }
}

/// The provenance timestamp of an update group, empty when it carries none.
pub open spec fn group_timestamp_view(timestamp: Option<String>) -> Seq<char> {
    match timestamp {
        Some(t) => t@,
        None => Seq::empty(),
    }
}

/// Model of applying every record of one group, in order, to a vessel.  Each
/// record is independent: a failing record contributes its error and leaves
/// the vessel as the previous record left it.
pub open spec fn apply_values(
    v: VesselView,
    prefix: Seq<Seq<char>>,
    values: Seq<V1UpdateValue>,
    src: Seq<char>,
    ts: Seq<char>,
    touched: bool,
) -> (VesselView, Seq<V1MergeError>, bool)
    decreases values.len(),
{
    if values.len() == 0 {
        (v, Seq::empty(), touched)
    } else {
        let rec = values[0];
        match vessel_apply(v, record_segs(prefix, rec.path@), rec.value, src, ts, touched) {
            Ok((v2, t2)) => apply_values(v2, prefix, values.drop_first(), src, ts, t2),
            Err(e) => {
                let (v3, es, t3) = apply_values(v, prefix, values.drop_first(), src, ts, touched);
                (v3, seq![e] + es, t3)
            },
        }
    }
}

/// Model of applying one update group to the tree: the addressed vessel is
/// created when absent, and position sub-fields accumulate only within the
/// group.
pub open spec fn apply_group(
    t: FullView,
    id: Seq<char>,
    prefix: Seq<Seq<char>>,
    g: V1UpdateType,
) -> (FullView, Seq<V1MergeError>) {
    let vm = match t.vessels {
        Some(m) => m,
        None => Map::empty(),
    };
    let v0 = if vm.dom().contains(id) {
        vm[id]
    } else {
        VesselView::empty()
    };
    let (v2, es, _) = apply_values(
        v0,
        prefix,
        g.values@,
        group_source_view(g.ref_source, g.source),
        group_timestamp_view(g.timestamp),
        false,
    );
    (FullView { vessels: Some(vm.insert(id, v2)), ..t }, es)
}

/// Model of applying each group of a delta in order.
pub open spec fn apply_groups(
    t: FullView,
    id: Seq<char>,
    prefix: Seq<Seq<char>>,
    gs: Seq<V1UpdateType>,
) -> (FullView, Seq<V1MergeError>)
    decreases gs.len(),
{
    if gs.len() == 0 {
        (t, Seq::empty())
    } else {
        let (t1, e1) = apply_group(t, id, prefix, gs[0]);
        let (t2, e2) = apply_groups(t1, id, prefix, gs.drop_first());
        (t2, e1 + e2)
    }
}

/// Model of applying a whole delta: an unresolvable context drops the delta
/// with one error and no change to the tree; otherwise every group applies in
/// order.
pub open spec fn apply_delta(t: FullView, d: V1DeltaFormat) -> (FullView, Seq<V1MergeError>) {
    match resolve_context(t.self_, d.context) {
        Err(e) => (t, seq![e]),
        Ok((id, prefix)) => apply_groups(t, id, prefix, d.updates@),
    }
}

/// The self vessel id of a designated self context, if it has the expected
/// shape.
fn resolve_self_exec(self_: &str) -> (r: Option<String>)
    ensures
        match r {
            Some(id) => resolve_self_id(self_@) == Some(id@),
            None => resolve_self_id(self_@) is None,
        },
{
    let segs = split_dots(self_);
    if segs.len() >= 2 && str_eq(segs[0].as_str(), "vessels") {
        proof {
            assert(segs@.map_values(|x: String| x@)[0] == split_path(self_@)[0]);
            assert(segs@.map_values(|x: String| x@)[1] == split_path(self_@)[1]);
        }
        Some(segs[1].clone())
    } else {
        proof {
            if segs.len() >= 2 {
                assert(segs@.map_values(|x: String| x@)[0] == split_path(self_@)[0]);
            }
        }
        None
    }
}

/// Resolves a delta's context against the designated self context.
fn resolve_context_exec(self_: &str, context: &Option<String>) -> (r: Result<
    (String, Vec<String>),
    V1MergeError,
>)
    ensures
        ({
            let spec_r = resolve_context(self_@, *context);
            match r {
                Ok((id, prefix)) => spec_r matches Ok(sp) && sp.0 == id@ && sp.1
                    == prefix@.map_values(|x: String| x@),
                Err(e) => spec_r == Err::<(Seq<char>, Seq<Seq<char>>), _>(e),
            }
        }),
{
    match context {
        None => match resolve_self_exec(self_) {
            Some(id) => {
                let r: Vec<String> = Vec::new();
                proof {
                    assert(r@.map_values(|x: String| x@) =~= Seq::<Seq<char>>::empty());
                }
                Ok((id, r))
            },
            None => Err(V1MergeError::UnknownContext),
        },
        Some(c) => {
            let segs = split_dots(c.as_str());
            let ghost cv = split_path(c@);
            if segs.len() < 2 || !str_eq(segs[0].as_str(), "vessels") {
                proof {
                    if segs.len() >= 2 {
                        assert(segs@.map_values(|x: String| x@)[0] == cv[0]);
                    }
                }
                return Err(V1MergeError::UnknownContext);
            }
            proof {
                assert(segs@.map_values(|x: String| x@)[0] == cv[0]);
                assert(segs@.map_values(|x: String| x@)[1] == cv[1]);
            }
            let mut prefix: Vec<String> = Vec::new();
            let n = segs.len();
            for i in 2..n
                invariant
                    2 <= n == segs@.len(),
                    prefix@ =~= segs@.subrange(2, i as int),
            {
                prefix.push(segs[i].clone());
            }
            proof {
                assert(prefix@ =~= segs@.skip(2));
                assert(prefix@.map_values(|x: String| x@) =~= cv.skip(2));
            }
            if str_eq(segs[1].as_str(), "self") {
                match resolve_self_exec(self_) {
                    Some(id) => Ok((id, prefix)),
                    None => Err(V1MergeError::UnknownContext),
                }
            } else {
                Ok((segs[1].clone(), prefix))
            }
        },
    }
}

/// The effective segments of one record: the context prefix, then the
/// record's split path.
fn record_segs_exec(prefix: &Vec<String>, path: &str) -> (r: Vec<String>)
    ensures
        r@.map_values(|x: String| x@) == record_segs(
            prefix@.map_values(|x: String| x@),
            path@,
        ),
{
    let mut out: Vec<String> = Vec::new();
    let n = prefix.len();
    for i in 0..n
        invariant
            n == prefix@.len(),
            out@ =~= prefix@.subrange(0, i as int),
    {
        out.push(prefix[i].clone());
    }
    proof {
        assert(out@ =~= prefix@);
    }
    if path.is_empty() {
        proof {
            assert(out@.map_values(|x: String| x@) =~= prefix@.map_values(|x: String| x@));
        }
        out
    } else {
        let mut ps = split_dots(path);
        out.append(&mut ps);
        proof {
            assert(out@.map_values(|x: String| x@) =~= prefix@.map_values(|x: String| x@)
                + split_path(path@));
        }
        out
    }
}

/// The provenance source of one group.
fn group_source(ref_source: &Option<String>, source: &Option<V1DefSource>) -> (r: String)
    ensures
        r@ == group_source_view(*ref_source, *source),
{
    match ref_source {
        Some(s) => s.clone(),
        None => match source {
            Some(d) => d.label.clone(),
            None => String::new(),
        },
    }
}

/// The provenance timestamp of one group.
fn group_timestamp(timestamp: &Option<String>) -> (r: String)
    ensures
        r@ == group_timestamp_view(*timestamp),
{
    match timestamp {
        Some(t) => t.clone(),
        None => String::new(),
    }
}

/// The delta-merge engine: it owns the canonical tree and merges deltas into
/// it, creating vessels and subtrees the first time a path addresses them.
#[derive(Debug)]
pub struct Storage {
    tree: V1FullFormat,
}

impl View for Storage {
    type V = FullView;

    closed spec fn view(&self) -> FullView {
        self.tree@
    }
}

impl Default for Storage {
    fn default() -> (r: Self)
        ensures
            r@ == (FullView {
                version: "1.7.0"@,
                self_: Seq::<char>::empty(),
                vessels: None,
                sources: None,
            }),
    {
        Storage { tree: V1FullFormat::default() }
    }
}

impl Storage {
    /// Wraps an existing tree.
    pub fn new(tree: V1FullFormat) -> (r: Storage)
        ensures
            r@ == tree@,
    {
        Storage { tree }
    }

    /// The canonical tree, for the read side.
    pub fn get(&self) -> (r: &V1FullFormat)
        ensures
            r@ == self@,
    {
        &self.tree
    }

    /// Designates the self context, overwriting any earlier designation; the
    /// session layer decides when that is allowed.
    pub fn set_self(&mut self, value: &str)
        ensures
            final(self)@ == (FullView { self_: value@, ..old(self)@ }),
    {
        self.tree.self_ = value.to_owned();
        proof {
            assert(final(self)@ =~= (FullView { self_: value@, ..old(self)@ }));
        }
    }

    /// Merges one delta into the tree and reports the records that were
    /// dropped.  Each record applies independently: an error drops only that
    /// record, and an unresolvable context drops the whole delta unapplied.
    pub fn update(&mut self, delta: V1DeltaFormat) -> (errs: Vec<V1MergeError>)
        ensures
            final(self)@ == apply_delta(old(self)@, delta).0,
            errs@ == apply_delta(old(self)@, delta).1,
    {
        let V1DeltaFormat { context, updates } = delta;
        let mut errs: Vec<V1MergeError> = Vec::new();
        let (id, prefix) = match resolve_context_exec(self.tree.self_.as_str(), &context) {
            Ok(p) => p,
            Err(e) => {
                errs.push(e);
                proof {
                    assert(errs@ =~= seq![e]);
                }
                return errs;
            },
        };
        let ghost id_v = id@;
        let ghost prefix_v = prefix@.map_values(|x: String| x@);
        let ghost t0 = self@;
        let ghost all_groups = updates@;
        let mut rev = reversed(updates);
        proof {
            assert(rev@.reverse() =~= all_groups);
        }
        while rev.len() > 0
            invariant
                id_v == id@,
                prefix_v == prefix@.map_values(|x: String| x@),
                apply_groups(t0, id_v, prefix_v, all_groups).0 == apply_groups(
                    self@,
                    id_v,
                    prefix_v,
                    rev@.reverse(),
                ).0,
                apply_groups(t0, id_v, prefix_v, all_groups).1 == errs@ + apply_groups(
                    self@,
                    id_v,
                    prefix_v,
                    rev@.reverse(),
                ).1,
            decreases rev@.len(),
        {
            let ghost remaining = rev@.reverse();
            let ghost errs0 = errs@;
            let group = rev.pop().unwrap();
            proof {
                assert(remaining[0] == group);
                assert(remaining.drop_first() =~= rev@.reverse());
            }
            let mut ges = self.apply_one_group(&id, &prefix, group);
            let ghost ges_v = ges@;
            errs.append(&mut ges);
            proof {
                let rest = apply_groups(self@, id_v, prefix_v, rev@.reverse()).1;
                assert(errs@ =~= errs0 + ges_v);
                assert((errs0 + ges_v) + rest =~= errs0 + (ges_v + rest));
            }
        }
        proof {
            assert(rev@.reverse() =~= Seq::<V1UpdateType>::empty());
        }
        errs
    }

    /// Applies one update group to the tree.
    fn apply_one_group(
        &mut self,
        id: &String,
        prefix: &Vec<String>,
        group: V1UpdateType,
    ) -> (errs: Vec<V1MergeError>)
        ensures
            final(self)@ == apply_group(
                old(self)@,
                id@,
                prefix@.map_values(|x: String| x@),
                group,
            ).0,
            errs@ == apply_group(old(self)@, id@, prefix@.map_values(|x: String| x@), group).1,
    {
        let ghost id_v = id@;
        let ghost prefix_v = prefix@.map_values(|x: String| x@);
        let V1UpdateType { source, ref_source, timestamp, values } = group;
        let src = group_source(&ref_source, &source);
        let ts = group_timestamp(&timestamp);
        let mut cur: Option<StrMap<V1Vessel>> = None;
        std::mem::swap(&mut self.tree.vessels, &mut cur);
        let mut vmap = match cur {
            Some(m) => m,
            None => StrMap::new(),
        };
        let ghost m0 = vmap@;
        let mut vessel = match vmap.take(id.as_str()) {
            Some(v) => v,
            None => V1Vessel::default(),
        };
        let ghost v0 = vessel@;
        proof {
            let f = |v: V1Vessel| v@;
            let mv = match old(self)@.vessels {
                Some(x) => x,
                None => Map::<Seq<char>, VesselView>::empty(),
            };
            assert(mv =~= m0.map_values(f));
            assert(mv.dom() =~= m0.dom());
            if m0.dom().contains(id_v) {
                assert(mv[id_v] == f(m0[id_v]));
            }
        }
        let errs = apply_group_values(&mut vessel, prefix, values, src.as_str(), ts.as_str());
        let ghost v2 = vessel@;
        vmap.insert(id.clone(), vessel);
        self.tree.vessels = Some(vmap);
        proof {
            let f = |v: V1Vessel| v@;
            let mv = match old(self)@.vessels {
                Some(x) => x,
                None => Map::<Seq<char>, VesselView>::empty(),
            };
            assert(final(self).tree.vessels->0@.map_values(f) =~= mv.insert(id_v, v2));
            assert(final(self)@ =~= (FullView {
                vessels: Some(mv.insert(id_v, v2)),
                ..old(self)@
            }));
        }
        errs
    }
}


/// Applies every record of one group, in order, to one vessel; the group's
/// provenance is already resolved.  Records apply independently: each failure
/// is reported and leaves the vessel as the previous record left it.
fn apply_group_values(
    vessel: &mut V1Vessel,
    prefix: &Vec<String>,
    values: Vec<V1UpdateValue>,
    src: &str,
    ts: &str,
) -> (errs: Vec<V1MergeError>)
    ensures
        ({
            let r = apply_values(
                old(vessel)@,
                prefix@.map_values(|x: String| x@),
                values@,
                src@,
                ts@,
                false,
            );
            &&& final(vessel)@ == r.0
            &&& errs@ == r.1
        }),
{
    let ghost prefix_v = prefix@.map_values(|x: String| x@);
    let ghost v0 = vessel@;
    let mut errs: Vec<V1MergeError> = Vec::new();
    let mut touched = false;
    let ghost all_values = values@;
    let mut rev = reversed(values);
    proof {
        assert(rev@.reverse() =~= all_values);
    }
    while rev.len() > 0
        invariant
            prefix_v == prefix@.map_values(|x: String| x@),
            apply_values(v0, prefix_v, all_values, src@, ts@, false) == ({
                let (v3, es, t3) = apply_values(
                    vessel@,
                    prefix_v,
                    rev@.reverse(),
                    src@,
                    ts@,
                    touched,
                );
                (v3, errs@ + es, t3)
            }),
        decreases rev@.len(),
    {
        let ghost remaining = rev@.reverse();
        let ghost errs0 = errs@;
        let rec = rev.pop().unwrap();
        proof {
            assert(remaining[0] == rec);
            assert(remaining.drop_first() =~= rev@.reverse());
        }
        let V1UpdateValue { path, value } = rec;
        let segs = record_segs_exec(prefix, path.as_str());
        match vessel_apply_exec(vessel, &segs, value, src, ts, touched) {
            Ok(t2) => {
                touched = t2;
            },
            Err(e) => {
                errs.push(e);
                proof {
                    let rest = apply_values(
                        vessel@,
                        prefix_v,
                        rev@.reverse(),
                        src@,
                        ts@,
                        touched,
                    ).1;
                    assert(errs@ =~= errs0 + seq![e]);
                    assert((errs0 + seq![e]) + rest =~= errs0 + (seq![e] + rest));
                }
            },
        }
    }
    proof {
        assert(rev@.reverse() =~= Seq::<V1UpdateValue>::empty());
        assert(errs@ + Seq::<V1MergeError>::empty() =~= errs@);
    }
    errs
}

impl crate::full::Updateable for V1Vessel {
    /// Merges one update group into this vessel, for callers that hold a
    /// vessel directly: each record applies independently with the group's
    /// provenance, exactly as `Storage::update` applies it to the addressed
    /// vessel; records the resolver or the schema rejects are dropped.
    fn apply_update(&mut self, update: V1UpdateType)
        ensures
            final(self)@ == apply_values(
                old(self)@,
                Seq::empty(),
                update.values@,
                group_source_view(update.ref_source, update.source),
                group_timestamp_view(update.timestamp),
                false,
            ).0,
    {
        let V1UpdateType { source, ref_source, timestamp, values } = update;
        let src = group_source(&ref_source, &source);
        let ts = group_timestamp(&timestamp);
        let prefix: Vec<String> = Vec::new();
        proof {
            assert(prefix@.map_values(|x: String| x@) =~= Seq::<Seq<char>>::empty());
        }
        let _ = apply_group_values(self, &prefix, values, src.as_str(), ts.as_str());
    }

    fn id(&self) -> (r: String)
        ensures
            r@ == (match self.mmsi {
                Some(m) => m@,
                None => match self.uuid {
                    Some(u) => u@,
                    None => Seq::<char>::empty(),
                },
            }),
    {
        self.id()
    }

    fn type_label(&self) -> (r: String)
        ensures
            r@ == "V1Vessel"@,
    {
        self.type_label()
    }
}

} // verus!
