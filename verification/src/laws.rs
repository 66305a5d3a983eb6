use vstd::prelude::*;

use crate::merge::MergeOutcome;
use crate::merge::V1MergeError;
use crate::merge::nav_apply;
use crate::merge::num_leaf_view;
use crate::merge::position_apply;
use crate::full::FullView;
use crate::delta::V1DeltaFormat;
use crate::delta::V1UpdateValue;
use crate::navigation::NavigationView;
use crate::navigation::PositionTypeView;
use crate::storage::apply_delta;
use crate::storage::apply_group;
use crate::storage::apply_groups;
use crate::storage::apply_values;
use crate::storage::group_source_view;
use crate::storage::group_timestamp_view;
use crate::storage::is_identity_field;
use crate::storage::record_segs;
use crate::storage::resolve_context;
use crate::storage::set_identity_field;
use crate::storage::shallow_fold;
use crate::storage::vessel_apply;
use crate::value::V1Num;
use crate::value::V1Value;
use crate::vessel::VesselView;

verus! {

/// A numeric leaf is overwritten in full: after two writes to the same
/// navigation field, only the later reading and its provenance remain.
pub proof fn lemma_leaf_overwrite(
    n: NavigationView,
    segs: Seq<Seq<char>>,
    x1: V1Num,
    x2: V1Num,
    src1: Seq<char>,
    ts1: Seq<char>,
    src2: Seq<char>,
    ts2: Seq<char>,
    ta: bool,
    tb: bool,
)
    requires
        segs == seq!["speedOverGround"@],
        nav_apply(n, segs, V1Value::Num(x1), src1, ts1, ta) is Done,
    ensures
        ({
            let (n1, t1) = nav_apply(n, segs, V1Value::Num(x1), src1, ts1, ta)->Done_0;
            let r2 = nav_apply(n1, segs, V1Value::Num(x2), src2, ts2, tb);
            &&& r2 matches MergeOutcome::Done((n2, _)) && n2.speed_over_ground == Some(
                num_leaf_view(x2, src2, ts2),
            )
        }),
{
    reveal_strlit("position");
    reveal_strlit("courseOverGroundMagnetic");
    reveal_strlit("courseOverGroundTrue");
    reveal_strlit("courseRhumbline");
    reveal_strlit("courseGreatCircle");
    reveal_strlit("magneticVariation");
    reveal_strlit("magneticVariationAgeOfService");
    reveal_strlit("headingMagnetic");
    reveal_strlit("magneticDeviation");
    reveal_strlit("headingCompass");
    reveal_strlit("headingTrue");
    reveal_strlit("rateOfTurn");
    reveal_strlit("speedOverGround");
    assert(segs[0] == "speedOverGround"@);
    assert("speedOverGround"@[0] == 's');
    assert("courseRhumbline"@[0] == 'c');
    assert("headingMagnetic"@[0] == 'h');
    assert("position"@[0] == 'p');
    assert(segs[0] != "position"@);
    assert(segs[0] != "courseRhumbline"@);
    assert(segs[0] != "headingMagnetic"@);
}

/// Merging into an unknown vessel id creates exactly one vessel entry: the
/// tree's vessel ids afterwards are the old ids plus the addressed one.
pub proof fn lemma_lazy_creation(
    t: FullView,
    d: V1DeltaFormat,
    id: Seq<char>,
    prefix: Seq<Seq<char>>,
)
    requires
        resolve_context(t.self_, d.context) == Ok::<(Seq<char>, Seq<Seq<char>>), V1MergeError>(
            (id, prefix),
        ),
        d.updates@.len() > 0,
    ensures
        apply_delta(t, d).0.vessels matches Some(m2) && m2.dom() == (match t.vessels {
            Some(m) => m.dom(),
            None => Set::<Seq<char>>::empty(),
        }).insert(id),
{
    lemma_apply_groups_dom(t, id, prefix, d.updates@);
}

/// Applying a non-empty run of groups binds exactly the addressed id on top
/// of the ids already there.
proof fn lemma_apply_groups_dom(
    t: FullView,
    id: Seq<char>,
    prefix: Seq<Seq<char>>,
    gs: Seq<crate::delta::V1UpdateType>,
)
    requires
        gs.len() > 0,
    ensures
        apply_groups(t, id, prefix, gs).0.vessels matches Some(m2) && m2.dom() == (match t.vessels {
            Some(m) => m.dom(),
            None => Set::<Seq<char>>::empty(),
        }).insert(id),
    decreases gs.len(),
{
    let (t1, e1) = apply_group(t, id, prefix, gs[0]);
    let base = match t.vessels {
        Some(m) => m.dom(),
        None => Set::<Seq<char>>::empty(),
    };
    assert(t1.vessels matches Some(m1) && m1.dom() =~= base.insert(id));
    if gs.len() > 1 {
        lemma_apply_groups_dom(t1, id, prefix, gs.drop_first());
        assert(apply_groups(t1, id, prefix, gs.drop_first()).0.vessels matches Some(m2)
            && m2.dom() =~= base.insert(id).insert(id));
        assert(base.insert(id).insert(id) =~= base.insert(id));
    } else {
        assert(gs.drop_first().len() == 0);
    }
}

/// A whole-entity merge of an object that only names the vessel's name sets
/// the name and leaves every other field, the MMSI among them, unchanged.
pub proof fn lemma_whole_entity_name(v: VesselView, k: String, s: String)
    requires
        k@ == "name"@,
    ensures
        shallow_fold(v, seq![(k, V1Value::Str(s))]) == (VesselView { name: Some(s), ..v }),
{
    let fields = seq![(k, V1Value::Str(s))];
    assert(fields.drop_first() =~= Seq::<(String, V1Value)>::empty());
    assert(shallow_fold(set_identity_field(v, k@, s), fields.drop_first())
        == set_identity_field(v, k@, s));
}

/// Position sub-fields accumulate within one batch: a latitude write followed
/// by a longitude write in the same batch yields one leaf holding both.
pub proof fn lemma_position_accumulates(
    p: Option<PositionTypeView>,
    lat: V1Num,
    lon: V1Num,
    src: Seq<char>,
    ts: Seq<char>,
)
    ensures
        ({
            let r1 = position_apply(p, seq!["latitude"@], V1Value::Num(lat), src, ts, false);
            &&& r1 matches MergeOutcome::Done((p1, t1)) && {
                let r2 = position_apply(p1, seq!["longitude"@], V1Value::Num(lon), src, ts, t1);
                &&& r2 matches MergeOutcome::Done((p2, _)) && (p2 matches Some(leaf)
                    && leaf.value.latitude == lat && leaf.value.longitude == lon)
            }
        }),
{
    reveal_strlit("latitude");
    reveal_strlit("longitude");
    assert("latitude"@.len() == 8);
    assert("longitude"@.len() == 9);
}

/// Records of one batch apply independently: when the first of two records
/// merges and the second is rejected, exactly the first is merged and the
/// second's error is reported.
pub proof fn lemma_partial_batch(
    v: VesselView,
    prefix: Seq<Seq<char>>,
    r1: V1UpdateValue,
    r2: V1UpdateValue,
    src: Seq<char>,
    ts: Seq<char>,
)
    ensures
        ({
            let a1 = vessel_apply(v, record_segs(prefix, r1.path@), r1.value, src, ts, false);
            a1 matches Ok((v1, t1)) ==> {
                let a2 = vessel_apply(v1, record_segs(prefix, r2.path@), r2.value, src, ts, t1);
                a2 matches Err(e) ==> apply_values(v, prefix, seq![r1, r2], src, ts, false) == (
                v1,
                seq![e],
                t1,
                )
            }
        }),
{
    let values = seq![r1, r2];
    assert(values[0] == r1);
    assert(values.drop_first() =~= seq![r2]);
    assert(values.drop_first()[0] == r2);
    assert(values.drop_first().drop_first() =~= Seq::<V1UpdateValue>::empty());
    let a1 = vessel_apply(v, record_segs(prefix, r1.path@), r1.value, src, ts, false);
    match a1 {
        Ok((v1, t1)) => {
            let a2 = vessel_apply(v1, record_segs(prefix, r2.path@), r2.value, src, ts, t1);
            match a2 {
                Err(e) => {
                    assert(seq![r2].drop_first() =~= Seq::<V1UpdateValue>::empty());
                    assert(apply_values(v1, prefix, Seq::<V1UpdateValue>::empty(), src, ts, t1)
                        == (v1, Seq::<V1MergeError>::empty(), t1));
                    assert(seq![e] + Seq::<V1MergeError>::empty() =~= seq![e]);
                    assert(apply_values(v1, prefix, seq![r2], src, ts, t1) == (v1, seq![e], t1));
                    assert(apply_values(v, prefix, seq![r1, r2], src, ts, false)
                        == apply_values(v1, prefix, seq![r2], src, ts, t1));
                },
                Ok(_) => {},
            }
        },
        Err(_) => {},
    }
}


/// Until a handshake designates a self vessel, a delta addressed to
/// `vessels.self` is dropped whole with `UnknownContext` and the tree is
/// untouched.
pub proof fn lemma_self_unresolved_drops_delta(t: FullView, d: V1DeltaFormat)
    requires
        t.self_ == Seq::<char>::empty(),
        d.context matches Some(c) && crate::path::split_path(c@).len() >= 2
            && crate::path::split_path(c@)[0] == "vessels"@ && crate::path::split_path(c@)[1]
            == "self"@,
    ensures
        apply_delta(t, d) == (t, seq![V1MergeError::UnknownContext]),
{
    assert(crate::path::split_path(Seq::<char>::empty()) =~= seq![Seq::<char>::empty()]);
    assert(crate::storage::resolve_self_id(t.self_) is None);
}


/// A vessel created by a path merge holds nothing but what the record
/// addressed: whatever the path, every identity field and every subsystem
/// the head segment does not name is still absent afterwards.
pub proof fn lemma_creation_is_local(
    segs: Seq<Seq<char>>,
    val: V1Value,
    src: Seq<char>,
    ts: Seq<char>,
)
    requires
        segs.len() >= 1,
        vessel_apply(VesselView::empty(), segs, val, src, ts, false) is Ok,
    ensures
        ({
            let v2 = vessel_apply(VesselView::empty(), segs, val, src, ts, false)->Ok_0.0;
            &&& v2.name is Some ==> segs == seq!["name"@]
            &&& v2.mmsi is Some ==> segs == seq!["mmsi"@]
            &&& v2.uuid is Some ==> segs == seq!["uuid"@]
            &&& v2.url is Some ==> segs == seq!["url"@]
            &&& v2.mothership_mmsi is Some ==> segs == seq!["mothershipMmsi"@]
            &&& v2.port is Some ==> segs == seq!["port"@]
            &&& v2.flag is Some ==> segs == seq!["flag"@]
            &&& v2.navigation is Some ==> segs[0] == "navigation"@
            &&& v2.propulsion is Some ==> segs[0] == "propulsion"@
            &&& v2.environment is Some ==> segs[0] == "environment"@
            &&& v2.electrical is Some ==> segs[0] == "electrical"@
            &&& v2.notifications is Some ==> segs[0] == "notifications"@
        }),
{
    if is_identity_field(segs[0]) && segs.len() == 1 {
        assert(segs =~= seq![segs[0]]);
    }
}


/// For a single-group delta that addresses a vessel id not yet in the tree,
/// the created entry is exactly the fold of the group's records over a fresh
/// vessel; together with `lemma_lazy_creation` and `lemma_creation_is_local`
/// this pins what lazy creation builds.
pub proof fn lemma_lazy_creation_content(
    t: FullView,
    d: V1DeltaFormat,
    id: Seq<char>,
    prefix: Seq<Seq<char>>,
)
    requires
        resolve_context(t.self_, d.context) == Ok::<(Seq<char>, Seq<Seq<char>>), V1MergeError>(
            (id, prefix),
        ),
        d.updates@.len() == 1,
        match t.vessels {
            Some(m) => !m.dom().contains(id),
            None => true,
        },
    ensures
        ({
            let g = d.updates@[0];
            apply_delta(t, d).0.vessels matches Some(m2) && m2[id] == apply_values(
                VesselView::empty(),
                prefix,
                g.values@,
                group_source_view(g.ref_source, g.source),
                group_timestamp_view(g.timestamp),
                false,
            ).0
        }),
{
    let g = d.updates@[0];
    let (t1, e1) = apply_group(t, id, prefix, g);
    assert(d.updates@.drop_first().len() == 0);
    assert(apply_groups(t1, id, prefix, d.updates@.drop_first()) == (
        t1,
        Seq::<V1MergeError>::empty(),
    ));
}

} // verus!
