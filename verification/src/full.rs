use vstd::prelude::*;

use crate::delta::V1UpdateType;
use crate::path::split_dots;
use crate::path::split_path;
use crate::sources::V1Sources;
use crate::strmap::StrMap;
use crate::strmap::str_eq;
use crate::vessel::V1Vessel;
use crate::vessel::VesselView;

verus! {

/// Everything a vessel in the tree can do for the session layer: merge one
/// update group into itself and describe itself.
pub trait Updateable {
    fn apply_update(&mut self, update: V1UpdateType);

    fn id(&self) -> String;

    fn type_label(&self) -> String;
}

/// Lookup of the entity a context string addresses.
pub trait GetContext {
    fn get_context<'a>(&'a self, context: &str) -> Option<&'a V1Vessel>;
}

/// The canonical tree: schema version, the designated self context, the known
/// vessels, and the data-source descriptors.
#[derive(Debug)]
pub struct V1FullFormat {
    pub version: String,
    pub self_: String,
    pub vessels: Option<StrMap<V1Vessel>>,
    pub sources: Option<V1Sources>,
}

/// Mathematical model of the whole tree.
#[verifier::ext_equal]
pub struct FullView {
    pub version: Seq<char>,
    pub self_: Seq<char>,
    pub vessels: Option<Map<Seq<char>, VesselView>>,
    pub sources: Option<V1Sources>,
}

impl View for V1FullFormat {
    type V = FullView;

    open spec fn view(&self) -> FullView {
        FullView {
            version: self.version@,
            self_: self.self_@,
            vessels: match self.vessels {
                Some(m) => Some(m@.map_values(|v: V1Vessel| v@)),
                None => None,
            },
            sources: self.sources,
        }
    }
}

impl Default for V1FullFormat {
    fn default() -> (r: Self)
        ensures
            r@ == (FullView {
                version: "1.7.0"@,
                self_: Seq::<char>::empty(),
                vessels: None,
                sources: None,
            }),
    {
        let r = V1FullFormat {
            version: String::from_str("1.7.0"),
            self_: String::new(),
            vessels: None,
            sources: None,
        };
        proof {
            assert(r@ =~= (FullView {
                version: "1.7.0"@,
                self_: Seq::<char>::empty(),
                vessels: None,
                sources: None,
            }));
        }
        r
    }
}

impl V1FullFormat {
    pub fn builder() -> (r: V1FullFormatBuilder)
        ensures
            r.version@ == "1.7.0"@,
            r.self_@ == Seq::<char>::empty(),
            r.vessels is None,
            r.sources is None,
    {
        V1FullFormatBuilder {
            version: String::from_str("1.7.0"),
            self_: String::new(),
            vessels: None,
            sources: None,
        }
    }

    /// The vessel a context of the shape `vessels.<id>` addresses, if that
    /// vessel is in the tree.
    pub fn lookup_context<'a>(&'a self, context: &str) -> (r: Option<&'a V1Vessel>)
        ensures
            ({
                let segs = split_path(context@);
                match r {
                    Some(v) => segs.len() >= 2 && segs[0] == "vessels"@ && (self@.vessels matches
                        Some(m) && m.dom().contains(segs[1]) && v@ == m[segs[1]]),
                    None => !(segs.len() >= 2 && segs[0] == "vessels"@ && (self@.vessels matches
                        Some(m) && m.dom().contains(segs[1]))),
                }
            }),
    {
        let segs = split_dots(context);
        if segs.len() >= 2 && str_eq(segs[0].as_str(), "vessels") {
            match &self.vessels {
                Some(m) => {
                    let r = m.get(segs[1].as_str());
                    proof {
                        let sv = split_path(context@);
                        assert(segs@.map_values(|x: String| x@)[0] == sv[0]);
                        assert(segs@.map_values(|x: String| x@)[1] == sv[1]);
                        let mv = m@.map_values(|v: V1Vessel| v@);
                        assert(mv.dom() =~= m@.dom());
                        if m@.dom().contains(sv[1]) {
                            assert(mv[sv[1]] == m@[sv[1]]@);
                        }
                    }
                    r
                },
                None => None,
            }
        } else {
            proof {
                let sv = split_path(context@);
                if segs.len() >= 2 {
                    assert(segs@.map_values(|x: String| x@)[0] == sv[0]);
                }
            }
            None
        }
    }
}

impl GetContext for V1FullFormat {
    /// The same lookup as [`V1FullFormat::lookup_context`], under the trait.
    fn get_context<'a>(&'a self, context: &str) -> (r: Option<&'a V1Vessel>)
        ensures
            ({
                let segs = split_path(context@);
                match r {
                    Some(v) => segs.len() >= 2 && segs[0] == "vessels"@ && (self@.vessels matches
                        Some(m) && m.dom().contains(segs[1]) && v@ == m[segs[1]]),
                    None => !(segs.len() >= 2 && segs[0] == "vessels"@ && (self@.vessels matches
                        Some(m) && m.dom().contains(segs[1]))),
                }
            }),
    {
        self.lookup_context(context)
    }
}

pub struct V1FullFormatBuilder {
    pub version: String,
    pub self_: String,
    pub vessels: Option<StrMap<V1Vessel>>,
    pub sources: Option<V1Sources>,
}

impl V1FullFormatBuilder {
    pub fn version(self, version: String) -> (r: V1FullFormatBuilder)
        ensures
            r.version == version,
            r.self_ == self.self_,
            r.vessels == self.vessels,
            r.sources == self.sources,
    {
        V1FullFormatBuilder {
            version,
            self_: self.self_,
            vessels: self.vessels,
            sources: self.sources,
        }
    }

    pub fn self_(self, self_: String) -> (r: V1FullFormatBuilder)
        ensures
            r.version == self.version,
            r.self_ == self_,
            r.vessels == self.vessels,
            r.sources == self.sources,
    {
        V1FullFormatBuilder {
            version: self.version,
            self_,
            vessels: self.vessels,
            sources: self.sources,
        }
    }

    pub fn add_vessel(self, key: String, vessel: V1Vessel) -> (r: V1FullFormatBuilder)
        ensures
            r.vessels matches Some(m) && m@ == (match self.vessels {
                Some(old_m) => old_m@,
                None => Map::<Seq<char>, V1Vessel>::empty(),
            }).insert(key@, vessel),
            r.version == self.version,
            r.self_ == self.self_,
            r.sources == self.sources,
    {
        let V1FullFormatBuilder { version, self_, vessels, sources } = self;
        let mut m = match vessels {
            Some(m) => m,
            None => StrMap::new(),
        };
        m.insert(key, vessel);
        V1FullFormatBuilder { version, self_, vessels: Some(m), sources }
    }

    pub fn sources(self, sources: V1Sources) -> (r: V1FullFormatBuilder)
        ensures
            r.version == self.version,
            r.self_ == self.self_,
            r.vessels == self.vessels,
            r.sources == Some(sources),
    {
        V1FullFormatBuilder {
            version: self.version,
            self_: self.self_,
            vessels: self.vessels,
            sources: Some(sources),
        }
    }

    pub fn build(self) -> (r: V1FullFormat)
        ensures
            r == (V1FullFormat {
                version: self.version,
                self_: self.self_,
                vessels: self.vessels,
                sources: self.sources,
            }),
    {
        V1FullFormat {
            version: self.version,
            self_: self.self_,
            vessels: self.vessels,
            sources: self.sources,
        }
    }
}

} // verus!
