use vstd::prelude::*;

use crate::full::FullView;
use crate::sources::V1Sources;
use crate::strmap::StrMap;
use crate::vessel::V1Vessel;
use crate::vessel::VesselView;

verus! {

/// The flat ancestor of [`crate::V1FullFormat`]: the same canonical tree,
/// kept for callers of the older module layout.
#[derive(Debug)]
pub struct V1RootFormat {
    pub version: String,
    pub self_: String,
    pub vessels: Option<StrMap<V1Vessel>>,
    pub sources: Option<V1Sources>,
}

impl View for V1RootFormat {
    type V = FullView;

    open spec fn view(&self) -> FullView {
        FullView {
            version: self.version@,
            self_: self.self_@,
            vessels: match self.vessels {
                Some(m) => Some(m@.map_values(|v: V1Vessel| v@)),
                None => None,
            },
            sources: self.sources,
        }
    }
}

impl Default for V1RootFormat {
    fn default() -> (r: Self)
        ensures
            r@ == (FullView {
                version: Seq::<char>::empty(),
                self_: Seq::<char>::empty(),
                vessels: None,
                sources: None,
            }),
    {
        let r = V1RootFormat {
            version: String::new(),
            self_: String::new(),
            vessels: None,
            sources: None,
        };
        proof {
            assert(r@ =~= (FullView {
                version: Seq::<char>::empty(),
                self_: Seq::<char>::empty(),
                vessels: None,
                sources: None,
            }));
        }
        r
    }
}

impl V1RootFormat {
    pub fn builder() -> (r: V1RootFormatBuilder)
        ensures
            r.version@ == "1.7.0"@,
            r.self_@ == Seq::<char>::empty(),
            r.vessels is None,
            r.sources is None,
    {
        V1RootFormatBuilder {
            version: String::from_str("1.7.0"),
            self_: String::new(),
            vessels: None,
            sources: None,
        }
    }
}

pub struct V1RootFormatBuilder {
    pub version: String,
    pub self_: String,
    pub vessels: Option<StrMap<V1Vessel>>,
    pub sources: Option<V1Sources>,
}

impl V1RootFormatBuilder {
    pub fn version(self, version: String) -> (r: V1RootFormatBuilder)
        ensures
            r.version == version,
            r.self_ == self.self_,
            r.vessels == self.vessels,
            r.sources == self.sources,
    {
        V1RootFormatBuilder {
            version,
            self_: self.self_,
            vessels: self.vessels,
            sources: self.sources,
        }
    }

    pub fn self_(self, self_: String) -> (r: V1RootFormatBuilder)
        ensures
            r.version == self.version,
            r.self_ == self_,
            r.vessels == self.vessels,
            r.sources == self.sources,
    {
        V1RootFormatBuilder {
            version: self.version,
            self_,
            vessels: self.vessels,
            sources: self.sources,
        }
    }

    pub fn add_vessel(self, key: String, vessel: V1Vessel) -> (r: V1RootFormatBuilder)
        ensures
            r.vessels matches Some(m) && m@ == (match self.vessels {
                Some(old_m) => old_m@,
                None => Map::<Seq<char>, V1Vessel>::empty(),
            }).insert(key@, vessel),
            r.version == self.version,
            r.self_ == self.self_,
            r.sources == self.sources,
    {
        let V1RootFormatBuilder { version, self_, vessels, sources } = self;
        let mut m = match vessels {
            Some(m) => m,
            None => StrMap::new(),
        };
        m.insert(key, vessel);
        V1RootFormatBuilder { version, self_, vessels: Some(m), sources }
    }

    pub fn sources(self, sources: V1Sources) -> (r: V1RootFormatBuilder)
        ensures
            r.version == self.version,
            r.self_ == self.self_,
            r.vessels == self.vessels,
            r.sources == Some(sources),
    {
        V1RootFormatBuilder {
            version: self.version,
            self_: self.self_,
            vessels: self.vessels,
            sources: Some(sources),
        }
    }

    pub fn build(self) -> (r: V1RootFormat)
        ensures
            r == (V1RootFormat {
                version: self.version,
                self_: self.self_,
                vessels: self.vessels,
                sources: self.sources,
            }),
    {
        V1RootFormat {
            version: self.version,
            self_: self.self_,
            vessels: self.vessels,
            sources: self.sources,
        }
    }
}

} // verus!
