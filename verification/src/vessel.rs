use vstd::prelude::*;

use crate::electrical::ElectricalView;
use crate::electrical::V1Electrical;
use crate::environment::EnvironmentView;
use crate::environment::V1Environment;
use crate::navigation::NavigationView;
use crate::navigation::V1Navigation;
use crate::navigation::opt_view;
use crate::notification::NotificationView;
use crate::notification::V1Notification;
use crate::propulsion::PropulsionView;
use crate::propulsion::V1Propulsion;
use crate::strmap::StrMap;
use crate::value::V1Value;

verus! {

/// One vessel: identity fields and its subsystem subtrees, every one of them
/// absent until a merge first addresses it.  `extras` is the open extension
/// bag: a leaf path that no schema field matches is kept there verbatim, so
/// unknown-but-plausible fields survive a round through this tree.
#[derive(Debug)]
pub struct V1Vessel {
    pub mmsi: Option<String>,
    pub url: Option<String>,
    pub uuid: Option<String>,
    pub mothership_mmsi: Option<String>,
    pub name: Option<String>,
    pub port: Option<String>,
    pub flag: Option<String>,
    pub navigation: Option<V1Navigation>,
    pub environment: Option<V1Environment>,
    pub electrical: Option<V1Electrical>,
    pub notifications: Option<V1Notification>,
    pub propulsion: Option<StrMap<V1Propulsion>>,
    pub extras: StrMap<V1Value>,
}

/// Mathematical model of one vessel.
#[verifier::ext_equal]
pub struct VesselView {
    pub mmsi: Option<String>,
    pub url: Option<String>,
    pub uuid: Option<String>,
    pub mothership_mmsi: Option<String>,
    pub name: Option<String>,
    pub port: Option<String>,
    pub flag: Option<String>,
    pub navigation: Option<NavigationView>,
    pub environment: Option<EnvironmentView>,
    pub electrical: Option<ElectricalView>,
    pub notifications: Option<NotificationView>,
    pub propulsion: Option<Map<Seq<char>, PropulsionView>>,
    pub extras: Map<Seq<char>, V1Value>,
}

impl View for V1Vessel {
    type V = VesselView;

    open spec fn view(&self) -> VesselView {
        VesselView {
            mmsi: self.mmsi,
            url: self.url,
            uuid: self.uuid,
            mothership_mmsi: self.mothership_mmsi,
            name: self.name,
            port: self.port,
            flag: self.flag,
            navigation: opt_view(self.navigation),
            environment: opt_view(self.environment),
            electrical: opt_view(self.electrical),
            notifications: opt_view(self.notifications),
            propulsion: match self.propulsion {
                Some(m) => Some(m@.map_values(|p: V1Propulsion| p@)),
                None => None,
            },
            extras: self.extras@,
        }
    }
}

impl VesselView {
    /// The model of a vessel that exists but has had nothing merged.
    pub open spec fn empty() -> VesselView {
        VesselView {
            mmsi: None,
            url: None,
            uuid: None,
            mothership_mmsi: None,
            name: None,
            port: None,
            flag: None,
            navigation: None,
            environment: None,
            electrical: None,
            notifications: None,
            propulsion: None,
            extras: Map::empty(),
        }
    }
}

impl Default for V1Vessel {
    fn default() -> (r: Self)
        ensures
            r@ == VesselView::empty(),
    {
        let r = V1Vessel {
            mmsi: None,
            url: None,
            uuid: None,
            mothership_mmsi: None,
            name: None,
            port: None,
            flag: None,
            navigation: None,
            environment: None,
            electrical: None,
            notifications: None,
            propulsion: None,
            extras: StrMap::new(),
        };
        proof {
            assert(r@ =~= VesselView::empty());
        }
        r
    }
}

impl V1Vessel {
    pub fn builder() -> (r: V1VesselBuilder)
        ensures
            r.mmsi is None,
            r.url is None,
            r.uuid is None,
            r.mothership_mmsi is None,
            r.name is None,
            r.flag is None,
            r.port is None,
            r.navigation is None,
            r.environment is None,
            r.electrical is None,
            r.notifications is None,
            r.propulsion is None,
    {
        V1VesselBuilder {
            mmsi: None,
            url: None,
            uuid: None,
            mothership_mmsi: None,
            name: None,
            flag: None,
            port: None,
            navigation: None,
            environment: None,
            electrical: None,
            notifications: None,
            propulsion: None,
        }
    }

    /// The identifier of this vessel: its MMSI when known, else its UUID,
    /// else the empty string.
    pub fn id(&self) -> (r: String)
        ensures
            r@ == (match self.mmsi {
                Some(m) => m@,
                None => match self.uuid {
                    Some(u) => u@,
                    None => Seq::<char>::empty(),
                },
            }),
    {
        match &self.mmsi {
            Some(m) => m.clone(),
            None => match &self.uuid {
                Some(u) => u.clone(),
                None => String::new(),
            },
        }
    }

    /// The schema name of this entity kind.
    pub fn type_label(&self) -> (r: String)
        ensures
            r@ == "V1Vessel"@,
    {
        String::from_str("V1Vessel")
    }
}

pub struct V1VesselBuilder {
    pub mmsi: Option<String>,
    pub url: Option<String>,
    pub uuid: Option<String>,
    pub mothership_mmsi: Option<String>,
    pub name: Option<String>,
    pub flag: Option<String>,
    pub port: Option<String>,
    pub navigation: Option<V1Navigation>,
    pub environment: Option<V1Environment>,
    pub electrical: Option<V1Electrical>,
    pub notifications: Option<V1Notification>,
    pub propulsion: Option<StrMap<V1Propulsion>>,
}

impl V1VesselBuilder {
    pub fn uuid(self, value: String) -> (r: V1VesselBuilder)
        ensures
            r == (V1VesselBuilder { uuid: Some(value), ..self }),
    {
        V1VesselBuilder { uuid: Some(value), ..self }
    }

    pub fn url(self, value: String) -> (r: V1VesselBuilder)
        ensures
            r == (V1VesselBuilder { url: Some(value), ..self }),
    {
        V1VesselBuilder { url: Some(value), ..self }
    }

    pub fn mmsi(self, value: String) -> (r: V1VesselBuilder)
        ensures
            r == (V1VesselBuilder { mmsi: Some(value), ..self }),
    {
        V1VesselBuilder { mmsi: Some(value), ..self }
    }

    pub fn mothership_mmsi(self, value: String) -> (r: V1VesselBuilder)
        ensures
            r == (V1VesselBuilder { mothership_mmsi: Some(value), ..self }),
    {
        V1VesselBuilder { mothership_mmsi: Some(value), ..self }
    }

    pub fn name(self, value: String) -> (r: V1VesselBuilder)
        ensures
            r == (V1VesselBuilder { name: Some(value), ..self }),
    {
        V1VesselBuilder { name: Some(value), ..self }
    }

    pub fn port(self, value: String) -> (r: V1VesselBuilder)
        ensures
            r == (V1VesselBuilder { port: Some(value), ..self }),
    {
        V1VesselBuilder { port: Some(value), ..self }
    }

    pub fn flag(self, value: String) -> (r: V1VesselBuilder)
        ensures
            r == (V1VesselBuilder { flag: Some(value), ..self }),
    {
        V1VesselBuilder { flag: Some(value), ..self }
    }

    pub fn navigation(self, value: V1Navigation) -> (r: V1VesselBuilder)
        ensures
            r == (V1VesselBuilder { navigation: Some(value), ..self }),
    {
        V1VesselBuilder { navigation: Some(value), ..self }
    }

    pub fn electrical(self, value: V1Electrical) -> (r: V1VesselBuilder)
        ensures
            r == (V1VesselBuilder { electrical: Some(value), ..self }),
    {
        V1VesselBuilder { electrical: Some(value), ..self }
    }

    pub fn environment(self, value: V1Environment) -> (r: V1VesselBuilder)
        ensures
            r == (V1VesselBuilder { environment: Some(value), ..self }),
    {
        V1VesselBuilder { environment: Some(value), ..self }
    }

    pub fn notifications(self, value: V1Notification) -> (r: V1VesselBuilder)
        ensures
            r == (V1VesselBuilder { notifications: Some(value), ..self }),
    {
        V1VesselBuilder { notifications: Some(value), ..self }
    }

    pub fn add_propulsion(self, key: String, value: V1Propulsion) -> (r: V1VesselBuilder)
        ensures
            r.propulsion matches Some(m) && m@ == (match self.propulsion {
                Some(old_m) => old_m@,
                None => Map::<Seq<char>, V1Propulsion>::empty(),
            }).insert(key@, value),
            r.mmsi == self.mmsi,
            r.url == self.url,
            r.uuid == self.uuid,
            r.mothership_mmsi == self.mothership_mmsi,
            r.name == self.name,
            r.flag == self.flag,
            r.port == self.port,
            r.navigation == self.navigation,
            r.environment == self.environment,
            r.electrical == self.electrical,
            r.notifications == self.notifications,
    {
        let V1VesselBuilder {
            mmsi,
            url,
            uuid,
            mothership_mmsi,
            name,
            flag,
            port,
            navigation,
            environment,
            electrical,
            notifications,
            propulsion,
        } = self;
        let mut m = match propulsion {
            Some(m) => m,
            None => StrMap::new(),
        };
        m.insert(key, value);
        V1VesselBuilder {
            mmsi,
            url,
            uuid,
            mothership_mmsi,
            name,
            flag,
            port,
            navigation,
            environment,
            electrical,
            notifications,
            propulsion: Some(m),
        }
    }

    pub fn build(self) -> (r: V1Vessel)
        ensures
            r.mmsi == self.mmsi,
            r.url == self.url,
            r.uuid == self.uuid,
            r.mothership_mmsi == self.mothership_mmsi,
            r.name == self.name,
            r.port == self.port,
            r.flag == self.flag,
            r.navigation == self.navigation,
            r.environment == self.environment,
            r.electrical == self.electrical,
            r.notifications == self.notifications,
            r.propulsion == self.propulsion,
            r.extras@ == Map::<Seq<char>, V1Value>::empty(),
    {
        V1Vessel {
            uuid: self.uuid,
            mmsi: self.mmsi,
            name: self.name,
            port: self.port,
            flag: self.flag,
            navigation: self.navigation,
            environment: self.environment,
            electrical: self.electrical,
            notifications: self.notifications,
            propulsion: self.propulsion,
            url: self.url,
            mothership_mmsi: self.mothership_mmsi,
            extras: StrMap::new(),
        }
    }
}

} // verus!
