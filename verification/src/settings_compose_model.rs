//! The compose overlay that carries the user's settings into a compose
//! stack: a compose document with one service in it.

use vstd::prelude::*;
use vstd::string::*;
use crate::string_map::{Entries, TextMap};

verus! {

/// What the overlay adds to one service.
#[derive(Debug)]
pub struct Service {
    pub volumes: Option<Vec<String>>,
    pub ports: Option<Vec<String>>,
    pub environment: Option<TextMap>,
}

/// A compose document: its schema version and its services by name.
#[derive(Debug)]
pub struct SettingsComposeModel {
    pub version: String,
    pub services: Vec<(String, Service)>,
}

/// `Service` over texts.
pub struct ServiceView {
    pub volumes: Option<Seq<Seq<char>>>,
    pub ports: Option<Seq<Seq<char>>>,
    pub environment: Option<Entries>,
}

/// `SettingsComposeModel` over texts.
pub struct SettingsComposeModelView {
    pub version: Seq<char>,
    pub services: Seq<(Seq<char>, ServiceView)>,
}

impl View for Service {
    type V = ServiceView;

    open spec fn view(&self) -> ServiceView {
        ServiceView {
            volumes: self.volumes.deep_view(),
            ports: self.ports.deep_view(),
            environment: self.environment.deep_view(),
        }
    }
}

impl DeepView for Service {
    type V = ServiceView;

    open spec fn deep_view(&self) -> ServiceView {
        self@
    }
}

impl View for SettingsComposeModel {
    type V = SettingsComposeModelView;

    open spec fn view(&self) -> SettingsComposeModelView {
        SettingsComposeModelView { version: self.version@, services: self.services.deep_view() }
    }
}

impl DeepView for SettingsComposeModel {
    type V = SettingsComposeModelView;

    open spec fn deep_view(&self) -> SettingsComposeModelView {
        self@
    }
}

impl Default for Service {
    fn default() -> (service: Service)
        ensures
            service@ == (ServiceView { volumes: None, ports: None, environment: None }),
    {
        Service { volumes: None, ports: None, environment: None }
    }
}

impl Default for SettingsComposeModel {
    fn default() -> (model: SettingsComposeModel)
        ensures
            model@ == (SettingsComposeModelView {
                version: Seq::<char>::empty(),
                services: Seq::<(Seq<char>, ServiceView)>::empty(),
            }),
    {
        let services: Vec<(String, Service)> = Vec::new();
        assert(services.deep_view() =~= Seq::<(Seq<char>, ServiceView)>::empty());
        SettingsComposeModel { version: String::new(), services }
    }
}

} // verus!
