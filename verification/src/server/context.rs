//! What a server is configured with.
use vstd::prelude::*;

use crate::server::config::ConfigToml;

verus! {

/// Server configuration loaded from file, KVS, wherever through the reloader service.
#[derive(Debug, PartialEq, Eq)]
pub struct ServerConfig {
    name: String,
    id: u32,
}

impl Clone for ServerConfig {
    fn clone(&self) -> (copy: Self)
        ensures
            copy == *self,
    {
        ServerConfig { name: self.name.clone(), id: self.id }
    }
}

/// What a configuration says.
pub struct ServerConfigModel {
    pub name: Seq<char>,
    pub id: u32,
}

impl View for ServerConfig {
    type V = ServerConfigModel;

    closed spec fn view(&self) -> ServerConfigModel {
        ServerConfigModel { name: self.name@, id: self.id }
    }
}

impl ServerConfig {
    /// The configuration with this name and this id.
    pub closed spec fn of(name: String, id: u32) -> ServerConfig {
        ServerConfig { name, id }
    }

    /// What a configuration made from its parts says.
    pub proof fn says_its_parts(name: String, id: u32)
        ensures
            ServerConfig::of(name, id)@ == (ServerConfigModel { name: name@, id }),
    {
    }

    /// Make a configuration from its parts.
    pub fn new(name: String, id: u32) -> (config: Self)
        ensures
            config == ServerConfig::of(name, id),
            config@ == (ServerConfigModel { name: name@, id }),
    {
        ServerConfig { name, id }
    }

    /// The name of the server.
    pub fn name(&self) -> (name: String)
        ensures
            name@ == self@.name,
    {
        self.name.clone()
    }

    /// The id of the server.
    pub fn id(&self) -> (id: u32)
        ensures
            id == self@.id,
    {
        self.id
    }
}

impl From<ConfigToml> for ServerConfig {
    fn from(val: ConfigToml) -> (config: Self) {
        ServerConfig { name: val.name, id: val.id }
    }
}

impl vstd::std_specs::convert::FromSpecImpl<ConfigToml> for ServerConfig {
    open spec fn obeys_from_spec() -> bool {
        true
    }

    open spec fn from_spec(val: ConfigToml) -> ServerConfig {
        ServerConfig::of(val.name, val.id)
    }
}

} // verus!
