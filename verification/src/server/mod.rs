//! A server whose configuration is reloaded while it runs.
use vstd::prelude::*;

use crate::server::config::ConfigToml;
use crate::server::context::{ServerConfig, ServerConfigModel};

pub mod config;
pub mod context;
pub mod log;

verus! {

/// Why the main service of a server ended.
#[derive(Debug)]
pub enum ServerLibError {
    /// Any failure, with its message.
    Other(String),
}

impl ServerLibError {
    /// The text of the error.
    pub fn message(&self) -> (text: String)
        ensures
            text@ == self->Other_0@,
    {
        match self {
            ServerLibError::Other(message) => message.clone(),
        }
    }
}

/// What the event loop of the main service is woken by.
#[derive(Debug)]
pub enum MainEvent<V> {
    /// The service has something to do with the value that it has.
    Something,
    /// The value changed to this one.
    Changed(Option<V>),
    /// There is nothing left to wait for.
    Exhausted,
}

/// The main service of a server: the value that it works with.
#[derive(Debug)]
pub struct Server<V> {
    /// The up-to-date value, once there is one.
    pub value: Option<V>,
}

/// `config` is what a value like `value` may turn into.
pub open spec fn turned_into<V: Clone + Into<ServerConfig>>(value: V, config: ServerConfig) -> bool {
    exists|copy: V|
        #![trigger cloned(value, copy)]
        cloned(value, copy) && call_ensures(<V as Into<ServerConfig>>::into, (copy,), config)
}

impl<V: Clone + Into<ServerConfig>> Server<V> {
    /// A service that has no value yet.
    pub fn new() -> (server: Self)
        ensures
            server.value is None,
    {
        Server { value: None }
    }

    /// Takes an event in. A new value replaces the one that the service has,
    /// and is handed out as a configuration; the loss of it is an error.
    pub fn main_service(&mut self, event: MainEvent<V>) -> (outcome: Result<
        Option<ServerConfig>,
        ServerLibError,
    >)
        ensures
            match event {
                MainEvent::Something => {
                    &&& outcome == Ok::<Option<ServerConfig>, ServerLibError>(None)
                    &&& final(self).value == old(self).value
                },
                MainEvent::Changed(Some(value)) => {
                    &&& outcome matches Ok(Some(config))
                    &&& turned_into(value, config)
                    &&& final(self).value == Some(value)
                },
                MainEvent::Changed(None) => {
                    &&& outcome matches Err(ServerLibError::Other(message))
                    &&& message@ == "None value"@
                    &&& final(self).value == old(self).value
                },
                MainEvent::Exhausted => {
                    &&& outcome matches Err(ServerLibError::Other(message))
                    &&& message@ == "tokio::secect! else"@
                    &&& final(self).value == old(self).value
                },
            },
    {
        match event {
            MainEvent::Something => Ok(None),
            MainEvent::Changed(Some(value)) => {
                let copy = value.clone();
                let config: ServerConfig = copy.into();
                assert(cloned(value, copy));
                self.value = Some(value);
                Ok(Some(config))
            },
            MainEvent::Changed(None) => Err(ServerLibError::Other("None value".to_owned())),
            MainEvent::Exhausted => Err(ServerLibError::Other("tokio::secect! else".to_owned())),
        }
    }
}

/// A configuration that was loaded reaches the server as it is.
pub proof fn a_loaded_config_is_served(value: ConfigToml, config: ServerConfig)
    requires
        turned_into(value, config),
    ensures
        config@ == (ServerConfigModel { name: value.name@, id: value.id }),
{
    ServerConfig::says_its_parts(value.name, value.id);
}

} // verus!
