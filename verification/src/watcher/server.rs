//! The event loop of the demonstration.
use std::sync::Arc;

use vstd::prelude::*;

verus! {

/// What the event loop is woken by.
pub enum ServerEvent<V> {
    /// The watched value changed to this one.
    Changed(Option<Arc<V>>),
    /// There is nothing left to wait for.
    Exhausted,
}

/// The state of the event loop: the value that it works with.
#[verifier::reject_recursive_types(V)]
pub struct Server<V> {
    /// The up-to-date value.
    pub value: Option<Arc<V>>,
}

impl<V> Server<V> {
    /// An event loop that has no value yet.
    pub fn new() -> (server: Self)
        ensures
            server.value is None,
    {
        Server { value: None }
    }

    /// Takes an event in; `false` ends the loop.
    pub fn entrypoint(&mut self, event: ServerEvent<V>) -> (proceed: bool)
        ensures
            match event {
                ServerEvent::Changed(Some(value)) => proceed && final(self).value == Some(value),
                _ => !proceed && final(self).value == old(self).value,
            },
    {
        match event {
            ServerEvent::Changed(Some(value)) => {
                self.value = Some(value);
                true
            },
            _ => false,
        }
    }
}

} // verus!
