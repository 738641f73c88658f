//! Log emitter configuration: the resource it stamps on its records and
//! the level filter it consults.

use vstd::prelude::*;

use crate::record::Resource;
use crate::severity::Severity;

verus! {

/// Interface for checking whether a log level is enabled; hosts implement
/// it to filter records before they are built at all.
pub trait EventEnabled: Sized {
    /// Whether an event with this name and severity should be produced.
    fn is_enabled(&self, name: &str, level: Severity) -> bool;
}

/// The default filter: every level of every event is enabled.
#[derive(Clone, Copy, Debug, PartialEq, Eq, Structural)]
pub struct DefaultEventEnabled;

impl EventEnabled for DefaultEventEnabled {
    fn is_enabled(&self, _name: &str, _level: Severity) -> (r: bool)
        ensures
            r == true,
    {
        true
    }
}

/// Log emitter configuration.
#[derive(Debug)]
pub struct Config<F: EventEnabled> {
    /// Attributes representing the entity that produces the telemetry.
    pub resource: Resource,
    /// The filter consulted before an event is produced.
    pub event_enabled: F,
}

impl<F: EventEnabled> Config<F> {
    /// Specify the attributes representing the entity that produces
    /// telemetry.
    pub fn with_resource(self, resource: Resource) -> (r: Self)
        ensures
            r.resource@ == resource@,
            r.event_enabled == self.event_enabled,
    {
        let ghost v = resource@;
        let r = Config { resource, ..self };
        proof {
            assert(r.resource@ == v);
        }
        r
    }
}

impl Default for Config<DefaultEventEnabled> {
    /// The default configuration: an empty resource and every event
    /// enabled.
    fn default() -> (r: Config<DefaultEventEnabled>)
        ensures
            r.resource@.attributes.len() == 0,
            r.resource@.schema_url is None,
            r.event_enabled == DefaultEventEnabled,
    {
        Config { resource: Resource::empty(), event_enabled: DefaultEventEnabled }
    }
}

} // verus!
