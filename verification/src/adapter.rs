//! The interface a platform's discovery/naming backend implements.
//!
//! The managers talk to the daemon through these traits, so a platform
//! without a reachable daemon can stand in a substitute backend.

use vstd::prelude::*;

use crate::discovery::DiscoveryListeners;
use crate::discovery::ResolveListeners;
use crate::discovery::ServiceInfo;
use crate::discovery::accepts_any_service;
use crate::discovery::accepts_completion;
use crate::errors::Error;

verus! {

/// Service discovery: browse, resolve, cancel.
pub trait DiscoveryAdapter {
    /// Browses for services of the given type, notifying the listeners
    /// as the daemon reports events; blocks until the browse ends.
    fn start_discovery<F: Fn(ServiceInfo), G: Fn()>(
        &self,
        service_type: &str,
        listeners: DiscoveryListeners<'_, F, G>,
    ) -> Result<(), Error>
        requires
            accepts_any_service(listeners.on_service_discovered),
            accepts_completion(listeners.on_all_discovered),
    ;

    /// Resolves a partially known service to its address, port, host
    /// name and TXT data; blocks for the single resolve event and
    /// notifies the listener on success.
    fn resolve<F: Fn(ServiceInfo)>(
        &self,
        service: ServiceInfo,
        listeners: ResolveListeners<'_, F>,
    ) -> Result<(), Error>
        requires
            accepts_any_service(listeners.on_service_resolved),
    ;

    /// Cancels the active browse, if one is running; a no-op otherwise.
    fn stop_discovery(&self);
}

/// Host-name management: query, validate, set, alias.
pub trait HostAdapter {
    /// The machine's current advertised host name.
    fn get_name(&self) -> Result<String, Error>;

    /// The machine's current fully-qualified host name.
    fn get_name_fqdn(&self) -> Result<String, Error>;

    /// Requests a new host name and reports the name that was finally
    /// accepted, which may differ when the daemon resolves a collision.
    fn set_name(&self, host_name: &str) -> Result<String, Error>;

    /// Whether the daemon's validator accepts the name's syntax.
    fn is_valid_name(&self, host_name: &str) -> Result<bool, Error>;

    /// A collision-free alternative for a taken name.
    fn get_alternative_name(&self, host_name: &str) -> Result<String, Error>;

    /// Publishes the given name as an alias of the current host name.
    fn add_name_alias(&self, host_name: &str) -> Result<(), Error>;

    /// Advertises a service of the given name, type and port.
    fn announce_service(&self, service_name: &str, service_type: &str, port: u16) -> Result<
        (),
        Error,
    >;
}

/// A complete platform backend.
pub trait Adapter: DiscoveryAdapter + HostAdapter {
    fn new() -> Self where Self: Sized;
}

} // verus!
