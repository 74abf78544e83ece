//! Application-facing discovery types and the discovery manager.

use vstd::prelude::*;

use crate::avahi::AvahiProtocol;
use crate::errors::Error;

verus! {

/// The internet protocol a discovered service was seen on.
#[derive(Clone, Copy, Debug, PartialEq, Eq, Structural)]
pub enum ServiceProtocol {
    IPv4,
    IPv6,
    Unspecified,
}

impl ServiceProtocol {
    /// The numeric value used for this protocol at the daemon boundary.
    pub open spec fn code_spec(self) -> i32 {
        match self {
            ServiceProtocol::IPv4 => 0,
            ServiceProtocol::IPv6 => 1,
            ServiceProtocol::Unspecified => -1i32,
        }
    }

    #[verifier::when_used_as_spec(code_spec)]
    pub fn code(self) -> (c: i32)
        ensures
            c == self.code_spec(),
    {
        match self {
            ServiceProtocol::IPv4 => 0,
            ServiceProtocol::IPv6 => 1,
            ServiceProtocol::Unspecified => -1i32,
        }
    }
}

/// A service record.
///
/// Discovery emits partially populated records (no address, host name,
/// port or TXT data); resolution fills in the remaining fields.  The
/// record is a plain value with no identity beyond its fields.
#[derive(Clone, Debug, PartialEq)]
pub struct ServiceInfo {
    pub address: Option<String>,
    pub domain: Option<String>,
    pub host_name: Option<String>,
    pub interface: i32,
    pub name: Option<String>,
    pub port: u16,
    pub protocol: ServiceProtocol,
    pub service_type: Option<String>,
    pub txt: Option<String>,
}

impl ServiceInfo {
    /// Whether the record carries everything a resolve operation needs:
    /// the service name, the service type and the domain.
    pub open spec fn resolvable_spec(&self) -> bool {
        &&& self.name is Some
        &&& self.service_type is Some
        &&& self.domain is Some
    }

    #[verifier::when_used_as_spec(resolvable_spec)]
    pub fn resolvable(&self) -> (r: bool)
        ensures
            r == self.resolvable_spec(),
    {
        self.name.is_some() && self.service_type.is_some() && self.domain.is_some()
    }

    /// A field-for-field copy of the record.
    pub fn duplicate(&self) -> (r: ServiceInfo)
        ensures
            r == *self,
    {
        ServiceInfo {
            address: duplicate_option_string(&self.address),
            domain: duplicate_option_string(&self.domain),
            host_name: duplicate_option_string(&self.host_name),
            interface: self.interface,
            name: duplicate_option_string(&self.name),
            port: self.port,
            protocol: self.protocol,
            service_type: duplicate_option_string(&self.service_type),
            txt: duplicate_option_string(&self.txt),
        }
    }
}

/// A copy of an optional string, equal to the original.
pub fn duplicate_option_string(s: &Option<String>) -> (r: Option<String>)
    ensures
        r == *s,
{
    match s {
        Some(text) => Some(text.clone()),
        None => None,
    }
}

/// The daemon-boundary protocol value a service record carries.
pub open spec fn avahi_protocol_to_service_protocol_spec(protocol: AvahiProtocol) -> ServiceProtocol {
    match protocol {
        AvahiProtocol::Inet => ServiceProtocol::IPv4,
        AvahiProtocol::Inet6 => ServiceProtocol::IPv6,
        AvahiProtocol::Unspec => ServiceProtocol::Unspecified,
    }
}

/// Translates a protocol reported by the daemon into the
/// application-facing protocol.
pub fn avahi_protocol_to_service_protocol(protocol: AvahiProtocol) -> (p: ServiceProtocol)
    ensures
        p == avahi_protocol_to_service_protocol_spec(protocol),
{
    match protocol {
        AvahiProtocol::Inet => ServiceProtocol::IPv4,
        AvahiProtocol::Inet6 => ServiceProtocol::IPv6,
        AvahiProtocol::Unspec => ServiceProtocol::Unspecified,
    }
}

/// The application-facing protocol a daemon request must carry.
pub open spec fn service_protocol_to_avahi_protocol_spec(protocol: ServiceProtocol) -> AvahiProtocol {
    match protocol {
        ServiceProtocol::IPv4 => AvahiProtocol::Inet,
        ServiceProtocol::IPv6 => AvahiProtocol::Inet6,
        ServiceProtocol::Unspecified => AvahiProtocol::Unspec,
    }
}

/// Translates an application-facing protocol into the protocol value a
/// daemon request takes.
pub fn service_protocol_to_avahi_protocol(protocol: ServiceProtocol) -> (p: AvahiProtocol)
    ensures
        p == service_protocol_to_avahi_protocol_spec(protocol),
{
    match protocol {
        ServiceProtocol::IPv4 => AvahiProtocol::Inet,
        ServiceProtocol::IPv6 => AvahiProtocol::Inet6,
        ServiceProtocol::Unspecified => AvahiProtocol::Unspec,
    }
}

/// The two protocol translations invert each other.
pub proof fn lemma_protocol_translation_round_trip(a: AvahiProtocol, s: ServiceProtocol)
    ensures
        service_protocol_to_avahi_protocol_spec(avahi_protocol_to_service_protocol_spec(a)) == a,
        avahi_protocol_to_service_protocol_spec(service_protocol_to_avahi_protocol_spec(s)) == s,
{
}

/// The callbacks a discovery session notifies.
///
/// `on_service_discovered` runs once for each newly seen service;
/// `on_all_discovered` runs when the daemon reports that every service
/// known at this moment has been delivered.
pub struct DiscoveryListeners<'a, F: Fn(ServiceInfo), G: Fn()> {
    pub on_service_discovered: Option<&'a F>,
    pub on_all_discovered: Option<&'a G>,
}

/// The callback a resolve operation notifies with the fully populated
/// record.
pub struct ResolveListeners<'a, F: Fn(ServiceInfo)> {
    pub on_service_resolved: Option<&'a F>,
}

/// Whether a discovered-service callback accepts every record.
pub open spec fn accepts_any_service<F: Fn(ServiceInfo)>(f: Option<&F>) -> bool {
    match f {
        Some(callback) => forall|s: ServiceInfo| #[trigger] call_requires(*callback, (s,)),
        None => true,
    }
}

/// Whether a no-argument callback may be invoked.
pub open spec fn accepts_completion<G: Fn()>(g: Option<&G>) -> bool {
    match g {
        Some(callback) => call_requires(*callback, ()),
        None => true,
    }
}

/// The application-facing discovery manager.
pub struct DiscoveryManager {
    adapter: crate::fake::FakeAdapter,
}

impl DiscoveryManager {
    pub fn new() -> (manager: DiscoveryManager) {
        DiscoveryManager { adapter: crate::fake::FakeAdapter {  } }
    }

    /// Browses for services of the given type, notifying the listeners
    /// as events arrive; blocks until the browse ends.
    pub fn discover_services<F: Fn(ServiceInfo), G: Fn()>(
        &self,
        service_type: &str,
        listeners: DiscoveryListeners<'_, F, G>,
    ) -> (r: Result<(), Error>)
        requires
            accepts_any_service(listeners.on_service_discovered),
            accepts_completion(listeners.on_all_discovered),
        ensures
            r is Ok,
    {
        crate::adapter::DiscoveryAdapter::start_discovery(&self.adapter, service_type, listeners)
    }

    /// Resolves a discovered service to its address, port, host name
    /// and TXT data, notifying the listener with the fully populated
    /// record.  A record without a name, type or domain is rejected at
    /// once with `Error::Internal`, since the daemon query needs all
    /// three.
    pub fn resolve_service<F: Fn(ServiceInfo)>(
        &self,
        service: ServiceInfo,
        listeners: ResolveListeners<'_, F>,
    ) -> (r: Result<(), Error>)
        requires
            accepts_any_service(listeners.on_service_resolved),
        ensures
            r is Ok <==> service.resolvable_spec(),
            !service.resolvable_spec() ==> (r matches Err(e) && e is Internal),
    {
        crate::adapter::DiscoveryAdapter::resolve(&self.adapter, service, listeners)
    }

    /// Cancels the active browse, if one is running; a no-op
    /// otherwise.
    pub fn stop_service_discovery(&self) {
        crate::adapter::DiscoveryAdapter::stop_discovery(&self.adapter)
    }
}

impl Default for DiscoveryManager {
    fn default() -> (manager: DiscoveryManager) {
        DiscoveryManager::new()
    }
}

} // verus!
