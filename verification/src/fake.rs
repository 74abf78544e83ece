//! The substitute backend for platforms without a reachable daemon.
//!
//! It answers every operation locally with fixed values, feeding the
//! same transports, callback bodies and rendezvous steps the daemon
//! backend uses — only the events come from here instead of from a
//! daemon.

use vstd::prelude::*;
use vstd::string::StringExecFns;

use crate::adapter::Adapter;
use crate::adapter::DiscoveryAdapter;
use crate::adapter::HostAdapter;
use crate::avahi::AvahiBrowserEvent;
use crate::avahi::AvahiLookupResultFlags;
use crate::avahi::AvahiProtocol;
use crate::avahi::AvahiResolverEvent;
use crate::browse::browse_transport_step;
use crate::callbacks::AvahiCallbacks;
use crate::discovery::DiscoveryListeners;
use crate::discovery::ResolveListeners;
use crate::discovery::ServiceInfo;
use crate::discovery::service_protocol_to_avahi_protocol;
use crate::errors::Error;
use crate::resolve::resolve_preflight;
use crate::resolve::resolve_transport_wait;
use crate::transport::Channel;

verus! {

/// A backend that needs no daemon.
pub struct FakeAdapter {}

/// The one value of the substitute backend.
pub open spec fn fake_adapter() -> FakeAdapter {
    FakeAdapter {  }
}

impl DiscoveryAdapter for FakeAdapter {
    /// Reports a single made-up service of the requested type and then
    /// the end of the browse, through the same transport and browse
    /// steps the daemon backend uses.
    fn start_discovery<F: Fn(ServiceInfo), G: Fn()>(
        &self,
        service_type: &str,
        listeners: DiscoveryListeners<'_, F, G>,
    ) -> (r: Result<(), Error>)
        ensures
            r is Ok,
    {
        let transport = Channel::new();
        AvahiCallbacks::browse_callback(
            1,
            AvahiProtocol::Inet.code(),
            AvahiBrowserEvent::New.code(),
            Some(String::from_str("fake")),
            Some(service_type.to_owned()),
            Some(String::from_str("local")),
            AvahiLookupResultFlags::Multicast.code(),
            &transport.sender,
        );
        AvahiCallbacks::browse_callback(
            1,
            AvahiProtocol::Inet.code(),
            AvahiBrowserEvent::AllForNow.code(),
            None,
            None,
            None,
            AvahiLookupResultFlags::Multicast.code(),
            &transport.sender,
        );
        // Exactly two reports are queued: the first step delivers the
        // service, the second sees the end of the browse.
        browse_transport_step(&transport, &listeners);
        browse_transport_step(&transport, &listeners);
        Ok(())
    }

    /// Fills in a fixed address, host name, port and TXT record for
    /// the given service, through the same transport and rendezvous
    /// the daemon backend uses.
    fn resolve<F: Fn(ServiceInfo)>(
        &self,
        service: ServiceInfo,
        listeners: ResolveListeners<'_, F>,
    ) -> (r: Result<(), Error>)
        ensures
            r is Ok <==> service.resolvable_spec(),
            !service.resolvable_spec() ==> (r matches Err(e) && e is Internal),
    {
        if let Err(e) = resolve_preflight(&service) {
            return Err(e);
        }
        let transport = Channel::new();
        AvahiCallbacks::resolve_callback(
            service.interface,
            service_protocol_to_avahi_protocol(service.protocol).code(),
            AvahiResolverEvent::Found.code(),
            service.name,
            service.service_type,
            service.domain,
            Some(String::from_str("fake.local")),
            Some(String::from_str("192.168.1.1")),
            80,
            Some(String::from_str("\"model=Xserve\"")),
            AvahiLookupResultFlags::Multicast.code(),
            &transport.sender,
        );
        resolve_transport_wait(&transport, listeners);
        Ok(())
    }

    /// There is never an active browse to cancel.
    fn stop_discovery(&self) {
    }
}

impl HostAdapter for FakeAdapter {
    fn get_name(&self) -> (r: Result<String, Error>)
        ensures
            r matches Ok(name) && name@ == "fake"@,
    {
        Ok(String::from_str("fake"))
    }

    fn get_name_fqdn(&self) -> (r: Result<String, Error>)
        ensures
            r matches Ok(name) && name@ == "fake.local"@,
    {
        Ok(String::from_str("fake.local"))
    }

    /// Every requested name is accepted as it is.
    fn set_name(&self, host_name: &str) -> (r: Result<String, Error>)
        ensures
            r matches Ok(name) && name@ == host_name@,
    {
        Ok(host_name.to_owned())
    }

    /// Every name is considered valid.
    fn is_valid_name(&self, host_name: &str) -> (r: Result<bool, Error>)
        ensures
            r matches Ok(valid) && valid,
    {
        Ok(true)
    }

    /// The alternative for a name is the name with `-2` appended.
    fn get_alternative_name(&self, host_name: &str) -> (r: Result<String, Error>)
        ensures
            r matches Ok(name) && name@ == host_name@ + "-2"@,
    {
        let mut name = host_name.to_owned();
        name.append("-2");
        Ok(name)
    }

    /// Alias requests are acknowledged and ignored.
    fn add_name_alias(&self, host_name: &str) -> (r: Result<(), Error>)
        ensures
            r is Ok,
    {
        Ok(())
    }

    /// Announcement requests are acknowledged and ignored.
    fn announce_service(&self, service_name: &str, service_type: &str, port: u16) -> (r: Result<
        (),
        Error,
    >)
        ensures
            r is Ok,
    {
        Ok(())
    }
}

impl Adapter for FakeAdapter {
    fn new() -> (adapter: FakeAdapter) {
        FakeAdapter {  }
    }
}

} // verus!
