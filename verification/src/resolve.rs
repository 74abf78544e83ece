//! The resolution rendezvous.
//!
//! A resolve operation is one-shot: the daemon is asked about a single
//! service, exactly one event is expected on the operation's private
//! transport, and the native resolver handle is released right after
//! that event, whatever it carried.  A `Found` event yields the fully
//! populated record; a `Failure` event yields nothing.

use vstd::prelude::*;
use vstd::string::StringExecFns;

use crate::callbacks::ResolveCallbackParameters;
use crate::discovery::ResolveListeners;
use crate::discovery::ServiceInfo;
use crate::discovery::accepts_any_service;
use crate::discovery::avahi_protocol_to_service_protocol;
use crate::discovery::avahi_protocol_to_service_protocol_spec;
use crate::errors::Error;
use crate::transport::Channel;
use crate::transport::receive_message;

verus! {

/// The fully populated record a `Found` resolve event carries.
pub open spec fn resolved_service_spec(p: ResolveCallbackParameters) -> ServiceInfo {
    ServiceInfo {
        address: p.address,
        domain: p.domain,
        host_name: p.host_name,
        interface: p.interface,
        name: p.name,
        port: p.port,
        protocol: avahi_protocol_to_service_protocol_spec(p.protocol),
        service_type: p.service_type,
        txt: p.txt,
    }
}

/// Builds the fully populated record a `Found` resolve event carries.
pub fn resolve_event_to_service(p: ResolveCallbackParameters) -> (s: ServiceInfo)
    ensures
        s == resolved_service_spec(p),
{
    ServiceInfo {
        address: p.address,
        domain: p.domain,
        host_name: p.host_name,
        interface: p.interface,
        name: p.name,
        port: p.port,
        protocol: avahi_protocol_to_service_protocol(p.protocol),
        service_type: p.service_type,
        txt: p.txt,
    }
}

/// What one resolve message yields: the record to hand to the caller
/// for a `Found` event, nothing for a `Failure` event or a transport
/// whose senders are gone.
pub open spec fn resolve_outcome_spec(message: Option<ResolveCallbackParameters>) -> Option<
    ServiceInfo,
> {
    match message {
        Some(p) => if p.event is Found {
            Some(resolved_service_spec(p))
        } else {
            None
        },
        None => None,
    }
}

/// Decides what one resolve message yields.
pub fn resolve_outcome(message: Option<ResolveCallbackParameters>) -> (outcome: Option<
    ServiceInfo,
>)
    ensures
        outcome == resolve_outcome_spec(message),
{
    match message {
        Some(p) => match p.event {
            crate::avahi::AvahiResolverEvent::Found => Some(resolve_event_to_service(p)),
            crate::avahi::AvahiResolverEvent::Failure => None,
        },
        None => None,
    }
}

/// Checks that a record carries everything a resolve operation needs.
/// The daemon query depends on the service name, the service type and
/// the domain, so a record missing any of them is rejected with
/// `Error::Internal` before anything is asked of the daemon.
pub fn resolve_preflight(service: &ServiceInfo) -> (r: Result<(), Error>)
    ensures
        r is Ok <==> service.resolvable_spec(),
        !service.resolvable_spec() ==> (r matches Err(e) && e is Internal),
{
    if service.resolvable() {
        Ok(())
    } else {
        Err(Error::Internal(String::from_str("service name, type and domain are required")))
    }
}

/// Blocks for the single event of a resolve operation and notifies the
/// listener if the event carried the resolved record.  Reports whether
/// the listener ran.
pub fn resolve_transport_wait<F: Fn(ServiceInfo)>(
    transport: &Channel<ResolveCallbackParameters>,
    listeners: ResolveListeners<'_, F>,
) -> (notified: bool)
    requires
        accepts_any_service(listeners.on_service_resolved),
    ensures
        listeners.on_service_resolved is None ==> !notified,
        notified ==> listeners.on_service_resolved is Some,
{
    let message = receive_message(&transport.receiver);
    match resolve_outcome(message) {
        Some(service) => {
            match listeners.on_service_resolved {
                Some(callback) => {
                    callback(service);
                    true
                },
                None => false,
            }
        },
        None => false,
    }
}

} // verus!
