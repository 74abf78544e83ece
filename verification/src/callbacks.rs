//! The in-process halves of the daemon callbacks.
//!
//! The daemon invokes a registered function on its event-loop thread
//! with numeric state/event codes and C strings.  The foreign shell of
//! each callback copies the strings into owned values before it
//! returns; everything after that point — decoding the numeric codes,
//! assembling the typed parameter record and queueing it on the
//! transport of the operation that registered the callback — happens
//! here.

use vstd::prelude::*;

use crate::avahi::AvahiBrowserEvent;
use crate::avahi::AvahiClientState;
use crate::avahi::AvahiLookupResultFlags;
use crate::avahi::AvahiProtocol;
use crate::avahi::AvahiResolverEvent;
use crate::transport::send_message;

verus! {

/// What a client-state callback reports: the session's new state.
#[derive(Clone, Copy, Debug, PartialEq, Eq, Structural)]
pub struct ClientCallbackParameters {
    pub state: AvahiClientState,
}

/// What a browse callback reports about one service.
#[derive(Clone, Debug, PartialEq)]
pub struct BrowseCallbackParameters {
    pub event: AvahiBrowserEvent,
    pub interface: i32,
    pub protocol: AvahiProtocol,
    pub name: Option<String>,
    pub service_type: Option<String>,
    pub domain: Option<String>,
    pub flags: AvahiLookupResultFlags,
}

/// What a resolve callback reports about the service it resolved.
#[derive(Clone, Debug, PartialEq)]
pub struct ResolveCallbackParameters {
    pub event: AvahiResolverEvent,
    pub address: Option<String>,
    pub interface: i32,
    pub port: u16,
    pub protocol: AvahiProtocol,
    pub name: Option<String>,
    pub service_type: Option<String>,
    pub domain: Option<String>,
    pub host_name: Option<String>,
    pub txt: Option<String>,
    pub flags: AvahiLookupResultFlags,
}

/// The typed record a client-state report decodes to, if the state
/// code is one the daemon defines.
pub open spec fn client_parameters_spec(state_code: i32) -> Option<ClientCallbackParameters> {
    match AvahiClientState::from_code_spec(state_code) {
        Some(state) => Some(ClientCallbackParameters { state }),
        None => None,
    }
}

/// Decodes a client-state report.
pub fn assemble_client_parameters(state_code: i32) -> (p: Option<ClientCallbackParameters>)
    ensures
        p == client_parameters_spec(state_code),
{
    match AvahiClientState::from_code(state_code) {
        Some(state) => Some(ClientCallbackParameters { state }),
        None => None,
    }
}

/// The typed record a browse report decodes to, if every numeric code
/// is one the daemon defines.
pub open spec fn browse_parameters_spec(
    interface: i32,
    protocol_code: i32,
    event_code: i32,
    name: Option<String>,
    service_type: Option<String>,
    domain: Option<String>,
    flags_code: i32,
) -> Option<BrowseCallbackParameters> {
    match (
        AvahiBrowserEvent::from_code_spec(event_code),
        AvahiProtocol::from_code_spec(protocol_code),
        AvahiLookupResultFlags::from_code_spec(flags_code),
    ) {
        (Some(event), Some(protocol), Some(flags)) => Some(
            BrowseCallbackParameters {
                event,
                interface,
                protocol,
                name,
                service_type,
                domain,
                flags,
            },
        ),
        _ => None,
    }
}

/// Decodes a browse report.
pub fn assemble_browse_parameters(
    interface: i32,
    protocol_code: i32,
    event_code: i32,
    name: Option<String>,
    service_type: Option<String>,
    domain: Option<String>,
    flags_code: i32,
) -> (p: Option<BrowseCallbackParameters>)
    ensures
        p == browse_parameters_spec(
            interface,
            protocol_code,
            event_code,
            name,
            service_type,
            domain,
            flags_code,
        ),
{
    match (
        AvahiBrowserEvent::from_code(event_code),
        AvahiProtocol::from_code(protocol_code),
        AvahiLookupResultFlags::from_code(flags_code),
    ) {
        (Some(event), Some(protocol), Some(flags)) => Some(
            BrowseCallbackParameters {
                event,
                interface,
                protocol,
                name,
                service_type,
                domain,
                flags,
            },
        ),
        _ => None,
    }
}

/// The typed record a resolve report decodes to, if every numeric code
/// is one the daemon defines.
pub open spec fn resolve_parameters_spec(
    interface: i32,
    protocol_code: i32,
    event_code: i32,
    name: Option<String>,
    service_type: Option<String>,
    domain: Option<String>,
    host_name: Option<String>,
    address: Option<String>,
    port: u16,
    txt: Option<String>,
    flags_code: i32,
) -> Option<ResolveCallbackParameters> {
    match (
        AvahiResolverEvent::from_code_spec(event_code),
        AvahiProtocol::from_code_spec(protocol_code),
        AvahiLookupResultFlags::from_code_spec(flags_code),
    ) {
        (Some(event), Some(protocol), Some(flags)) => Some(
            ResolveCallbackParameters {
                event,
                address,
                interface,
                port,
                protocol,
                name,
                service_type,
                domain,
                host_name,
                txt,
                flags,
            },
        ),
        _ => None,
    }
}

/// Decodes a resolve report.
pub fn assemble_resolve_parameters(
    interface: i32,
    protocol_code: i32,
    event_code: i32,
    name: Option<String>,
    service_type: Option<String>,
    domain: Option<String>,
    host_name: Option<String>,
    address: Option<String>,
    port: u16,
    txt: Option<String>,
    flags_code: i32,
) -> (p: Option<ResolveCallbackParameters>)
    ensures
        p == resolve_parameters_spec(
            interface,
            protocol_code,
            event_code,
            name,
            service_type,
            domain,
            host_name,
            address,
            port,
            txt,
            flags_code,
        ),
{
    match (
        AvahiResolverEvent::from_code(event_code),
        AvahiProtocol::from_code(protocol_code),
        AvahiLookupResultFlags::from_code(flags_code),
    ) {
        (Some(event), Some(protocol), Some(flags)) => Some(
            ResolveCallbackParameters {
                event,
                address,
                interface,
                port,
                protocol,
                name,
                service_type,
                domain,
                host_name,
                txt,
                flags,
            },
        ),
        _ => None,
    }
}

/// The callback bodies shared by every daemon registration.
pub struct AvahiCallbacks;

impl AvahiCallbacks {
    /// The client callback: decodes the reported state and queues it
    /// for the thread blocked on the client transport.  Reports
    /// whether a message was queued; nothing is queued when the state
    /// code is not one the daemon defines or the receiving half is
    /// gone.
    pub fn client_callback(
        state_code: i32,
        sender: &std::sync::mpsc::Sender<ClientCallbackParameters>,
    ) -> (queued: bool)
        ensures
            client_parameters_spec(state_code) is None ==> !queued,
    {
        match assemble_client_parameters(state_code) {
            Some(parameters) => send_message(sender, parameters),
            None => false,
        }
    }

    /// The browse callback: decodes one browse report and queues it
    /// for the thread blocked inside a discovery call.  Reports
    /// whether a message was queued.
    pub fn browse_callback(
        interface: i32,
        protocol_code: i32,
        event_code: i32,
        name: Option<String>,
        service_type: Option<String>,
        domain: Option<String>,
        flags_code: i32,
        sender: &std::sync::mpsc::Sender<Option<BrowseCallbackParameters>>,
    ) -> (queued: bool)
        ensures
            browse_parameters_spec(
                interface,
                protocol_code,
                event_code,
                name,
                service_type,
                domain,
                flags_code,
            ) is None ==> !queued,
    {
        match assemble_browse_parameters(
            interface,
            protocol_code,
            event_code,
            name,
            service_type,
            domain,
            flags_code,
        ) {
            Some(parameters) => send_message(sender, Some(parameters)),
            None => false,
        }
    }

    /// The resolve callback: decodes the single resolve report and
    /// queues it for the thread blocked inside a resolve call.
    /// Reports whether a message was queued.
    pub fn resolve_callback(
        interface: i32,
        protocol_code: i32,
        event_code: i32,
        name: Option<String>,
        service_type: Option<String>,
        domain: Option<String>,
        host_name: Option<String>,
        address: Option<String>,
        port: u16,
        txt: Option<String>,
        flags_code: i32,
        sender: &std::sync::mpsc::Sender<ResolveCallbackParameters>,
    ) -> (queued: bool)
        ensures
            resolve_parameters_spec(
                interface,
                protocol_code,
                event_code,
                name,
                service_type,
                domain,
                host_name,
                address,
                port,
                txt,
                flags_code,
            ) is None ==> !queued,
    {
        match assemble_resolve_parameters(
            interface,
            protocol_code,
            event_code,
            name,
            service_type,
            domain,
            host_name,
            address,
            port,
            txt,
            flags_code,
        ) {
            Some(parameters) => send_message(sender, parameters),
            None => false,
        }
    }

    /// The entry-group callback: the bridge only observes the state;
    /// the decoded state is handed back to the foreign shell.
    pub fn entry_group_callback(state_code: i32) -> (state: Option<
        crate::avahi::AvahiEntryGroupState,
    >)
        ensures
            state == crate::avahi::AvahiEntryGroupState::from_code_spec(state_code),
    {
        crate::avahi::AvahiEntryGroupState::from_code(state_code)
    }
}

} // verus!
