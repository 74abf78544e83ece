//! The daemon's enumerated states, events and option values.
//!
//! The daemon speaks in small integers: callback invocations carry a
//! numeric client state, browse event or resolve event, and outgoing
//! calls take numeric protocol, flag and record selectors.  Each
//! enumeration here pairs a `code` encoder with (where the daemon is the
//! producer) a `from_code` decoder, and the decoders are proved to be
//! left inverses of the encoders.

use vstd::prelude::*;

verus! {

/// Options for creating a daemon client.
#[derive(Clone, Copy, Debug, PartialEq, Eq, Structural)]
pub enum AvahiClientFlags {
    /// Don't read user configuration.
    IgnoreUserConfig,
    /// Don't fail if the daemon is not available when the client is
    /// created; wait for the daemon to appear instead.
    NoFail,
}

/// The connection/registration status of a daemon client session.
/// Transitions are driven exclusively by the daemon; the bridge only
/// observes them.
#[derive(Clone, Copy, Debug, PartialEq, Eq, Structural)]
pub enum AvahiClientState {
    Registering,
    Running,
    Collision,
    Failure,
    Connecting,
}

/// Options for lookup operations (browse, resolve).
#[derive(Clone, Copy, Debug, PartialEq, Eq, Structural)]
pub enum AvahiLookupFlags {
    Unspec,
    /// When resolving a service, don't look up the TXT record.
    NoTxt,
    /// When resolving a service, don't look up the A/AAAA record.
    NoAddress,
}

/// Qualifiers the daemon attaches to a lookup result.
#[derive(Clone, Copy, Debug, PartialEq, Eq, Structural)]
pub enum AvahiLookupResultFlags {
    Cached,
    WideArea,
    Multicast,
    Local,
    OurOwn,
    Static,
}

/// An event reported by a service browser.
#[derive(Clone, Copy, Debug, PartialEq, Eq, Structural)]
pub enum AvahiBrowserEvent {
    New,
    Remove,
    CacheExhausted,
    AllForNow,
    Failure,
}

/// The internet protocol a record belongs to.
#[derive(Clone, Copy, Debug, PartialEq, Eq, Structural)]
pub enum AvahiProtocol {
    /// IPv4.
    Inet,
    /// IPv6.
    Inet6,
    /// Unspecified/all protocol(s).
    Unspec,
}

/// A network interface selector; the daemon accepts either a concrete
/// interface index or this wildcard.
#[derive(Clone, Copy, Debug, PartialEq, Eq, Structural)]
pub enum AvahiIfIndex {
    /// Unspecified/all interface(s).
    Unspec,
}

/// An event reported by a service resolver.
#[derive(Clone, Copy, Debug, PartialEq, Eq, Structural)]
pub enum AvahiResolverEvent {
    Found,
    Failure,
}

/// The kind of domain list a domain browser walks.
#[derive(Clone, Copy, Debug, PartialEq, Eq, Structural)]
pub enum AvahiDomainBrowserType {
    /// Browse for a list of available browsing domains.
    Browse,
    /// Browse for the default browsing domain.
    BrowseDefault,
    /// Browse for a list of available registering domains.
    Register,
    /// Browse for the default registering domain.
    RegisterDefault,
    /// Legacy browse domain - see the DNS-SD specification.
    BrowseLegacy,
    Max,
}

/// The publication status of an entry group.
#[derive(Clone, Copy, Debug, PartialEq, Eq, Structural)]
pub enum AvahiEntryGroupState {
    Uncommited,
    Registering,
    Established,
    Collision,
    Failure,
}

/// Options for publishing records through an entry group.
#[derive(Clone, Copy, Debug, PartialEq, Eq, Structural)]
pub enum AvahiPublishFlags {
    Unique,
    NoProbe,
    NoAnnounce,
    AllowMultiple,
    NoReverse,
    NoCookie,
    Update,
    UseWideArea,
    UseMulticast,
}

/// The DNS class of a published record.
#[derive(Clone, Copy, Debug, PartialEq, Eq, Structural)]
pub enum AvahiRecordClass {
    In,
}

/// The DNS type of a published record.
#[derive(Clone, Copy, Debug, PartialEq, Eq, Structural)]
pub enum AvahiRecordType {
    A,
    Ns,
    Cname,
    Soa,
    Ptr,
    Hinfo,
    Mx,
    Txt,
    Aaa,
    Srv,
}

impl AvahiClientFlags {
    /// The numeric value the daemon takes for this option.
    pub open spec fn code_spec(self) -> i32 {
        match self {
            AvahiClientFlags::IgnoreUserConfig => 0,
            AvahiClientFlags::NoFail => 1,
        }
    }

    #[verifier::when_used_as_spec(code_spec)]
    pub fn code(self) -> (c: i32)
        ensures
            c == self.code_spec(),
    {
        match self {
            AvahiClientFlags::IgnoreUserConfig => 0,
            AvahiClientFlags::NoFail => 1,
        }
    }
}

impl AvahiClientState {
    /// The numeric value the daemon reports for this state.
    pub open spec fn code_spec(self) -> i32 {
        match self {
            AvahiClientState::Registering => 1,
            AvahiClientState::Running => 2,
            AvahiClientState::Collision => 3,
            AvahiClientState::Failure => 100,
            AvahiClientState::Connecting => 101,
        }
    }

    #[verifier::when_used_as_spec(code_spec)]
    pub fn code(self) -> (c: i32)
        ensures
            c == self.code_spec(),
    {
        match self {
            AvahiClientState::Registering => 1,
            AvahiClientState::Running => 2,
            AvahiClientState::Collision => 3,
            AvahiClientState::Failure => 100,
            AvahiClientState::Connecting => 101,
        }
    }

    /// The state a numeric daemon report stands for, if any.
    pub open spec fn from_code_spec(code: i32) -> Option<AvahiClientState> {
        if code == 1 {
            Some(AvahiClientState::Registering)
        } else if code == 2 {
            Some(AvahiClientState::Running)
        } else if code == 3 {
            Some(AvahiClientState::Collision)
        } else if code == 100 {
            Some(AvahiClientState::Failure)
        } else if code == 101 {
            Some(AvahiClientState::Connecting)
        } else {
            None
        }
    }

    #[verifier::when_used_as_spec(from_code_spec)]
    pub fn from_code(code: i32) -> (s: Option<AvahiClientState>)
        ensures
            s == AvahiClientState::from_code_spec(code),
    {
        if code == 1 {
            Some(AvahiClientState::Registering)
        } else if code == 2 {
            Some(AvahiClientState::Running)
        } else if code == 3 {
            Some(AvahiClientState::Collision)
        } else if code == 100 {
            Some(AvahiClientState::Failure)
        } else if code == 101 {
            Some(AvahiClientState::Connecting)
        } else {
            None
        }
    }
}

/// Decoding a client-state code that was produced by encoding a state
/// recovers that state.
pub proof fn lemma_client_state_code_round_trip(s: AvahiClientState)
    ensures
        AvahiClientState::from_code_spec(s.code_spec()) == Some(s),
{
}

impl AvahiBrowserEvent {
    /// The numeric value the daemon reports for this event.
    pub open spec fn code_spec(self) -> i32 {
        match self {
            AvahiBrowserEvent::New => 0,
            AvahiBrowserEvent::Remove => 1,
            AvahiBrowserEvent::CacheExhausted => 2,
            AvahiBrowserEvent::AllForNow => 3,
            AvahiBrowserEvent::Failure => 4,
        }
    }

    #[verifier::when_used_as_spec(code_spec)]
    pub fn code(self) -> (c: i32)
        ensures
            c == self.code_spec(),
    {
        match self {
            AvahiBrowserEvent::New => 0,
            AvahiBrowserEvent::Remove => 1,
            AvahiBrowserEvent::CacheExhausted => 2,
            AvahiBrowserEvent::AllForNow => 3,
            AvahiBrowserEvent::Failure => 4,
        }
    }

    /// The browse event a numeric daemon report stands for, if any.
    pub open spec fn from_code_spec(code: i32) -> Option<AvahiBrowserEvent> {
        if code == 0 {
            Some(AvahiBrowserEvent::New)
        } else if code == 1 {
            Some(AvahiBrowserEvent::Remove)
        } else if code == 2 {
            Some(AvahiBrowserEvent::CacheExhausted)
        } else if code == 3 {
            Some(AvahiBrowserEvent::AllForNow)
        } else if code == 4 {
            Some(AvahiBrowserEvent::Failure)
        } else {
            None
        }
    }

    #[verifier::when_used_as_spec(from_code_spec)]
    pub fn from_code(code: i32) -> (e: Option<AvahiBrowserEvent>)
        ensures
            e == AvahiBrowserEvent::from_code_spec(code),
    {
        if code == 0 {
            Some(AvahiBrowserEvent::New)
        } else if code == 1 {
            Some(AvahiBrowserEvent::Remove)
        } else if code == 2 {
            Some(AvahiBrowserEvent::CacheExhausted)
        } else if code == 3 {
            Some(AvahiBrowserEvent::AllForNow)
        } else if code == 4 {
            Some(AvahiBrowserEvent::Failure)
        } else {
            None
        }
    }
}

/// Decoding a browse-event code that was produced by encoding an event
/// recovers that event.
pub proof fn lemma_browser_event_code_round_trip(e: AvahiBrowserEvent)
    ensures
        AvahiBrowserEvent::from_code_spec(e.code_spec()) == Some(e),
{
}

impl AvahiProtocol {
    /// The numeric value the daemon uses for this protocol.
    pub open spec fn code_spec(self) -> i32 {
        match self {
            AvahiProtocol::Inet => 0,
            AvahiProtocol::Inet6 => 1,
            AvahiProtocol::Unspec => -1i32,
        }
    }

    #[verifier::when_used_as_spec(code_spec)]
    pub fn code(self) -> (c: i32)
        ensures
            c == self.code_spec(),
    {
        match self {
            AvahiProtocol::Inet => 0,
            AvahiProtocol::Inet6 => 1,
            AvahiProtocol::Unspec => -1i32,
        }
    }

    /// The protocol a numeric daemon report stands for, if any.
    pub open spec fn from_code_spec(code: i32) -> Option<AvahiProtocol> {
        if code == 0 {
            Some(AvahiProtocol::Inet)
        } else if code == 1 {
            Some(AvahiProtocol::Inet6)
        } else if code == -1i32 {
            Some(AvahiProtocol::Unspec)
        } else {
            None
        }
    }

    #[verifier::when_used_as_spec(from_code_spec)]
    pub fn from_code(code: i32) -> (p: Option<AvahiProtocol>)
        ensures
            p == AvahiProtocol::from_code_spec(code),
    {
        if code == 0 {
            Some(AvahiProtocol::Inet)
        } else if code == 1 {
            Some(AvahiProtocol::Inet6)
        } else if code == -1i32 {
            Some(AvahiProtocol::Unspec)
        } else {
            None
        }
    }
}

/// Decoding a protocol code that was produced by encoding a protocol
/// recovers that protocol.
pub proof fn lemma_protocol_code_round_trip(p: AvahiProtocol)
    ensures
        AvahiProtocol::from_code_spec(p.code_spec()) == Some(p),
{
}

impl AvahiResolverEvent {
    /// The numeric value the daemon reports for this event.
    pub open spec fn code_spec(self) -> i32 {
        match self {
            AvahiResolverEvent::Found => 0,
            AvahiResolverEvent::Failure => 1,
        }
    }

    #[verifier::when_used_as_spec(code_spec)]
    pub fn code(self) -> (c: i32)
        ensures
            c == self.code_spec(),
    {
        match self {
            AvahiResolverEvent::Found => 0,
            AvahiResolverEvent::Failure => 1,
        }
    }

    /// The resolve event a numeric daemon report stands for, if any.
    pub open spec fn from_code_spec(code: i32) -> Option<AvahiResolverEvent> {
        if code == 0 {
            Some(AvahiResolverEvent::Found)
        } else if code == 1 {
            Some(AvahiResolverEvent::Failure)
        } else {
            None
        }
    }

    #[verifier::when_used_as_spec(from_code_spec)]
    pub fn from_code(code: i32) -> (e: Option<AvahiResolverEvent>)
        ensures
            e == AvahiResolverEvent::from_code_spec(code),
    {
        if code == 0 {
            Some(AvahiResolverEvent::Found)
        } else if code == 1 {
            Some(AvahiResolverEvent::Failure)
        } else {
            None
        }
    }
}

/// Decoding a resolve-event code that was produced by encoding an event
/// recovers that event.
pub proof fn lemma_resolver_event_code_round_trip(e: AvahiResolverEvent)
    ensures
        AvahiResolverEvent::from_code_spec(e.code_spec()) == Some(e),
{
}

impl AvahiLookupFlags {
    /// The numeric value the daemon takes for this option.
    pub open spec fn code_spec(self) -> i32 {
        match self {
            AvahiLookupFlags::Unspec => 0,
            AvahiLookupFlags::NoTxt => 1,
            AvahiLookupFlags::NoAddress => 2,
        }
    }

    #[verifier::when_used_as_spec(code_spec)]
    pub fn code(self) -> (c: i32)
        ensures
            c == self.code_spec(),
    {
        match self {
            AvahiLookupFlags::Unspec => 0,
            AvahiLookupFlags::NoTxt => 1,
            AvahiLookupFlags::NoAddress => 2,
        }
    }
}

impl AvahiLookupResultFlags {
    /// The numeric value the daemon reports for this qualifier.
    pub open spec fn code_spec(self) -> i32 {
        match self {
            AvahiLookupResultFlags::Cached => 0,
            AvahiLookupResultFlags::WideArea => 1,
            AvahiLookupResultFlags::Multicast => 2,
            AvahiLookupResultFlags::Local => 3,
            AvahiLookupResultFlags::OurOwn => 4,
            AvahiLookupResultFlags::Static => 5,
        }
    }

    #[verifier::when_used_as_spec(code_spec)]
    pub fn code(self) -> (c: i32)
        ensures
            c == self.code_spec(),
    {
        match self {
            AvahiLookupResultFlags::Cached => 0,
            AvahiLookupResultFlags::WideArea => 1,
            AvahiLookupResultFlags::Multicast => 2,
            AvahiLookupResultFlags::Local => 3,
            AvahiLookupResultFlags::OurOwn => 4,
            AvahiLookupResultFlags::Static => 5,
        }
    }

    /// The qualifier a numeric daemon report stands for, if any.
    pub open spec fn from_code_spec(code: i32) -> Option<AvahiLookupResultFlags> {
        if code == 0 {
            Some(AvahiLookupResultFlags::Cached)
        } else if code == 1 {
            Some(AvahiLookupResultFlags::WideArea)
        } else if code == 2 {
            Some(AvahiLookupResultFlags::Multicast)
        } else if code == 3 {
            Some(AvahiLookupResultFlags::Local)
        } else if code == 4 {
            Some(AvahiLookupResultFlags::OurOwn)
        } else if code == 5 {
            Some(AvahiLookupResultFlags::Static)
        } else {
            None
        }
    }

    #[verifier::when_used_as_spec(from_code_spec)]
    pub fn from_code(code: i32) -> (f: Option<AvahiLookupResultFlags>)
        ensures
            f == AvahiLookupResultFlags::from_code_spec(code),
    {
        if code == 0 {
            Some(AvahiLookupResultFlags::Cached)
        } else if code == 1 {
            Some(AvahiLookupResultFlags::WideArea)
        } else if code == 2 {
            Some(AvahiLookupResultFlags::Multicast)
        } else if code == 3 {
            Some(AvahiLookupResultFlags::Local)
        } else if code == 4 {
            Some(AvahiLookupResultFlags::OurOwn)
        } else if code == 5 {
            Some(AvahiLookupResultFlags::Static)
        } else {
            None
        }
    }
}

/// Decoding a lookup-result code that was produced by encoding a
/// qualifier recovers that qualifier.
pub proof fn lemma_lookup_result_code_round_trip(f: AvahiLookupResultFlags)
    ensures
        AvahiLookupResultFlags::from_code_spec(f.code_spec()) == Some(f),
{
}

impl AvahiIfIndex {
    /// The numeric value the daemon takes for this selector.
    pub open spec fn code_spec(self) -> i32 {
        match self {
            AvahiIfIndex::Unspec => -1i32,
        }
    }

    #[verifier::when_used_as_spec(code_spec)]
    pub fn code(self) -> (c: i32)
        ensures
            c == self.code_spec(),
    {
        match self {
            AvahiIfIndex::Unspec => -1i32,
        }
    }
}

impl AvahiDomainBrowserType {
    /// The numeric value the daemon takes for this browser kind.
    pub open spec fn code_spec(self) -> i32 {
        match self {
            AvahiDomainBrowserType::Browse => 0,
            AvahiDomainBrowserType::BrowseDefault => 1,
            AvahiDomainBrowserType::Register => 2,
            AvahiDomainBrowserType::RegisterDefault => 3,
            AvahiDomainBrowserType::BrowseLegacy => 4,
            AvahiDomainBrowserType::Max => 5,
        }
    }

    #[verifier::when_used_as_spec(code_spec)]
    pub fn code(self) -> (c: i32)
        ensures
            c == self.code_spec(),
    {
        match self {
            AvahiDomainBrowserType::Browse => 0,
            AvahiDomainBrowserType::BrowseDefault => 1,
            AvahiDomainBrowserType::Register => 2,
            AvahiDomainBrowserType::RegisterDefault => 3,
            AvahiDomainBrowserType::BrowseLegacy => 4,
            AvahiDomainBrowserType::Max => 5,
        }
    }
}

impl AvahiEntryGroupState {
    /// The numeric value the daemon reports for this state.
    pub open spec fn code_spec(self) -> i32 {
        match self {
            AvahiEntryGroupState::Uncommited => 0,
            AvahiEntryGroupState::Registering => 1,
            AvahiEntryGroupState::Established => 2,
            AvahiEntryGroupState::Collision => 3,
            AvahiEntryGroupState::Failure => 4,
        }
    }

    #[verifier::when_used_as_spec(code_spec)]
    pub fn code(self) -> (c: i32)
        ensures
            c == self.code_spec(),
    {
        match self {
            AvahiEntryGroupState::Uncommited => 0,
            AvahiEntryGroupState::Registering => 1,
            AvahiEntryGroupState::Established => 2,
            AvahiEntryGroupState::Collision => 3,
            AvahiEntryGroupState::Failure => 4,
        }
    }

    /// The entry-group state a numeric daemon report stands for, if any.
    pub open spec fn from_code_spec(code: i32) -> Option<AvahiEntryGroupState> {
        if code == 0 {
            Some(AvahiEntryGroupState::Uncommited)
        } else if code == 1 {
            Some(AvahiEntryGroupState::Registering)
        } else if code == 2 {
            Some(AvahiEntryGroupState::Established)
        } else if code == 3 {
            Some(AvahiEntryGroupState::Collision)
        } else if code == 4 {
            Some(AvahiEntryGroupState::Failure)
        } else {
            None
        }
    }

    #[verifier::when_used_as_spec(from_code_spec)]
    pub fn from_code(code: i32) -> (s: Option<AvahiEntryGroupState>)
        ensures
            s == AvahiEntryGroupState::from_code_spec(code),
    {
        if code == 0 {
            Some(AvahiEntryGroupState::Uncommited)
        } else if code == 1 {
            Some(AvahiEntryGroupState::Registering)
        } else if code == 2 {
            Some(AvahiEntryGroupState::Established)
        } else if code == 3 {
            Some(AvahiEntryGroupState::Collision)
        } else if code == 4 {
            Some(AvahiEntryGroupState::Failure)
        } else {
            None
        }
    }
}

/// Decoding an entry-group-state code that was produced by encoding a
/// state recovers that state.
pub proof fn lemma_entry_group_state_code_round_trip(s: AvahiEntryGroupState)
    ensures
        AvahiEntryGroupState::from_code_spec(s.code_spec()) == Some(s),
{
}

impl AvahiPublishFlags {
    /// The numeric value the daemon takes for this option.
    pub open spec fn code_spec(self) -> i32 {
        match self {
            AvahiPublishFlags::Unique => 1,
            AvahiPublishFlags::NoProbe => 2,
            AvahiPublishFlags::NoAnnounce => 4,
            AvahiPublishFlags::AllowMultiple => 8,
            AvahiPublishFlags::NoReverse => 16,
            AvahiPublishFlags::NoCookie => 32,
            AvahiPublishFlags::Update => 64,
            AvahiPublishFlags::UseWideArea => 128,
            AvahiPublishFlags::UseMulticast => 256,
        }
    }

    #[verifier::when_used_as_spec(code_spec)]
    pub fn code(self) -> (c: i32)
        ensures
            c == self.code_spec(),
    {
        match self {
            AvahiPublishFlags::Unique => 1,
            AvahiPublishFlags::NoProbe => 2,
            AvahiPublishFlags::NoAnnounce => 4,
            AvahiPublishFlags::AllowMultiple => 8,
            AvahiPublishFlags::NoReverse => 16,
            AvahiPublishFlags::NoCookie => 32,
            AvahiPublishFlags::Update => 64,
            AvahiPublishFlags::UseWideArea => 128,
            AvahiPublishFlags::UseMulticast => 256,
        }
    }
}

impl AvahiRecordClass {
    /// The numeric value the daemon takes for this DNS class.
    pub open spec fn code_spec(self) -> i32 {
        match self {
            AvahiRecordClass::In => 1,
        }
    }

    #[verifier::when_used_as_spec(code_spec)]
    pub fn code(self) -> (c: i32)
        ensures
            c == self.code_spec(),
    {
        match self {
            AvahiRecordClass::In => 1,
        }
    }
}

impl AvahiRecordType {
    /// The numeric value the daemon takes for this DNS record type.
    pub open spec fn code_spec(self) -> i32 {
        match self {
            AvahiRecordType::A => 1,
            AvahiRecordType::Ns => 2,
            AvahiRecordType::Cname => 5,
            AvahiRecordType::Soa => 6,
            AvahiRecordType::Ptr => 12,
            AvahiRecordType::Hinfo => 13,
            AvahiRecordType::Mx => 15,
            AvahiRecordType::Txt => 16,
            AvahiRecordType::Aaa => 28,
            AvahiRecordType::Srv => 33,
        }
    }

    #[verifier::when_used_as_spec(code_spec)]
    pub fn code(self) -> (c: i32)
        ensures
            c == self.code_spec(),
    {
        match self {
            AvahiRecordType::A => 1,
            AvahiRecordType::Ns => 2,
            AvahiRecordType::Cname => 5,
            AvahiRecordType::Soa => 6,
            AvahiRecordType::Ptr => 12,
            AvahiRecordType::Hinfo => 13,
            AvahiRecordType::Mx => 15,
            AvahiRecordType::Txt => 16,
            AvahiRecordType::Aaa => 28,
            AvahiRecordType::Srv => 33,
        }
    }
}

} // verus!
