//! The browse bridge, the resolution rendezvous and the session
//! lifecycle, driven over real transports.

use std::cell::RefCell;
use std::rc::Rc;
use std::sync::mpsc;

use multicast_dns::avahi::AvahiBrowserEvent;
use multicast_dns::avahi::AvahiLookupResultFlags;
use multicast_dns::avahi::AvahiProtocol;
use multicast_dns::avahi::AvahiClientState;
use multicast_dns::avahi::AvahiResolverEvent;
use multicast_dns::browse::BrowseAction;
use multicast_dns::browse::BrowseNotification;
use multicast_dns::browse::browse_step;
use multicast_dns::browse::browse_transport_step;
use multicast_dns::browse::collect_browse_notifications;
use multicast_dns::browse::push_stop_sentinel;
use multicast_dns::browse::replay_browse_stream;
use multicast_dns::callbacks::AvahiCallbacks;
use multicast_dns::callbacks::BrowseCallbackParameters;
use multicast_dns::callbacks::ClientCallbackParameters;
use multicast_dns::callbacks::ResolveCallbackParameters;
use multicast_dns::callbacks::assemble_browse_parameters;
use multicast_dns::discovery::DiscoveryListeners;
use multicast_dns::discovery::DiscoveryManager;
use multicast_dns::discovery::ResolveListeners;
use multicast_dns::discovery::ServiceInfo;
use multicast_dns::discovery::ServiceProtocol;
use multicast_dns::host::HostManager;
use multicast_dns::resolve::resolve_outcome;
use multicast_dns::resolve::resolve_preflight;
use multicast_dns::resolve::resolve_transport_wait;
use multicast_dns::session::ClientWaitOutcome;
use multicast_dns::session::SessionState;
use multicast_dns::session::TeardownPlan;
use multicast_dns::session::client_creation_check;
use multicast_dns::session::client_ready_step;
use multicast_dns::session::client_wait_decision;
use multicast_dns::transport::Channel;

fn browse_transport() -> Channel<Option<BrowseCallbackParameters>> {
    let (sender, receiver) = mpsc::channel();
    Channel { receiver, sender }
}

fn resolve_transport() -> Channel<ResolveCallbackParameters> {
    let (sender, receiver) = mpsc::channel();
    Channel { receiver, sender }
}

fn client_transport() -> Channel<ClientCallbackParameters> {
    let (sender, receiver) = mpsc::channel();
    Channel { receiver, sender }
}

fn new_event(name: &str, domain: &str, service_type: &str) -> Option<BrowseCallbackParameters> {
    Some(BrowseCallbackParameters {
        event: AvahiBrowserEvent::New,
        interface: 2,
        protocol: AvahiProtocol::Inet,
        name: Some(String::from(name)),
        service_type: Some(String::from(service_type)),
        domain: Some(String::from(domain)),
        flags: AvahiLookupResultFlags::Multicast,
    })
}

fn plain_event(event: AvahiBrowserEvent) -> Option<BrowseCallbackParameters> {
    Some(BrowseCallbackParameters {
        event,
        interface: 2,
        protocol: AvahiProtocol::Inet,
        name: None,
        service_type: None,
        domain: None,
        flags: AvahiLookupResultFlags::Multicast,
    })
}

fn discovered_names(notifications: &[BrowseNotification]) -> Vec<String> {
    let mut names = Vec::new();
    for notification in notifications {
        if let BrowseNotification::Discovered(service) = notification {
            names.push(service.name.clone().unwrap());
        }
    }
    names
}

#[test]
fn browse_step_maps_each_event() {
    assert!(matches!(
        browse_step(new_event("printer", "local", "_http._tcp")),
        BrowseAction::Notify(_)
    ));
    assert_eq!(
        browse_step(plain_event(AvahiBrowserEvent::AllForNow)),
        BrowseAction::NotifyAllAndStop
    );
    assert_eq!(
        browse_step(plain_event(AvahiBrowserEvent::Failure)),
        BrowseAction::Ignore
    );
    assert_eq!(
        browse_step(plain_event(AvahiBrowserEvent::Remove)),
        BrowseAction::Ignore
    );
    assert_eq!(
        browse_step(plain_event(AvahiBrowserEvent::CacheExhausted)),
        BrowseAction::Ignore
    );
    assert_eq!(browse_step(None), BrowseAction::Stop);
}

#[test]
fn browse_step_builds_partial_record() {
    match browse_step(new_event("printer", "local", "_http._tcp")) {
        BrowseAction::Notify(service) => {
            assert_eq!(service.name.as_deref(), Some("printer"));
            assert_eq!(service.domain.as_deref(), Some("local"));
            assert_eq!(service.service_type.as_deref(), Some("_http._tcp"));
            assert_eq!(service.interface, 2);
            assert_eq!(service.protocol, ServiceProtocol::IPv4);
            assert_eq!(service.address, None);
            assert_eq!(service.host_name, None);
            assert_eq!(service.txt, None);
            assert_eq!(service.port, 0);
        }
        action => panic!("expected a notification, got {:?}", action),
    }
}

#[test]
fn two_services_then_all_for_now() {
    let notifications = collect_browse_notifications(vec![
        new_event("printer", "local", "_http._tcp"),
        new_event("scanner", "local", "_http._tcp"),
        plain_event(AvahiBrowserEvent::AllForNow),
    ]);
    assert_eq!(notifications.len(), 3);
    assert_eq!(discovered_names(&notifications), vec!["printer", "scanner"]);
    assert_eq!(notifications[2], BrowseNotification::AllDiscovered);
}

#[test]
fn all_for_now_ends_the_browse() {
    let notifications = collect_browse_notifications(vec![
        plain_event(AvahiBrowserEvent::AllForNow),
        new_event("late", "local", "_http._tcp"),
    ]);
    assert_eq!(notifications, vec![BrowseNotification::AllDiscovered]);
}

#[test]
fn stop_sentinel_ends_the_browse_without_completion() {
    let notifications = collect_browse_notifications(vec![
        new_event("printer", "local", "_http._tcp"),
        None,
        new_event("scanner", "local", "_http._tcp"),
        plain_event(AvahiBrowserEvent::AllForNow),
    ]);
    assert_eq!(notifications.len(), 1);
    assert_eq!(discovered_names(&notifications), vec!["printer"]);
}

#[test]
fn failures_are_tolerated_mid_browse() {
    let notifications = collect_browse_notifications(vec![
        plain_event(AvahiBrowserEvent::Failure),
        new_event("printer", "local", "_http._tcp"),
        plain_event(AvahiBrowserEvent::Failure),
        plain_event(AvahiBrowserEvent::AllForNow),
    ]);
    assert_eq!(discovered_names(&notifications), vec!["printer"]);
    assert_eq!(notifications.last(), Some(&BrowseNotification::AllDiscovered));
}

#[test]
fn replaying_a_recorded_stream_delivers_in_order() {
    let seen: Rc<RefCell<Vec<String>>> = Rc::new(RefCell::new(Vec::new()));
    let completions: Rc<RefCell<u32>> = Rc::new(RefCell::new(0));
    let seen_in_callback = Rc::clone(&seen);
    let completions_in_callback = Rc::clone(&completions);
    let on_discovered = move |service: ServiceInfo| {
        seen_in_callback.borrow_mut().push(service.name.unwrap());
    };
    let on_all = move || {
        *completions_in_callback.borrow_mut() += 1;
    };
    let listeners = DiscoveryListeners {
        on_service_discovered: Some(&on_discovered),
        on_all_discovered: Some(&on_all),
    };
    replay_browse_stream(
        vec![
            new_event("printer", "local", "_http._tcp"),
            plain_event(AvahiBrowserEvent::Failure),
            new_event("scanner", "local", "_http._tcp"),
            plain_event(AvahiBrowserEvent::AllForNow),
        ],
        listeners,
    );
    assert_eq!(*seen.borrow(), vec!["printer", "scanner"]);
    assert_eq!(*completions.borrow(), 1);
}

#[test]
fn browse_over_transport_notifies_in_order() {
    let transport = browse_transport();
    transport
        .sender
        .send(new_event("printer", "local", "_http._tcp"))
        .unwrap();
    transport
        .sender
        .send(new_event("scanner", "local", "_http._tcp"))
        .unwrap();
    transport
        .sender
        .send(plain_event(AvahiBrowserEvent::AllForNow))
        .unwrap();

    let seen: Rc<RefCell<Vec<String>>> = Rc::new(RefCell::new(Vec::new()));
    let completions: Rc<RefCell<u32>> = Rc::new(RefCell::new(0));
    let seen_in_callback = Rc::clone(&seen);
    let completions_in_callback = Rc::clone(&completions);
    let on_discovered = move |service: ServiceInfo| {
        seen_in_callback.borrow_mut().push(service.name.unwrap());
    };
    let on_all = move || {
        *completions_in_callback.borrow_mut() += 1;
    };
    let listeners = DiscoveryListeners {
        on_service_discovered: Some(&on_discovered),
        on_all_discovered: Some(&on_all),
    };

    let mut rounds: u32 = 0;
    while !browse_transport_step(&transport, &listeners) {
        rounds += 1;
        assert!(rounds < 10, "browse did not end");
    }
    assert_eq!(*seen.borrow(), vec!["printer", "scanner"]);
    assert_eq!(*completions.borrow(), 1);
}

#[test]
fn stop_sentinel_unblocks_a_browse_transport() {
    let transport = browse_transport();
    assert!(push_stop_sentinel(&transport.sender));

    let on_discovered = |_service: ServiceInfo| {
        panic!("no service should be reported after an explicit stop");
    };
    let on_all = || {
        panic!("an explicit stop is not a completion");
    };
    let listeners = DiscoveryListeners {
        on_service_discovered: Some(&on_discovered),
        on_all_discovered: Some(&on_all),
    };
    assert!(browse_transport_step(&transport, &listeners));
}

#[test]
fn browse_callback_queues_decoded_events() {
    let transport = browse_transport();
    assert!(AvahiCallbacks::browse_callback(
        2,
        AvahiProtocol::Inet.code(),
        AvahiBrowserEvent::New.code(),
        Some(String::from("printer")),
        Some(String::from("_http._tcp")),
        Some(String::from("local")),
        AvahiLookupResultFlags::Multicast.code(),
        &transport.sender,
    ));
    let queued = transport.receiver.recv().unwrap().unwrap();
    assert_eq!(queued.event, AvahiBrowserEvent::New);
    assert_eq!(queued.name.as_deref(), Some("printer"));
    assert_eq!(queued.protocol, AvahiProtocol::Inet);
}

#[test]
fn browse_callback_drops_undecodable_reports() {
    let transport = browse_transport();
    assert!(!AvahiCallbacks::browse_callback(
        2,
        AvahiProtocol::Inet.code(),
        77,
        None,
        None,
        None,
        AvahiLookupResultFlags::Multicast.code(),
        &transport.sender,
    ));
    assert!(assemble_browse_parameters(2, 0, 77, None, None, None, 0).is_none());
    assert!(assemble_browse_parameters(2, 0, 0, None, None, None, 0).is_some());
}

#[test]
fn fake_discovery_reports_one_service_and_completion() {
    let manager = DiscoveryManager::new();
    let seen: Rc<RefCell<Vec<ServiceInfo>>> = Rc::new(RefCell::new(Vec::new()));
    let completions: Rc<RefCell<u32>> = Rc::new(RefCell::new(0));
    let seen_in_callback = Rc::clone(&seen);
    let completions_in_callback = Rc::clone(&completions);
    let on_discovered = move |service: ServiceInfo| {
        seen_in_callback.borrow_mut().push(service);
    };
    let on_all = move || {
        *completions_in_callback.borrow_mut() += 1;
    };
    let listeners = DiscoveryListeners {
        on_service_discovered: Some(&on_discovered),
        on_all_discovered: Some(&on_all),
    };
    assert!(manager.discover_services("_device-info._tcp", listeners).is_ok());

    let seen = seen.borrow();
    assert_eq!(seen.len(), 1);
    assert_eq!(seen[0].name.as_deref(), Some("fake"));
    assert_eq!(seen[0].domain.as_deref(), Some("local"));
    assert_eq!(seen[0].service_type.as_deref(), Some("_device-info._tcp"));
    assert_eq!(seen[0].protocol, ServiceProtocol::IPv4);
    assert_eq!(seen[0].interface, 1);
    assert_eq!(seen[0].port, 0);
    assert_eq!(seen[0].address, None);
    assert_eq!(*completions.borrow(), 1);
}

#[test]
fn stop_discovery_without_a_browse_is_a_no_op() {
    let manager = DiscoveryManager::new();
    manager.stop_service_discovery();
    manager.stop_service_discovery();
}

#[test]
fn resolve_over_transport_notifies_exactly_once() {
    let transport = resolve_transport();
    transport
        .sender
        .send(ResolveCallbackParameters {
            event: AvahiResolverEvent::Found,
            address: Some(String::from("192.168.1.5")),
            interface: 2,
            port: 631,
            protocol: AvahiProtocol::Inet,
            name: Some(String::from("printer")),
            service_type: Some(String::from("_ipp._tcp")),
            domain: Some(String::from("local")),
            host_name: Some(String::from("printer.local")),
            txt: Some(String::from("\"rp=ipp/print\"")),
            flags: AvahiLookupResultFlags::Multicast,
        })
        .unwrap();

    let resolved: Rc<RefCell<Vec<ServiceInfo>>> = Rc::new(RefCell::new(Vec::new()));
    let resolved_in_callback = Rc::clone(&resolved);
    let on_resolved = move |service: ServiceInfo| {
        resolved_in_callback.borrow_mut().push(service);
    };
    let listeners = ResolveListeners {
        on_service_resolved: Some(&on_resolved),
    };
    assert!(resolve_transport_wait(&transport, listeners));

    let resolved = resolved.borrow();
    assert_eq!(resolved.len(), 1);
    assert_eq!(resolved[0].address.as_deref(), Some("192.168.1.5"));
    assert_eq!(resolved[0].port, 631);
    assert_eq!(resolved[0].host_name.as_deref(), Some("printer.local"));
    assert_eq!(resolved[0].name.as_deref(), Some("printer"));
    assert_eq!(resolved[0].protocol, ServiceProtocol::IPv4);
}

#[test]
fn resolve_failure_event_notifies_nobody() {
    let transport = resolve_transport();
    transport
        .sender
        .send(ResolveCallbackParameters {
            event: AvahiResolverEvent::Failure,
            address: None,
            interface: 2,
            port: 0,
            protocol: AvahiProtocol::Inet,
            name: None,
            service_type: None,
            domain: None,
            host_name: None,
            txt: None,
            flags: AvahiLookupResultFlags::Multicast,
        })
        .unwrap();
    let on_resolved = |_service: ServiceInfo| {
        panic!("a failed resolve must not notify the listener");
    };
    let listeners = ResolveListeners {
        on_service_resolved: Some(&on_resolved),
    };
    assert!(!resolve_transport_wait(&transport, listeners));
}

#[test]
fn resolve_outcome_classifies_messages() {
    assert!(resolve_outcome(None).is_none());
    let found = ResolveCallbackParameters {
        event: AvahiResolverEvent::Found,
        address: Some(String::from("10.0.0.9")),
        interface: 1,
        port: 80,
        protocol: AvahiProtocol::Inet6,
        name: Some(String::from("web")),
        service_type: Some(String::from("_http._tcp")),
        domain: Some(String::from("local")),
        host_name: Some(String::from("web.local")),
        txt: None,
        flags: AvahiLookupResultFlags::Multicast,
    };
    let record = resolve_outcome(Some(found)).unwrap();
    assert_eq!(record.protocol, ServiceProtocol::IPv6);
    assert_eq!(record.address.as_deref(), Some("10.0.0.9"));
}

#[test]
fn resolve_requires_name_type_and_domain() {
    let complete = ServiceInfo {
        address: None,
        domain: Some(String::from("local")),
        host_name: None,
        interface: 1,
        name: Some(String::from("printer")),
        port: 0,
        protocol: ServiceProtocol::IPv4,
        service_type: Some(String::from("_ipp._tcp")),
        txt: None,
    };
    assert!(resolve_preflight(&complete).is_ok());

    let mut nameless = complete.duplicate();
    nameless.name = None;
    let rejected = resolve_preflight(&nameless).unwrap_err();
    assert!(rejected.is_internal());

    let manager = DiscoveryManager::new();
    let on_resolved = |_service: ServiceInfo| {
        panic!("an unresolvable record must not be resolved");
    };
    let listeners = ResolveListeners {
        on_service_resolved: Some(&on_resolved),
    };
    assert!(manager.resolve_service(nameless, listeners).is_err());
}

#[test]
fn fake_resolution_fills_the_record() {
    let manager = DiscoveryManager::new();
    let partial = ServiceInfo {
        address: None,
        domain: Some(String::from("local")),
        host_name: None,
        interface: 3,
        name: Some(String::from("printer")),
        port: 0,
        protocol: ServiceProtocol::IPv6,
        service_type: Some(String::from("_ipp._tcp")),
        txt: None,
    };
    let resolved: Rc<RefCell<Vec<ServiceInfo>>> = Rc::new(RefCell::new(Vec::new()));
    let resolved_in_callback = Rc::clone(&resolved);
    let on_resolved = move |service: ServiceInfo| {
        resolved_in_callback.borrow_mut().push(service);
    };
    let listeners = ResolveListeners {
        on_service_resolved: Some(&on_resolved),
    };
    assert!(manager.resolve_service(partial, listeners).is_ok());

    let resolved = resolved.borrow();
    assert_eq!(resolved.len(), 1);
    assert_eq!(resolved[0].address.as_deref(), Some("192.168.1.1"));
    assert_eq!(resolved[0].host_name.as_deref(), Some("fake.local"));
    assert_eq!(resolved[0].port, 80);
    assert_eq!(resolved[0].txt.as_deref(), Some("\"model=Xserve\""));
    assert_eq!(resolved[0].name.as_deref(), Some("printer"));
    assert_eq!(resolved[0].domain.as_deref(), Some("local"));
    assert_eq!(resolved[0].service_type.as_deref(), Some("_ipp._tcp"));
    assert_eq!(resolved[0].interface, 3);
    assert_eq!(resolved[0].protocol, ServiceProtocol::IPv6);
}

#[test]
fn session_lifecycle_is_idempotent() {
    let mut session = SessionState::new();
    assert!(!session.is_ready());

    session.install_handles(11, 22);
    assert!(session.is_ready());

    assert_eq!(session.end_browse(), None);
    assert!(session.is_ready());

    session.begin_browse(33);
    assert_eq!(session.service_browser, Some(33));
    assert_eq!(session.end_browse(), Some(33));
    assert_eq!(session.service_browser, None);
    assert_eq!(session.end_browse(), None);

    assert_eq!(
        session.teardown(),
        TeardownPlan::Release {
            poll: 11,
            client: 22
        }
    );
    assert!(!session.is_ready());
    assert_eq!(session.teardown(), TeardownPlan::AlreadyClean);
    assert_eq!(session, SessionState::new());
}

#[test]
fn client_creation_is_checked() {
    assert_eq!(
        client_creation_check(0, Some(5), String::from("unused")).unwrap(),
        5
    );
    let no_handle = client_creation_check(0, None, String::from("no client")).unwrap_err();
    assert!(no_handle.is_adapter_failure());
    let bad_code = client_creation_check(-1, Some(5), String::from("refused")).unwrap_err();
    assert_eq!(bad_code.message(), "refused");
}

#[test]
fn client_ready_wait_sees_running() {
    assert_eq!(
        client_wait_decision(Some(ClientCallbackParameters {
            state: AvahiClientState::Registering
        })),
        ClientWaitOutcome::NotYet
    );
    assert_eq!(
        client_wait_decision(Some(ClientCallbackParameters {
            state: AvahiClientState::Running
        })),
        ClientWaitOutcome::Ready
    );
    assert_eq!(client_wait_decision(None), ClientWaitOutcome::Lost);

    let transport = client_transport();
    assert!(AvahiCallbacks::client_callback(
        AvahiClientState::Connecting.code(),
        &transport.sender
    ));
    assert!(AvahiCallbacks::client_callback(
        AvahiClientState::Running.code(),
        &transport.sender
    ));
    assert!(!AvahiCallbacks::client_callback(55, &transport.sender));
    assert_eq!(client_ready_step(&transport), ClientWaitOutcome::NotYet);
    assert_eq!(client_ready_step(&transport), ClientWaitOutcome::Ready);
}

#[test]
fn host_manager_answers_through_the_backend() {
    let manager = HostManager::new();
    assert_eq!(manager.get_name().unwrap(), "fake");
    assert_eq!(manager.set_name("foxloc").unwrap(), "foxloc");
    assert!(manager.is_valid_name("foxbox").unwrap());
    assert!(manager.add_name_alias("foxbox").is_ok());
    assert!(manager.announce_service("box", "_http._tcp", 80).is_ok());
}
