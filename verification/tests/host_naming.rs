//! Host-name control: the set-name collision-resolution wait, the
//! alias plan and the pure string transforms.

use std::sync::mpsc;

use multicast_dns::avahi::AvahiClientState;
use multicast_dns::callbacks::ClientCallbackParameters;
use multicast_dns::host::HostManager;
use multicast_dns::host::NameChangeProgress;
use multicast_dns::host::add_name_alias_plan;
use multicast_dns::host::bytes_equal;
use multicast_dns::host::name_change_step;
use multicast_dns::host::name_change_transport_step;
use multicast_dns::host::name_fqdn_to_cname_rdata;
use multicast_dns::host::set_name_plan;
use multicast_dns::host::str_equal;
use multicast_dns::transport::Channel;

fn client_transport() -> Channel<ClientCallbackParameters> {
    let (sender, receiver) = mpsc::channel();
    Channel { receiver, sender }
}

fn report(state: AvahiClientState) -> ClientCallbackParameters {
    ClientCallbackParameters { state }
}

#[test]
fn equal_name_needs_no_round_trip() {
    assert!(set_name_plan("foxbox", "foxbox"));
    assert!(!set_name_plan("foxbox", "foxloc"));
    assert!(!set_name_plan("foxbox", "Foxbox"));
}

#[test]
fn set_name_returns_the_requested_name_at_once_when_unchanged() {
    let manager = HostManager::new();
    let current = manager.get_name().unwrap();
    assert_eq!(manager.set_name(&current).unwrap(), current);
}

#[test]
fn running_before_registering_is_not_completion() {
    let progress = NameChangeProgress::AwaitingRegistering;
    let progress = name_change_step(progress, AvahiClientState::Running);
    assert_eq!(progress, NameChangeProgress::AwaitingRegistering);
    let progress = name_change_step(progress, AvahiClientState::Connecting);
    assert_eq!(progress, NameChangeProgress::AwaitingRegistering);
}

#[test]
fn registering_then_running_completes_the_wait() {
    let progress = NameChangeProgress::AwaitingRegistering;
    let progress = name_change_step(progress, AvahiClientState::Running);
    let progress = name_change_step(progress, AvahiClientState::Registering);
    assert_eq!(progress, NameChangeProgress::AwaitingRunning);
    let progress = name_change_step(progress, AvahiClientState::Collision);
    assert_eq!(progress, NameChangeProgress::AwaitingRunning);
    let progress = name_change_step(progress, AvahiClientState::Running);
    assert_eq!(progress, NameChangeProgress::Applied);
    let progress = name_change_step(progress, AvahiClientState::Failure);
    assert_eq!(progress, NameChangeProgress::Applied);
}

#[test]
fn name_change_wait_over_a_transport() {
    let transport = client_transport();
    transport.sender.send(report(AvahiClientState::Running)).unwrap();
    transport.sender.send(report(AvahiClientState::Registering)).unwrap();
    transport.sender.send(report(AvahiClientState::Running)).unwrap();

    let mut progress = NameChangeProgress::AwaitingRegistering;
    let mut rounds: u32 = 0;
    while progress != NameChangeProgress::Applied {
        progress = name_change_transport_step(&transport, progress)
            .expect("the transport should stay alive");
        rounds += 1;
        assert!(rounds <= 3, "the wait should take exactly three reports");
    }
    assert_eq!(rounds, 3);
}

#[test]
fn name_change_wait_reports_a_lost_transport() {
    // A receiver whose every sender is gone: the struct's sender field
    // is filled from an unrelated queue so the receiver's own queue
    // stays senderless and the wait reports the loss instead of
    // blocking forever.
    let (own_sender, receiver) = mpsc::channel::<ClientCallbackParameters>();
    drop(own_sender);
    let (unrelated_sender, _unrelated_receiver) = mpsc::channel::<ClientCallbackParameters>();
    let transport = Channel {
        receiver,
        sender: unrelated_sender,
    };
    let progress = name_change_transport_step(&transport, NameChangeProgress::AwaitingRegistering);
    assert_eq!(progress, None);
}

#[test]
fn alias_equal_to_current_name_is_a_no_op() {
    assert_eq!(add_name_alias_plan("fake", "fake", "fake.local"), None);
}

#[test]
fn alias_plan_encodes_the_fqdn() {
    let plan = add_name_alias_plan("printer", "fake", "fake.local").unwrap();
    assert_eq!(plan, name_fqdn_to_cname_rdata("fake.local"));
    assert_eq!(plan[0], 4);
    assert_eq!(plan[plan.len() - 1], 0);
}

#[test]
fn alternative_name_is_pure() {
    let manager = HostManager::new();
    let first = manager.get_alternative_name("foxbox").unwrap();
    let second = manager.get_alternative_name("foxbox").unwrap();
    assert_eq!(first, "foxbox-2");
    assert_eq!(first, second);
    assert_eq!(manager.get_alternative_name("foxbox-2").unwrap(), "foxbox-2-2");
}

#[test]
fn string_comparison_is_exact() {
    assert!(str_equal("", ""));
    assert!(str_equal("foxbox", "foxbox"));
    assert!(!str_equal("foxbox", "foxbo"));
    assert!(!str_equal("foxbox", "Foxbox"));
    assert!(str_equal("na\u{00ef}ve", "na\u{00ef}ve"));
    assert!(!str_equal("na\u{00ef}ve", "naive"));
    assert!(bytes_equal(b"abc", b"abc"));
    assert!(!bytes_equal(b"abc", b"abd"));
    assert!(!bytes_equal(b"abc", b"ab"));
}
