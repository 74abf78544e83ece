//! The discovery browser bridge.
//!
//! A browse operation registered with the daemon produces an unbounded
//! stream of events on the callback thread.  The bridge queues them on
//! a transport and drains that transport on the calling thread,
//! turning each message into at most one listener notification:
//!
//! * a `New` event announces a partially populated service record and
//!   notifies the discovered-service listener;
//! * `AllForNow` notifies the completion listener and ends the browse
//!   at this, the application-facing layer;
//! * a `Failure` event is tolerated and the browse goes on, as daemon
//!   churn is expected during a long-lived discovery session;
//! * the explicit-stop sentinel (an empty message, queued by
//!   `stop_discovery`) ends the browse without a completion
//!   notification, as does a transport whose senders are all gone.

use vstd::prelude::*;

use crate::avahi::AvahiBrowserEvent;
use crate::callbacks::BrowseCallbackParameters;
use crate::discovery::DiscoveryListeners;
use crate::discovery::ServiceInfo;
use crate::discovery::accepts_any_service;
use crate::discovery::accepts_completion;
use crate::discovery::avahi_protocol_to_service_protocol;
use crate::discovery::avahi_protocol_to_service_protocol_spec;
use crate::transport::Channel;
use crate::transport::receive_message;
use crate::transport::send_message;

verus! {

/// The partially populated record announced by a `New` browse event:
/// the browse step learns where the service lives and what it is
/// called, while address, host name, port and TXT data stay empty
/// until the service is resolved.
pub open spec fn discovered_service_spec(p: BrowseCallbackParameters) -> ServiceInfo {
    ServiceInfo {
        address: None,
        domain: p.domain,
        host_name: None,
        interface: p.interface,
        name: p.name,
        port: 0,
        protocol: avahi_protocol_to_service_protocol_spec(p.protocol),
        service_type: p.service_type,
        txt: None,
    }
}

/// Builds the partially populated record a `New` browse event
/// announces.
pub fn browse_event_to_service(p: BrowseCallbackParameters) -> (s: ServiceInfo)
    ensures
        s == discovered_service_spec(p),
{
    ServiceInfo {
        address: None,
        domain: p.domain,
        host_name: None,
        interface: p.interface,
        name: p.name,
        port: 0,
        protocol: avahi_protocol_to_service_protocol(p.protocol),
        service_type: p.service_type,
        txt: None,
    }
}

/// What the browse loop does with one transport message.
#[derive(Clone, Debug, PartialEq)]
pub enum BrowseAction {
    /// Notify the discovered-service listener and keep browsing.
    Notify(ServiceInfo),
    /// Notify the completion listener and end the browse.
    NotifyAllAndStop,
    /// Keep browsing without notifying anyone.
    Ignore,
    /// End the browse without notifying anyone.
    Stop,
}

/// The action one transport message calls for.  An empty message is
/// the explicit-stop sentinel.
pub open spec fn browse_step_spec(message: Option<BrowseCallbackParameters>) -> BrowseAction {
    match message {
        None => BrowseAction::Stop,
        Some(p) => match p.event {
            AvahiBrowserEvent::New => BrowseAction::Notify(discovered_service_spec(p)),
            AvahiBrowserEvent::AllForNow => BrowseAction::NotifyAllAndStop,
            _ => BrowseAction::Ignore,
        },
    }
}

/// Decides what the browse loop does with one transport message.
pub fn browse_step(message: Option<BrowseCallbackParameters>) -> (action: BrowseAction)
    ensures
        action == browse_step_spec(message),
{
    match message {
        None => BrowseAction::Stop,
        Some(p) => match p.event {
            AvahiBrowserEvent::New => BrowseAction::Notify(browse_event_to_service(p)),
            AvahiBrowserEvent::AllForNow => BrowseAction::NotifyAllAndStop,
            _ => BrowseAction::Ignore,
        },
    }
}

/// Whether a message ends the browse loop.
pub open spec fn browse_ends(message: Option<BrowseCallbackParameters>) -> bool {
    browse_step_spec(message) is NotifyAllAndStop || browse_step_spec(message) is Stop
}

/// How many messages of a stream the browse loop consumes before it
/// returns: everything up to and including the first message that ends
/// the browse, or the whole stream if none does.
pub open spec fn consumed_count(messages: Seq<Option<BrowseCallbackParameters>>) -> int
    decreases messages.len(),
{
    if messages.len() == 0 {
        0
    } else if browse_ends(messages[0]) {
        1
    } else {
        1 + consumed_count(messages.drop_first())
    }
}

/// The prefix of a stream the browse loop actually receives.
pub open spec fn received_prefix(messages: Seq<Option<BrowseCallbackParameters>>) -> Seq<
    Option<BrowseCallbackParameters>,
> {
    messages.take(consumed_count(messages))
}

/// One notification delivered to the discovery listeners.
#[derive(Clone, Debug, PartialEq)]
pub enum BrowseNotification {
    /// The discovered-service listener ran with this record.
    Discovered(ServiceInfo),
    /// The completion listener ran.
    AllDiscovered,
}

/// The notifications the browse loop delivers, in order, for a stream
/// of transport messages.
pub open spec fn browse_notifications(messages: Seq<Option<BrowseCallbackParameters>>) -> Seq<
    BrowseNotification,
>
    decreases messages.len(),
{
    if messages.len() == 0 {
        Seq::empty()
    } else {
        match browse_step_spec(messages[0]) {
            BrowseAction::Notify(s) => seq![BrowseNotification::Discovered(s)]
                + browse_notifications(messages.drop_first()),
            BrowseAction::NotifyAllAndStop => seq![BrowseNotification::AllDiscovered],
            BrowseAction::Ignore => browse_notifications(messages.drop_first()),
            BrowseAction::Stop => Seq::empty(),
        }
    }
}

/// The records announced by the `New` events of a stream, in order.
pub open spec fn new_services(messages: Seq<Option<BrowseCallbackParameters>>) -> Seq<ServiceInfo>
    decreases messages.len(),
{
    if messages.len() == 0 {
        Seq::empty()
    } else {
        let head: Seq<ServiceInfo> = match messages[0] {
            Some(p) => if p.event is New {
                seq![discovered_service_spec(p)]
            } else {
                Seq::empty()
            },
            None => Seq::empty(),
        };
        head + new_services(messages.drop_first())
    }
}

/// The records carried by the discovered-service notifications of a
/// delivery sequence, in order.
pub open spec fn discovered_services(notifications: Seq<BrowseNotification>) -> Seq<ServiceInfo>
    decreases notifications.len(),
{
    if notifications.len() == 0 {
        Seq::empty()
    } else {
        match notifications[0] {
            BrowseNotification::Discovered(s) => seq![s] + discovered_services(
                notifications.drop_first(),
            ),
            BrowseNotification::AllDiscovered => discovered_services(notifications.drop_first()),
        }
    }
}

/// How many completion notifications a delivery sequence holds.
pub open spec fn all_discovered_count(notifications: Seq<BrowseNotification>) -> int
    decreases notifications.len(),
{
    if notifications.len() == 0 {
        0
    } else {
        (if notifications[0] is AllDiscovered {
            1int
        } else {
            0int
        }) + all_discovered_count(notifications.drop_first())
    }
}

/// The browse loop consumes at least one message of a nonempty stream
/// and never more than the whole stream.
pub proof fn lemma_consumed_count_bounds(messages: Seq<Option<BrowseCallbackParameters>>)
    ensures
        0 <= consumed_count(messages) <= messages.len(),
        messages.len() > 0 ==> 1 <= consumed_count(messages),
    decreases messages.len(),
{
    if messages.len() > 0 && !browse_ends(messages[0]) {
        lemma_consumed_count_bounds(messages.drop_first());
    }
}

/// The browse loop stops exactly at the first message that ends the
/// browse: everything received before it keeps the browse going, and
/// the loop runs through the whole stream only when no message ends
/// it.
pub proof fn lemma_received_prefix_shape(messages: Seq<Option<BrowseCallbackParameters>>)
    ensures
        forall|j: int|
            0 <= j < consumed_count(messages) - 1 ==> !browse_ends(#[trigger] messages[j]),
        consumed_count(messages) < messages.len() ==> browse_ends(
            messages[consumed_count(messages) - 1],
        ),
    decreases messages.len(),
{
    lemma_consumed_count_bounds(messages);
    if messages.len() > 0 && !browse_ends(messages[0]) {
        let rest = messages.drop_first();
        lemma_received_prefix_shape(rest);
        lemma_consumed_count_bounds(rest);
        assert forall|j: int| 0 <= j < consumed_count(messages) - 1 implies !browse_ends(
            #[trigger] messages[j],
        ) by {
            if j > 0 {
                assert(messages[j] == rest[j - 1]);
            }
        }
    }
}

/// Distributing `discovered_services` over a sequence that starts with
/// one known notification.
proof fn lemma_discovered_services_cons(x: BrowseNotification, rest: Seq<BrowseNotification>)
    ensures
        discovered_services(seq![x] + rest) == (match x {
            BrowseNotification::Discovered(s) => seq![s] + discovered_services(rest),
            BrowseNotification::AllDiscovered => discovered_services(rest),
        }),
{
    let whole = seq![x] + rest;
    assert(whole[0] == x);
    assert(whole.drop_first() =~= rest);
}

/// Distributing `all_discovered_count` over a sequence that starts
/// with one known notification.
proof fn lemma_all_discovered_count_cons(x: BrowseNotification, rest: Seq<BrowseNotification>)
    ensures
        all_discovered_count(seq![x] + rest) == (if x is AllDiscovered {
            1int
        } else {
            0int
        }) + all_discovered_count(rest),
{
    let whole = seq![x] + rest;
    assert(whole[0] == x);
    assert(whole.drop_first() =~= rest);
}

/// For every stream of transport messages, the browse loop notifies
/// the discovered-service listener once per `New` event it receives,
/// with the announced records, in the order the daemon produced them.
pub proof fn lemma_discovered_once_per_new(messages: Seq<Option<BrowseCallbackParameters>>)
    ensures
        discovered_services(browse_notifications(messages)) == new_services(
            received_prefix(messages),
        ),
    decreases messages.len(),
{
    lemma_consumed_count_bounds(messages);
    if messages.len() == 0 {
        assert(received_prefix(messages) =~= Seq::<Option<BrowseCallbackParameters>>::empty());
    } else if browse_ends(messages[0]) {
        let received = received_prefix(messages);
        assert(received =~= seq![messages[0]]);
        assert(received.drop_first() =~= Seq::<Option<BrowseCallbackParameters>>::empty());
        assert(new_services(Seq::<Option<BrowseCallbackParameters>>::empty())
            == Seq::<ServiceInfo>::empty());
        assert(new_services(received) =~= Seq::<ServiceInfo>::empty());
        match browse_step_spec(messages[0]) {
            BrowseAction::NotifyAllAndStop => {
                let only = seq![BrowseNotification::AllDiscovered];
                assert(only.drop_first() =~= Seq::<BrowseNotification>::empty());
                assert(discovered_services(Seq::<BrowseNotification>::empty())
                    == Seq::<ServiceInfo>::empty());
                assert(discovered_services(only) =~= Seq::<ServiceInfo>::empty());
            },
            _ => {},
        }
    } else {
        let rest = messages.drop_first();
        lemma_consumed_count_bounds(rest);
        lemma_discovered_once_per_new(rest);
        let received = received_prefix(messages);
        assert(received[0] == messages[0]);
        assert(received.drop_first() =~= received_prefix(rest));
        match browse_step_spec(messages[0]) {
            BrowseAction::Notify(s) => {
                lemma_discovered_services_cons(
                    BrowseNotification::Discovered(s),
                    browse_notifications(rest),
                );
                assert(new_services(received) == seq![s] + new_services(received_prefix(rest)));
            },
            BrowseAction::Ignore => {
                assert(new_services(received) =~= new_services(received_prefix(rest)));
            },
            _ => {},
        }
    }
}

/// Whether the message at position `k` is the `AllForNow` event that
/// ends the browse: nothing before it ends the browse first.
pub open spec fn completes_at(messages: Seq<Option<BrowseCallbackParameters>>, k: int) -> bool {
    &&& 0 <= k < messages.len()
    &&& browse_step_spec(messages[k]) is NotifyAllAndStop
    &&& forall|j: int| 0 <= j < k ==> !browse_ends(#[trigger] messages[j])
}

/// A completing `AllForNow` sits one position later in a stream than
/// in that stream without its first message, as long as the first
/// message does not end the browse.
proof fn lemma_completion_witness_shift(messages: Seq<Option<BrowseCallbackParameters>>)
    requires
        messages.len() > 0,
        !browse_ends(messages[0]),
    ensures
        (exists|k: int| completes_at(messages, k)) <==> (exists|k: int|
            completes_at(messages.drop_first(), k)),
{
    let rest = messages.drop_first();
    if exists|k: int| completes_at(rest, k) {
        let k0 = choose|k: int| completes_at(rest, k);
        assert forall|j: int| 0 <= j < k0 + 1 implies !browse_ends(#[trigger] messages[j]) by {
            if j > 0 {
                assert(messages[j] == rest[j - 1]);
            }
        }
        assert(completes_at(messages, k0 + 1));
    }
    if exists|k: int| completes_at(messages, k) {
        let k0 = choose|k: int| completes_at(messages, k);
        assert(k0 > 0);
        assert forall|j: int| 0 <= j < k0 - 1 implies !browse_ends(#[trigger] rest[j]) by {
            assert(rest[j] == messages[j + 1]);
        }
        assert(rest[k0 - 1] == messages[k0]);
        assert(completes_at(rest, k0 - 1));
    }
}

/// For every stream of transport messages, the browse loop notifies
/// the completion listener at most once, and exactly once when the
/// browse ends with an `AllForNow` event.
pub proof fn lemma_all_discovered_at_most_once(messages: Seq<Option<BrowseCallbackParameters>>)
    ensures
        0 <= all_discovered_count(browse_notifications(messages)) <= 1,
        all_discovered_count(browse_notifications(messages)) == 1 <==> exists|k: int|
            completes_at(messages, k),
    decreases messages.len(),
{
    if messages.len() == 0 {
    } else {
        let rest = messages.drop_first();
        lemma_all_discovered_at_most_once(rest);
        match browse_step_spec(messages[0]) {
            BrowseAction::Notify(s) => {
                lemma_all_discovered_count_cons(
                    BrowseNotification::Discovered(s),
                    browse_notifications(rest),
                );
                lemma_completion_witness_shift(messages);
            },
            BrowseAction::NotifyAllAndStop => {
                lemma_all_discovered_count_cons(BrowseNotification::AllDiscovered, Seq::empty());
                assert(seq![BrowseNotification::AllDiscovered] =~= seq![
                    BrowseNotification::AllDiscovered,
                ] + Seq::<BrowseNotification>::empty());
                assert(completes_at(messages, 0));
            },
            BrowseAction::Ignore => {
                lemma_completion_witness_shift(messages);
            },
            BrowseAction::Stop => {
                assert forall|k: int| !completes_at(messages, k) by {
                    if 0 < k < messages.len() {
                        assert(browse_ends(messages[0]));
                    }
                }
            },
        }
    }
}

/// Once the browse has ended, later messages change nothing: the
/// notifications for a stream are the notifications for the prefix the
/// loop actually received.
pub proof fn lemma_notifications_from_received_prefix(
    messages: Seq<Option<BrowseCallbackParameters>>,
)
    ensures
        browse_notifications(messages) == browse_notifications(received_prefix(messages)),
    decreases messages.len(),
{
    lemma_consumed_count_bounds(messages);
    if messages.len() == 0 {
        assert(received_prefix(messages) =~= Seq::<Option<BrowseCallbackParameters>>::empty());
    } else if browse_ends(messages[0]) {
        let received = received_prefix(messages);
        assert(received =~= seq![messages[0]]);
        assert(received.drop_first() =~= Seq::<Option<BrowseCallbackParameters>>::empty());
    } else {
        let rest = messages.drop_first();
        lemma_consumed_count_bounds(rest);
        lemma_notifications_from_received_prefix(rest);
        let received = received_prefix(messages);
        assert(received[0] == messages[0]);
        assert(received.drop_first() =~= received_prefix(rest));
    }
}

/// An explicit stop ends the browse at once: when a stop sentinel
/// arrives and nothing before it ended the browse, the loop consumes
/// the stream exactly through the sentinel, and no notification is
/// delivered for the sentinel or for anything queued after it.
pub proof fn lemma_stop_ends_browse(messages: Seq<Option<BrowseCallbackParameters>>, k: int)
    requires
        0 <= k < messages.len(),
        messages[k] is None,
        forall|j: int| 0 <= j < k ==> !browse_ends(#[trigger] messages[j]),
    ensures
        consumed_count(messages) == k + 1,
        browse_notifications(messages) == browse_notifications(messages.take(k)),
    decreases k,
{
    if k == 0 {
        assert(browse_ends(messages[0]));
        assert(messages.take(0) =~= Seq::<Option<BrowseCallbackParameters>>::empty());
    } else {
        let rest = messages.drop_first();
        assert(rest[k - 1] is None);
        assert forall|j: int| 0 <= j < k - 1 implies !browse_ends(#[trigger] rest[j]) by {
            assert(rest[j] == messages[j + 1]);
        }
        lemma_stop_ends_browse(rest, k - 1);
        assert(!browse_ends(messages[0]));
        let taken = messages.take(k);
        assert(taken[0] == messages[0]);
        assert(taken.drop_first() =~= rest.take(k - 1));
    }
}

/// Replays a finished stream of transport messages and reports the
/// notifications the browse loop delivers for it, in order.
pub fn collect_browse_notifications(messages: Vec<Option<BrowseCallbackParameters>>) -> (
    notifications: Vec<BrowseNotification>)
    ensures
        notifications@ == browse_notifications(messages@),
    decreases messages@.len(),
{
    let ghost original = messages@;
    let mut messages = messages;
    if messages.len() == 0 {
        return Vec::new();
    }
    let head = messages.remove(0);
    proof {
        assert(messages@ =~= original.drop_first());
    }
    match browse_step(head) {
        BrowseAction::Notify(service) => {
            let mut rest = collect_browse_notifications(messages);
            rest.insert(0, BrowseNotification::Discovered(service));
            proof {
                assert(rest@ =~= seq![
                    BrowseNotification::Discovered(discovered_service_spec(head->Some_0)),
                ] + browse_notifications(original.drop_first()));
            }
            rest
        },
        BrowseAction::NotifyAllAndStop => {
            let mut only: Vec<BrowseNotification> = Vec::new();
            only.push(BrowseNotification::AllDiscovered);
            proof {
                assert(only@ =~= seq![BrowseNotification::AllDiscovered]);
            }
            only
        },
        BrowseAction::Ignore => collect_browse_notifications(messages),
        BrowseAction::Stop => Vec::new(),
    }
}

/// Notifies the listeners for each delivery of a finished
/// notification sequence, in order.
pub fn dispatch_browse_notifications<F: Fn(ServiceInfo), G: Fn()>(
    notifications: Vec<BrowseNotification>,
    listeners: DiscoveryListeners<'_, F, G>,
)
    requires
        accepts_any_service(listeners.on_service_discovered),
        accepts_completion(listeners.on_all_discovered),
{
    let mut remaining = notifications;
    while remaining.len() > 0
        invariant
            accepts_any_service(listeners.on_service_discovered),
            accepts_completion(listeners.on_all_discovered),
        decreases remaining@.len(),
    {
        let head = remaining.remove(0);
        match head {
            BrowseNotification::Discovered(service) => {
                if let Some(callback) = listeners.on_service_discovered {
                    callback(service);
                }
            },
            BrowseNotification::AllDiscovered => {
                if let Some(callback) = listeners.on_all_discovered {
                    callback();
                }
            },
        }
    }
}

/// Replays a finished stream of transport messages against the
/// listeners: every notification the browse loop would deliver for the
/// stream is delivered, in order.
pub fn replay_browse_stream<F: Fn(ServiceInfo), G: Fn()>(
    messages: Vec<Option<BrowseCallbackParameters>>,
    listeners: DiscoveryListeners<'_, F, G>,
)
    requires
        accepts_any_service(listeners.on_service_discovered),
        accepts_completion(listeners.on_all_discovered),
{
    let notifications = collect_browse_notifications(messages);
    dispatch_browse_notifications(notifications, listeners);
}

/// Blocks for one message on a browse transport and notifies the
/// listeners as `browse_step` directs.  Reports whether the browse has
/// ended: by an `AllForNow` event, by the explicit-stop sentinel, or
/// because every sending half of the transport is gone.  The caller
/// keeps invoking this until it reports the end.
pub fn browse_transport_step<F: Fn(ServiceInfo), G: Fn()>(
    transport: &Channel<Option<BrowseCallbackParameters>>,
    listeners: &DiscoveryListeners<'_, F, G>,
) -> (ended: bool)
    requires
        accepts_any_service(listeners.on_service_discovered),
        accepts_completion(listeners.on_all_discovered),
{
    let message = match receive_message(&transport.receiver) {
        Some(m) => m,
        None => None,
    };
    match browse_step(message) {
        BrowseAction::Notify(service) => {
            if let Some(callback) = listeners.on_service_discovered {
                callback(service);
            }
            false
        },
        BrowseAction::NotifyAllAndStop => {
            if let Some(callback) = listeners.on_all_discovered {
                callback();
            }
            true
        },
        BrowseAction::Ignore => false,
        BrowseAction::Stop => true,
    }
}

/// Queues the explicit-stop sentinel so that a discovery call blocked
/// on this transport returns; reports whether a receiving half was
/// still there to see it.
pub fn push_stop_sentinel(
    sender: &std::sync::mpsc::Sender<Option<BrowseCallbackParameters>>,
) -> (queued: bool) {
    send_message(sender, None)
}

} // verus!
