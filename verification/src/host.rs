//! The host name controller.
//!
//! Validation and alternative-name generation are pure string
//! transforms; querying and setting the name and publishing an alias
//! are daemon round-trips.  Setting the name drives a collision-
//! resolution wait: the daemon acknowledges the request by moving
//! through `Registering` and back to `Running`, and only that ordered
//! pair of transitions counts as completion — a `Running` report that
//! precedes any `Registering` belongs to the state the session was
//! already in.  Publishing an alias encodes the machine's
//! fully-qualified name as CNAME record data: each dot-separated label
//! as its length followed by its bytes, the whole terminated by a zero
//! byte.

use vstd::prelude::*;
use vstd::string::StringSliceAdditionalSpecFns;
use vstd::utf8::encode_utf8_decode_utf8;

use crate::adapter::HostAdapter;
use crate::avahi::AvahiClientState;
use crate::callbacks::ClientCallbackParameters;
use crate::errors::Error;
use crate::fake::FakeAdapter;
use crate::transport::Channel;
use crate::transport::receive_message;

verus! {

/// The dot that separates the labels of a domain name, as a byte.
pub const LABEL_SEPARATOR: u8 = 46;

/// Two byte slices hold the same bytes.
pub fn bytes_equal(a: &[u8], b: &[u8]) -> (r: bool)
    ensures
        r == (a@ == b@),
{
    if a.len() != b.len() {
        return false;
    }
    let mut i: usize = 0;
    while i < a.len()
        invariant
            a@.len() == b@.len(),
            0 <= i <= a@.len(),
            forall|j: int| 0 <= j < i ==> a@[j] == b@[j],
        decreases a@.len() - i,
    {
        if a[i] != b[i] {
            return false;
        }
        i += 1;
    }
    proof {
        assert(a@ =~= b@);
    }
    true
}

/// Two strings hold the same text.
pub fn str_equal(a: &str, b: &str) -> (r: bool)
    ensures
        r == (a@ == b@),
{
    let r = bytes_equal(a.as_bytes(), b.as_bytes());
    proof {
        if a.spec_bytes() == b.spec_bytes() {
            encode_utf8_decode_utf8(a@);
            encode_utf8_decode_utf8(b@);
        }
    }
    r
}

/// Where the first label of a byte-encoded name ends: the index of the
/// first separator, or the whole length if there is none.
pub open spec fn label_end(bytes: Seq<u8>) -> nat
    decreases bytes.len(),
{
    if bytes.len() == 0 {
        0
    } else if bytes[0] == LABEL_SEPARATOR {
        0
    } else {
        1 + label_end(bytes.drop_first())
    }
}

/// Any index with the properties of `label_end` is `label_end`.
proof fn lemma_label_end_unique(bytes: Seq<u8>, j: int)
    requires
        0 <= j <= bytes.len(),
        forall|i: int| 0 <= i < j ==> bytes[i] != LABEL_SEPARATOR,
        j < bytes.len() ==> bytes[j] == LABEL_SEPARATOR,
    ensures
        label_end(bytes) == j,
    decreases bytes.len(),
{
    if bytes.len() == 0 {
    } else if bytes[0] == LABEL_SEPARATOR {
        assert(j == 0);
    } else {
        let rest = bytes.drop_first();
        assert(j > 0);
        assert forall|i: int| 0 <= i < j - 1 implies rest[i] != LABEL_SEPARATOR by {
            assert(rest[i] == bytes[i + 1]);
        }
        lemma_label_end_unique(rest, j - 1);
    }
}

/// The length-prefixed labels of a byte-encoded name: each label as
/// one length byte (the label's length, reduced modulo 256 as the wire
/// format holds only a byte) followed by the label's bytes.
pub open spec fn cname_labels(bytes: Seq<u8>) -> Seq<u8>
    decreases bytes.len(),
{
    let end = label_end(bytes);
    let encoded = seq![end as u8] + bytes.take(end as int);
    if end >= bytes.len() {
        encoded
    } else {
        encoded + cname_labels(bytes.skip(end as int + 1))
    }
}

/// The CNAME record data for a byte-encoded name: its length-prefixed
/// labels terminated by a zero byte.
pub open spec fn cname_rdata_spec(bytes: Seq<u8>) -> Seq<u8> {
    cname_labels(bytes) + seq![0u8]
}

/// Appends the length-prefixed labels of `bytes[from..]` to `rdata`.
fn encode_labels(bytes: &[u8], from: usize, rdata: &mut Vec<u8>)
    requires
        from <= bytes@.len(),
    ensures
        final(rdata)@ == old(rdata)@ + cname_labels(bytes@.skip(from as int)),
    decreases bytes@.len() - from,
{
    let ghost s = bytes@.skip(from as int);
    let ghost opening = rdata@;
    let mut k: usize = from;
    while k < bytes.len() && bytes[k] != LABEL_SEPARATOR
        invariant
            from <= k <= bytes@.len(),
            forall|j: int| from <= j < k ==> bytes@[j] != LABEL_SEPARATOR,
        decreases bytes@.len() - k,
    {
        k += 1;
    }
    proof {
        assert forall|i: int| 0 <= i < k - from implies s[i] != LABEL_SEPARATOR by {
            assert(s[i] == bytes@[from + i]);
        }
        lemma_label_end_unique(s, k - from);
    }
    rdata.push(#[verifier::truncate] ((k - from) as u8));
    let ghost prefixed = rdata@;
    let mut j: usize = from;
    while j < k
        invariant
            from <= j <= k <= bytes@.len(),
            rdata@ == prefixed + bytes@.subrange(from as int, j as int),
        decreases k - j,
    {
        rdata.push(bytes[j]);
        proof {
            assert(rdata@ =~= prefixed + bytes@.subrange(from as int, j + 1 as int));
        }
        j += 1;
    }
    proof {
        assert(s.take((k - from) as int) =~= bytes@.subrange(from as int, k as int));
        assert(prefixed == opening.push(((k - from) as nat) as u8));
        assert(rdata@ =~= opening + (seq![((k - from) as nat) as u8] + s.take(
            (k - from) as int,
        )));
        assert(((k - from) as nat) as u8 == label_end(s) as u8);
    }
    if k < bytes.len() {
        encode_labels(bytes, k + 1, rdata);
        proof {
            assert(s.skip((k - from + 1) as int) =~= bytes@.skip(k + 1 as int));
        }
    }
}

/// Builds the CNAME record data for a byte-encoded name.
pub fn cname_rdata_from_bytes(bytes: &[u8]) -> (rdata: Vec<u8>)
    ensures
        rdata@ == cname_rdata_spec(bytes@),
{
    let mut rdata: Vec<u8> = Vec::new();
    encode_labels(bytes, 0, &mut rdata);
    rdata.push(0);
    proof {
        assert(bytes@.skip(0) =~= bytes@);
        assert(rdata@ =~= Seq::<u8>::empty() + cname_labels(bytes@) + seq![0u8]);
        assert(Seq::<u8>::empty() + cname_labels(bytes@) + seq![0u8] =~= cname_rdata_spec(
            bytes@,
        ));
    }
    rdata
}

/// Builds the CNAME record data that publishes a fully-qualified name:
/// each dot-separated label length-prefixed, the whole terminated by a
/// zero byte.
pub fn name_fqdn_to_cname_rdata(name_fqdn: &str) -> (rdata: Vec<u8>)
    ensures
        rdata@ == cname_rdata_spec(name_fqdn.spec_bytes()),
{
    cname_rdata_from_bytes(name_fqdn.as_bytes())
}

/// How far a set-name request has come through the daemon's
/// collision-resolution protocol.
#[derive(Clone, Copy, Debug, PartialEq, Eq, Structural)]
pub enum NameChangeProgress {
    /// The request was issued; the daemon has yet to start
    /// re-registering under the new name.
    AwaitingRegistering,
    /// Re-registration has started; the daemon has yet to come back
    /// up.
    AwaitingRunning,
    /// The daemon is running under the finally accepted name.
    Applied,
}

/// How one reported client state advances the wait.  A `Running`
/// report counts as completion only after a `Registering` report has
/// been seen: before that it describes the state the session was
/// already in when the request was issued.
pub open spec fn name_change_step_spec(
    progress: NameChangeProgress,
    state: AvahiClientState,
) -> NameChangeProgress {
    match progress {
        NameChangeProgress::AwaitingRegistering => if state is Registering {
            NameChangeProgress::AwaitingRunning
        } else {
            NameChangeProgress::AwaitingRegistering
        },
        NameChangeProgress::AwaitingRunning => if state is Running {
            NameChangeProgress::Applied
        } else {
            NameChangeProgress::AwaitingRunning
        },
        NameChangeProgress::Applied => NameChangeProgress::Applied,
    }
}

/// Advances the wait by one reported client state.
pub fn name_change_step(progress: NameChangeProgress, state: AvahiClientState) -> (next:
    NameChangeProgress)
    ensures
        next == name_change_step_spec(progress, state),
{
    match progress {
        NameChangeProgress::AwaitingRegistering => {
            match state {
                AvahiClientState::Registering => NameChangeProgress::AwaitingRunning,
                _ => NameChangeProgress::AwaitingRegistering,
            }
        },
        NameChangeProgress::AwaitingRunning => {
            match state {
                AvahiClientState::Running => NameChangeProgress::Applied,
                _ => NameChangeProgress::AwaitingRunning,
            }
        },
        NameChangeProgress::Applied => NameChangeProgress::Applied,
    }
}

/// The wait after a whole sequence of reported client states, started
/// from the freshly issued request.
pub open spec fn name_change_progress_after(states: Seq<AvahiClientState>) -> NameChangeProgress
    decreases states.len(),
{
    if states.len() == 0 {
        NameChangeProgress::AwaitingRegistering
    } else {
        name_change_step_spec(name_change_progress_after(states.drop_last()), states.last())
    }
}

/// A `Running` report received before any `Registering` does not
/// complete the wait: the session was already running when the request
/// was issued.
pub proof fn lemma_running_alone_is_not_completion()
    ensures
        name_change_step_spec(
            NameChangeProgress::AwaitingRegistering,
            AvahiClientState::Running,
        ) == NameChangeProgress::AwaitingRegistering,
{
}

/// Once past the request's own phase, a `Registering` report has been
/// seen.
proof fn lemma_past_registering_saw_registering(states: Seq<AvahiClientState>)
    ensures
        name_change_progress_after(states) !is AwaitingRegistering ==> exists|i: int|
            0 <= i < states.len() && states[i] is Registering,
    decreases states.len(),
{
    if states.len() > 0 {
        let prefix = states.drop_last();
        lemma_past_registering_saw_registering(prefix);
        if name_change_progress_after(states) !is AwaitingRegistering {
            if name_change_progress_after(prefix) !is AwaitingRegistering {
                let i0 = choose|i: int| 0 <= i < prefix.len() && prefix[i] is Registering;
                assert(states[i0] is Registering);
            } else {
                assert(states[states.len() - 1] is Registering);
            }
        }
    }
}

/// The wait completes only after observing a `Registering` report and,
/// later, a `Running` report: the daemon's ordered transition sequence
/// for an accepted name change.
pub proof fn lemma_completion_needs_registering_then_running(states: Seq<AvahiClientState>)
    ensures
        name_change_progress_after(states) is Applied ==> exists|i: int, j: int|
            0 <= i < j < states.len() && states[i] is Registering && states[j] is Running,
    decreases states.len(),
{
    if states.len() > 0 && name_change_progress_after(states) is Applied {
        let prefix = states.drop_last();
        lemma_completion_needs_registering_then_running(prefix);
        if name_change_progress_after(prefix) is Applied {
            let (i0, j0) = choose|i: int, j: int|
                0 <= i < j < prefix.len() && prefix[i] is Registering && prefix[j] is Running;
            assert(states[i0] is Registering && states[j0] is Running);
            assert(0 <= i0 < j0 < states.len());
        } else {
            assert(name_change_progress_after(prefix) is AwaitingRunning);
            assert(states.last() is Running);
            lemma_past_registering_saw_registering(prefix);
            let i0 = choose|i: int| 0 <= i < prefix.len() && prefix[i] is Registering;
            let j0 = states.len() - 1;
            assert(states[i0] is Registering && states[j0] is Running);
            assert(0 <= i0 < j0 < states.len());
        }
    }
}

/// Blocks for one message on the client-state transport and advances
/// the collision-resolution wait with it.  `None` means every sending
/// half of the transport is gone and the wait can never complete.  The
/// caller keeps invoking this until the progress is `Applied` or the
/// transport is lost.
pub fn name_change_transport_step(
    transport: &Channel<ClientCallbackParameters>,
    progress: NameChangeProgress,
) -> (next: Option<NameChangeProgress>)
    ensures
        next matches Some(after) ==> exists|state: AvahiClientState|
            after == name_change_step_spec(progress, state),
{
    match receive_message(&transport.receiver) {
        Some(report) => {
            let after = name_change_step(progress, report.state);
            proof {
                assert(after == name_change_step_spec(progress, report.state));
            }
            Some(after)
        },
        None => None,
    }
}

/// Decides whether a set-name request needs a daemon round-trip: a
/// request for the name the machine already has is already satisfied
/// and completes at once, without waiting for any state transition.
pub fn set_name_plan(requested: &str, current: &str) -> (already_set: bool)
    ensures
        already_set == (requested@ == current@),
{
    str_equal(requested, current)
}

/// Decides what publishing a name alias takes: an alias equal to the
/// current host name needs nothing, and any other alias is published
/// as a CNAME record whose data encodes the current fully-qualified
/// name.
pub fn add_name_alias_plan(alias: &str, current_name: &str, name_fqdn: &str) -> (plan: Option<
    Vec<u8>,
>)
    ensures
        alias@ == current_name@ ==> plan is None,
        alias@ != current_name@ ==> (plan matches Some(rdata) && rdata@ == cname_rdata_spec(
            name_fqdn.spec_bytes(),
        )),
{
    if str_equal(alias, current_name) {
        None
    } else {
        Some(name_fqdn_to_cname_rdata(name_fqdn))
    }
}

/// The alternative-name transform applied when a name is taken.
pub open spec fn alternative_name_spec(name: Seq<char>) -> Seq<char> {
    name + "-2"@
}

/// The alternative-name transform is a pure function of the name:
/// equal names always yield equal alternatives, within and across
/// calls.
pub proof fn lemma_alternative_name_deterministic(a: Seq<char>, b: Seq<char>)
    requires
        a == b,
    ensures
        alternative_name_spec(a) == alternative_name_spec(b),
{
}

/// The application-facing host-name manager.
pub struct HostManager {
    adapter: FakeAdapter,
}

impl HostManager {
    pub fn new() -> (manager: HostManager) {
        HostManager { adapter: FakeAdapter {  } }
    }

    /// The machine's current advertised host name.
    pub fn get_name(&self) -> (r: Result<String, Error>)
        ensures
            r matches Ok(name) && name@ == "fake"@,
    {
        self.adapter.get_name()
    }

    /// Requests a new host name and reports the name that was finally
    /// accepted.  A request for the current name is returned as it is,
    /// without any daemon round-trip.
    pub fn set_name(&self, name: &str) -> (r: Result<String, Error>)
        ensures
            r matches Ok(accepted) && accepted@ == name@,
    {
        self.adapter.set_name(name)
    }

    /// Whether the name's syntax is acceptable as a host name.
    pub fn is_valid_name(&self, name: &str) -> (r: Result<bool, Error>)
        ensures
            r matches Ok(valid) && valid,
    {
        self.adapter.is_valid_name(name)
    }

    /// A collision-free alternative for a taken name.  This is a pure
    /// string transform: it takes the manager immutably, changes no
    /// session or daemon state, and equal inputs always produce equal
    /// outputs.
    pub fn get_alternative_name(&self, name: &str) -> (r: Result<String, Error>)
        ensures
            r matches Ok(alternative) && alternative@ == alternative_name_spec(name@),
    {
        self.adapter.get_alternative_name(name)
    }

    /// Publishes the given name as an alias of the current host name.
    pub fn add_name_alias(&self, name: &str) -> (r: Result<(), Error>)
        ensures
            r is Ok,
    {
        self.adapter.add_name_alias(name)
    }

    /// Advertises a service of the given name, type and port.
    pub fn announce_service(&self, name: &str, service_type: &str, port: u16) -> (r: Result<
        (),
        Error,
    >)
        ensures
            r is Ok,
    {
        self.adapter.announce_service(name, service_type, port)
    }
}

impl Default for HostManager {
    fn default() -> (manager: HostManager) {
        HostManager::new()
    }
}

} // verus!
