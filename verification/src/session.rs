//! The session lifecycle manager's state machine.
//!
//! A session owns at most one native client handle and one native
//! event-loop handle, created together and destroyed together, and at
//! most one active browser handle at a time.  The native handles are
//! opaque; the bridge refers to each through an integer token issued
//! by the registry that performs the foreign calls, and this state
//! machine decides, for every lifecycle operation, which tokens to
//! create, keep and release.  The decisions are idempotent where the
//! operations must be: making a ready session ready again, stopping a
//! browse that is not running and tearing down a session twice all
//! leave the state untouched.

use vstd::prelude::*;

use crate::callbacks::ClientCallbackParameters;
use crate::errors::Error;
use crate::transport::Channel;
use crate::transport::receive_message;

verus! {

/// The handle tokens a session holds.
#[derive(Clone, Copy, Debug, PartialEq, Eq, Structural)]
pub struct SessionState {
    /// The event-loop handle driving the daemon connection.
    pub poll: Option<u64>,
    /// The client handle bound to the event loop.
    pub client: Option<u64>,
    /// The browser handle of the active browse, if one is running.
    pub service_browser: Option<u64>,
}

/// What a teardown asks the handle registry to release.
#[derive(Clone, Copy, Debug, PartialEq, Eq, Structural)]
pub enum TeardownPlan {
    /// Nothing is held, so there is nothing to release.
    AlreadyClean,
    /// Stop the event loop, free the client (which cascades to every
    /// browser and resolver the daemon still tracks for it), then free
    /// the event-loop handle.
    Release { poll: u64, client: u64 },
}

impl SessionState {
    /// The client and event-loop handles exist only together, and a
    /// browse cannot outlive the client it was registered on.
    pub open spec fn well_formed(&self) -> bool {
        &&& (self.poll is Some <==> self.client is Some)
        &&& (self.service_browser is Some ==> self.client is Some)
    }

    /// A session that holds nothing yet.
    pub fn new() -> (s: SessionState)
        ensures
            s == (SessionState { poll: None, client: None, service_browser: None }),
            s.well_formed(),
    {
        SessionState { poll: None, client: None, service_browser: None }
    }

    /// Whether the session is ready for daemon operations.  Readying a
    /// ready session is a no-op: callers initialize only when this is
    /// false.
    pub fn is_ready(&self) -> (ready: bool)
        ensures
            ready == (self.client is Some),
    {
        self.client.is_some()
    }

    /// Records the freshly created event-loop and client handles.
    pub fn install_handles(&mut self, poll: u64, client: u64)
        requires
            old(self).well_formed(),
            old(self).client is None,
        ensures
            *final(self) == (SessionState {
                poll: Some(poll),
                client: Some(client),
                service_browser: None,
            }),
            final(self).well_formed(),
    {
        self.poll = Some(poll);
        self.client = Some(client);
        self.service_browser = None;
    }

    /// Records the browser handle of a browse that just started.  A
    /// previous browse must have been stopped first: the daemon would
    /// happily hand out a second browser handle, but its lifetime
    /// would no longer be tracked here.
    pub fn begin_browse(&mut self, browser: u64)
        requires
            old(self).well_formed(),
            old(self).client is Some,
            old(self).service_browser is None,
        ensures
            *final(self) == (SessionState { service_browser: Some(browser), ..*old(self) }),
            final(self).well_formed(),
    {
        self.service_browser = Some(browser);
    }

    /// Forgets the active browser handle and reports it so the caller
    /// can release it.  With no browse active this is a no-op: the
    /// state is untouched and there is nothing to release.
    pub fn end_browse(&mut self) -> (freed: Option<u64>)
        requires
            old(self).well_formed(),
        ensures
            freed == old(self).service_browser,
            *final(self) == (SessionState { service_browser: None, ..*old(self) }),
            old(self).service_browser is None ==> *final(self) == *old(self),
            final(self).well_formed(),
    {
        let freed = self.service_browser;
        self.service_browser = None;
        freed
    }

    /// Clears every handle slot and reports what to release.  Tearing
    /// down a session that holds nothing is a no-op, so the operation
    /// is safe to repeat and safe on the owner's destruction path.
    pub fn teardown(&mut self) -> (plan: TeardownPlan)
        requires
            old(self).well_formed(),
        ensures
            *final(self) == (SessionState { poll: None, client: None, service_browser: None }),
            final(self).well_formed(),
            old(self).client is None ==> plan is AlreadyClean && *final(self) == *old(self),
            old(self).client matches Some(c) ==> (plan matches TeardownPlan::Release {
                poll,
                client,
            } && client == c && old(self).poll == Some(poll)),
    {
        match (self.poll, self.client) {
            (Some(poll), Some(client)) => {
                self.poll = None;
                self.client = None;
                self.service_browser = None;
                TeardownPlan::Release { poll, client }
            },
            _ => {
                self.poll = None;
                self.client = None;
                self.service_browser = None;
                TeardownPlan::AlreadyClean
            },
        }
    }
}

/// Classifies the daemon's answer to a client-creation request: a
/// nonzero error code, or no handle at all, is a creation failure that
/// is reported and not retried.
pub fn client_creation_check(error_code: i32, handle: Option<u64>, description: String) -> (r:
    Result<u64, Error>)
    ensures
        handle matches Some(h) ==> error_code == 0 ==> (r matches Ok(token) && token == h),
        (error_code != 0 || handle is None) ==> (r matches Err(e) && e matches
            Error::AdapterFailure(m) && m@ == description@),
{
    match handle {
        Some(token) => {
            if error_code == 0 {
                Ok(token)
            } else {
                Err(Error::AdapterFailure(description))
            }
        },
        None => Err(Error::AdapterFailure(description)),
    }
}

/// What one client-state message means to a thread waiting for the
/// session to come up.
#[derive(Clone, Copy, Debug, PartialEq, Eq, Structural)]
pub enum ClientWaitOutcome {
    /// The daemon reported `Running`: the session is ready.
    Ready,
    /// Some other state was reported; keep waiting.
    NotYet,
    /// Every sending half of the transport is gone; nothing more will
    /// ever arrive.
    Lost,
}

/// The meaning of one message on the client-state transport for a
/// thread waiting for the first `Running` report.
pub open spec fn client_wait_decision_spec(message: Option<ClientCallbackParameters>) -> ClientWaitOutcome {
    match message {
        Some(p) => if p.state is Running {
            ClientWaitOutcome::Ready
        } else {
            ClientWaitOutcome::NotYet
        },
        None => ClientWaitOutcome::Lost,
    }
}

/// Decides what one client-state message means to a waiting thread.
pub fn client_wait_decision(message: Option<ClientCallbackParameters>) -> (outcome:
    ClientWaitOutcome)
    ensures
        outcome == client_wait_decision_spec(message),
{
    match message {
        Some(p) => match p.state {
            crate::avahi::AvahiClientState::Running => ClientWaitOutcome::Ready,
            _ => ClientWaitOutcome::NotYet,
        },
        None => ClientWaitOutcome::Lost,
    }
}

/// Blocks for one message on the client-state transport and reports
/// what it means to a thread waiting for the session to come up.  The
/// caller keeps invoking this until the outcome is `Ready` or `Lost`.
pub fn client_ready_step(transport: &Channel<ClientCallbackParameters>) -> (outcome:
    ClientWaitOutcome) {
    client_wait_decision(receive_message(&transport.receiver))
}

} // verus!
