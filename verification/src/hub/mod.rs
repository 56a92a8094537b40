//! The connection-authenticated hub: the authentication that every
//! connection passes, the admission of schedulers and workers, and the end
//! of their sessions.

pub mod api;
pub mod job;
pub mod laws;
pub mod rpc;
pub mod session;
pub mod transport;
pub mod worker;

use crate::hub::api::{ConnectHubRequest, ConnectHubRequestView, worker_record};
use crate::hub::session::{Ending, HubImpl, SessionView, terminated};
use crate::hub::worker::{RegistryView, StoreStatus, WorkerRegistry, with_worker, without_addr};
use crate::text::str_eq;
use vstd::prelude::*;

verus! {

/// What is decided about a connection before it is upgraded.
#[derive(Clone, Copy, Debug, PartialEq, Eq, Structural)]
pub enum AuthDecision {
    Authorized,
    Unauthorized,
}

/// Why a connection was turned away.
#[derive(Clone, Copy, Debug, PartialEq, Eq, Structural)]
pub enum ConnectError {
    /// The credential was missing, the registration token could not be
    /// read, or the two differ.
    Unauthorized,
    /// The peer asked to be a worker and could not be registered.
    RegistrationFailed,
}

/// The credential a peer presented, as a mathematical value.
pub open spec fn presented(credential: Option<&str>) -> Option<Seq<char>> {
    match credential {
        Some(text) => Some(text@),
        None => None,
    }
}

/// The registration token as it was read for one attempt: `None` when the
/// read failed.
pub open spec fn token_read<E>(registration_token: Result<String, E>) -> Option<Seq<char>> {
    match registration_token {
        Ok(token) => Some(token@),
        Err(_) => None,
    }
}

/// The rule of authentication: a credential is there, the token was
/// read, and both are the same text.
pub open spec fn credential_accepted(
    credential: Option<Seq<char>>,
    token: Option<Seq<char>>,
) -> bool {
    credential is Some && token is Some && credential->0 == token->0
}

/// Admission of an authorized peer: a scheduler gets a session and leaves
/// the registry alone; a worker is registered under the address made of
/// its origin and declared port, or turned away when that fails.
pub open spec fn admitted(
    registry: RegistryView,
    intent: ConnectHubRequestView,
    origin: Seq<char>,
    now: u64,
    store: StoreStatus,
) -> (RegistryView, Result<SessionView, ConnectError>) {
    match intent {
        ConnectHubRequestView::Scheduler => (
            registry,
            Ok(SessionView { worker_addr: None, terminated: false }),
        ),
        ConnectHubRequestView::Worker(descriptor) => match store {
            StoreStatus::Reachable => {
                let worker = worker_record(descriptor, origin, now);
                (
                    with_worker(registry, worker),
                    Ok(SessionView { worker_addr: Some(worker.addr), terminated: false }),
                )
            },
            StoreStatus::Unreachable => (registry, Err(ConnectError::RegistrationFailed)),
        },
    }
}

/// The whole handshake: authentication first, admission only behind it.
pub open spec fn handshake(
    registry: RegistryView,
    credential: Option<Seq<char>>,
    token: Option<Seq<char>>,
    intent: ConnectHubRequestView,
    origin: Seq<char>,
    now: u64,
    store: StoreStatus,
) -> (RegistryView, Result<SessionView, ConnectError>) {
    if credential_accepted(credential, token) {
        admitted(registry, intent, origin, now, store)
    } else {
        (registry, Err(ConnectError::Unauthorized))
    }
}

/// The registry once `session` has been told to end.
pub open spec fn departed(
    registry: RegistryView,
    session: SessionView,
    cause: Ending,
) -> RegistryView {
    match terminated(session, cause).1 {
        Some(addr) => without_addr(registry, addr),
        None => registry,
    }
}

/// The mathematical value of an admission's outcome.
pub open spec fn outcome_view<C>(outcome: Result<HubImpl<C>, ConnectError>) -> Result<
    SessionView,
    ConnectError,
> {
    match outcome {
        Ok(session) => Ok(session@),
        Err(error) => Err(error),
    }
}

/// Decides whether a connection may be upgraded. `registration_token` is
/// the token as it was read for this very attempt.
pub fn authorize<E>(credential: Option<&str>, registration_token: &Result<String, E>) -> (decision:
    AuthDecision)
    ensures
        decision == AuthDecision::Authorized <==> credential_accepted(
            presented(credential),
            token_read(*registration_token),
        ),
{
    match credential {
        None => AuthDecision::Unauthorized,
        Some(text) => match registration_token {
            Err(_) => AuthDecision::Unauthorized,
            Ok(token) => if str_eq(text, token.as_str()) {
                AuthDecision::Authorized
            } else {
                AuthDecision::Unauthorized
            },
        },
    }
}

impl ConnectError {
    /// The HTTP status that tells the peer about the refusal.
    pub fn status_code(&self) -> (code: u16)
        ensures
            code == match *self {
                ConnectError::Unauthorized => 401u16,
                ConnectError::RegistrationFailed => 500u16,
            },
    {
        match self {
            ConnectError::Unauthorized => 401,
            ConnectError::RegistrationFailed => 500,
        }
    }
}

/// What a peer presents when it asks for an upgrade.
#[derive(Debug)]
pub struct UpgradeRequest {
    pub credential: Option<String>,
    pub intent: ConnectHubRequest,
    pub origin: String,
}

impl UpgradeRequest {
    /// The credential of the request, as a mathematical value.
    pub open spec fn credential_view(&self) -> Option<Seq<char>> {
        match self.credential {
            Some(text) => Some(text@),
            None => None,
        }
    }
}

/// The hub: it owns the worker registry, and nothing else that changes.
#[derive(Debug)]
pub struct Hub {
    workers: WorkerRegistry,
}

impl View for Hub {
    type V = RegistryView;

    closed spec fn view(&self) -> RegistryView {
        self.workers@
    }
}

impl Hub {
    /// A hub with no worker attached.
    pub fn new() -> (hub: Hub)
        ensures
            hub@ == RegistryView::empty(),
    {
        Hub { workers: WorkerRegistry::new() }
    }

    /// The registry, to look workers up.
    pub fn workers(&self) -> (workers: &WorkerRegistry)
        ensures
            workers@ == self@,
    {
        &self.workers
    }

    /// Admits a peer whose connection has been authorized and upgraded. A
    /// worker is in the registry before its session exists.
    pub fn open_session<C>(
        &mut self,
        ctx: C,
        intent: ConnectHubRequest,
        origin: String,
        now: u64,
        store: StoreStatus,
    ) -> (outcome: Result<HubImpl<C>, ConnectError>)
        ensures
            (final(self)@, outcome_view(outcome)) == admitted(
                old(self)@,
                intent@,
                origin@,
                now,
                store,
            ),
            outcome matches Ok(session) ==> session.context() == ctx,
    {
        match intent {
            ConnectHubRequest::Scheduler => Ok(HubImpl::new(ctx, None)),
            ConnectHubRequest::Worker(descriptor) => {
                let worker = descriptor.into_worker(origin, now);
                let addr = worker.addr.clone();
                match self.workers.register(worker, store) {
                    Ok(()) => Ok(HubImpl::new(ctx, Some(addr))),
                    Err(_) => Err(ConnectError::RegistrationFailed),
                }
            },
        }
    }

    /// The handshake in one call: authentication, then admission. A
    /// connection that is not authorized changes nothing.
    pub fn connect<C, E>(
        &mut self,
        ctx: C,
        request: UpgradeRequest,
        registration_token: &Result<String, E>,
        now: u64,
        store: StoreStatus,
    ) -> (outcome: Result<HubImpl<C>, ConnectError>)
        ensures
            (final(self)@, outcome_view(outcome)) == handshake(
                old(self)@,
                request.credential_view(),
                token_read(*registration_token),
                request.intent@,
                request.origin@,
                now,
                store,
            ),
            outcome matches Ok(session) ==> session.context() == ctx,
    {
        let credential = match &request.credential {
            Some(text) => Some(text.as_str()),
            None => None,
        };
        match authorize(credential, registration_token) {
            AuthDecision::Unauthorized => Err(ConnectError::Unauthorized),
            AuthDecision::Authorized => self.open_session(
                ctx,
                request.intent,
                request.origin,
                now,
                store,
            ),
        }
    }

    /// Ends `session` and takes its worker, if it has one and has not
    /// ended before, out of the registry.
    pub fn close_session<C>(&mut self, session: &mut HubImpl<C>, cause: Ending)
        ensures
            final(session)@ == terminated(old(session)@, cause).0,
            final(session).context() == old(session).context(),
            final(self)@ == departed(old(self)@, old(session)@, cause),
    {
        match session.terminate(cause) {
            Some(addr) => self.workers.unregister(&addr),
            None => {},
        }
    }
}

} // verus!
