//! One session for each accepted connection.

use crate::hub::api::{WorkerAddr, WorkerAddrView};
use vstd::prelude::*;

verus! {

/// Mathematical value of a session: the address it registered, if it
/// belongs to a worker, and whether it has ended.
pub struct SessionView {
    pub worker_addr: Option<WorkerAddrView>,
    pub terminated: bool,
}

/// How a connection came to its end.
#[derive(Clone, Copy, Debug, PartialEq, Eq, Structural)]
pub enum Ending {
    /// The peer closed the connection.
    PeerClosed,
    /// The transport failed.
    TransportFailed,
    /// The session was discarded, as when the server shuts down.
    Discarded,
}

/// What ending a session does, whatever the cause: the session is over
/// from then on, and the address to take out of the registry is named by
/// the first ending only.
pub open spec fn terminated(session: SessionView, cause: Ending) -> (
    SessionView,
    Option<WorkerAddrView>,
) {
    (
        SessionView { worker_addr: session.worker_addr, terminated: true },
        if session.terminated {
            None
        } else {
            session.worker_addr
        },
    )
}

/// The addresses named, in order, when a session is told to end once for
/// each of `endings`.
pub open spec fn deregistrations(session: SessionView, endings: Seq<Ending>) -> Seq<
    WorkerAddrView,
>
    decreases endings.len(),
{
    if endings.len() == 0 {
        Seq::empty()
    } else {
        let (after, named) = terminated(session, endings.first());
        let later = deregistrations(after, endings.drop_first());
        match named {
            Some(addr) => seq![addr] + later,
            None => later,
        }
    }
}

/// The mathematical value of an optional address.
pub open spec fn addr_view(addr: Option<WorkerAddr>) -> Option<WorkerAddrView> {
    match addr {
        Some(addr) => Some(addr@),
        None => None,
    }
}

/// The hub's side of one connection. `ctx` is whatever the embedder needs
/// to reach its services; the session only carries it.
#[derive(Debug)]
pub struct HubImpl<C> {
    ctx: C,
    worker_addr: Option<WorkerAddr>,
    terminated: bool,
}

impl<C> View for HubImpl<C> {
    type V = SessionView;

    closed spec fn view(&self) -> SessionView {
        SessionView { worker_addr: addr_view(self.worker_addr), terminated: self.terminated }
    }
}

impl<C> HubImpl<C> {
    /// The services handle the session was made with.
    pub closed spec fn context(&self) -> C {
        self.ctx
    }

    /// A live session. `worker_addr` is the address the connection was
    /// registered under, or `None` for a scheduler.
    pub fn new(ctx: C, worker_addr: Option<WorkerAddr>) -> (session: HubImpl<C>)
        ensures
            session@ == (SessionView { worker_addr: addr_view(worker_addr), terminated: false }),
            session.context() == ctx,
    {
        HubImpl { ctx, worker_addr, terminated: false }
    }

    pub fn ctx(&self) -> (ctx: &C)
        ensures
            *ctx == self.context(),
    {
        &self.ctx
    }

    /// The address this session registered, if it belongs to a worker.
    pub fn worker_addr(&self) -> (addr: Option<&WorkerAddr>)
        ensures
            match addr {
                Some(addr) => self@.worker_addr == Some(addr@),
                None => self@.worker_addr is None,
            },
    {
        match &self.worker_addr {
            Some(addr) => Some(addr),
            None => None,
        }
    }

    /// Whether the session has ended.
    pub fn is_terminated(&self) -> (ended: bool)
        ensures
            ended == self@.terminated,
    {
        self.terminated
    }

    /// Ends the session, however the connection came to its end. The
    /// first call on a worker's session names the address to take out of
    /// the registry; every later call names none.
    pub fn terminate(&mut self, cause: Ending) -> (named: Option<WorkerAddr>)
        ensures
            (final(self)@, addr_view(named)) == terminated(old(self)@, cause),
            final(self).context() == old(self).context(),
    {
        if self.terminated {
            return None;
        }
        self.terminated = true;
        match &self.worker_addr {
            Some(addr) => Some(addr.clone()),
            None => None,
        }
    }
}

/// A live session names its address exactly once, at its first ending, no
/// matter how it ends and how often it is told to end afterwards; a session
/// without an address, and one that has already ended, name none.
pub proof fn lemma_deregistered_exactly_once(session: SessionView, endings: Seq<Ending>)
    ensures
        endings.len() >= 1 && !session.terminated && session.worker_addr is Some
            ==> deregistrations(session, endings) == seq![session.worker_addr->0],
        session.terminated || session.worker_addr is None ==> deregistrations(session, endings)
            == Seq::<WorkerAddrView>::empty(),
    decreases endings.len(),
{
    if endings.len() > 0 {
        let (after, named) = terminated(session, endings.first());
        lemma_deregistered_exactly_once(after, endings.drop_first());
        if named is Some {
            assert(seq![named->0] + Seq::<WorkerAddrView>::empty() =~= seq![named->0]);
        }
    }
}

} // verus!
