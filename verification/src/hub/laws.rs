//! What holds of the hub whatever its peers do.

use crate::hub::api::{
    ConnectHubRequestView, WorkerAddrView, WorkerDescriptorView, WorkerView, worker_record,
};
use crate::hub::session::{Ending, SessionView, deregistrations, lemma_deregistered_exactly_once};
use crate::hub::worker::{RegistryView, StoreStatus, with_worker, without_addr};
use crate::hub::{ConnectError, admitted, credential_accepted, departed, handshake};
use vstd::prelude::*;

verus! {

/// Something that happens to the hub: an authorized peer is admitted, or a
/// session ends.
pub enum HubEvent {
    Opened { intent: ConnectHubRequestView, origin: Seq<char>, now: u64, store: StoreStatus },
    Closed { session: SessionView, cause: Ending },
}

/// The registry after one event.
pub open spec fn step(registry: RegistryView, event: HubEvent) -> RegistryView {
    match event {
        HubEvent::Opened { intent, origin, now, store } => admitted(
            registry,
            intent,
            origin,
            now,
            store,
        ).0,
        HubEvent::Closed { session, cause } => departed(registry, session, cause),
    }
}

/// The registry after a run of events, in order.
pub open spec fn run(registry: RegistryView, events: Seq<HubEvent>) -> RegistryView
    decreases events.len(),
{
    if events.len() == 0 {
        registry
    } else {
        step(run(registry, events.drop_last()), events.last())
    }
}

/// Whether `event` belongs to a scheduler's connection.
pub open spec fn of_scheduler(event: HubEvent) -> bool {
    match event {
        HubEvent::Opened { intent, .. } => intent is Scheduler,
        HubEvent::Closed { session, .. } => session.worker_addr is None,
    }
}

/// Whether every event of `events` belongs to a scheduler's connection.
pub open spec fn all_of_schedulers(events: Seq<HubEvent>) -> bool {
    forall|i: int| 0 <= i < events.len() ==> of_scheduler(#[trigger] events[i])
}

/// A connection whose credential is missing or is not the registration
/// token read for the attempt, and any connection made while the token
/// cannot be read, is refused as unauthorized, and the registry stays
/// exactly as it was.
pub proof fn lemma_unauthorized_changes_nothing(
    registry: RegistryView,
    credential: Option<Seq<char>>,
    token: Option<Seq<char>>,
    intent: ConnectHubRequestView,
    origin: Seq<char>,
    now: u64,
    store: StoreStatus,
)
    requires
        credential != token || token is None,
    ensures
        !credential_accepted(credential, token),
        handshake(registry, credential, token, intent, origin, now, store) == (
            registry,
            Err::<SessionView, ConnectError>(ConnectError::Unauthorized),
        ),
{
}

/// A worker that is admitted is registered once, under the address made of
/// its origin and declared port, and its session names that address for
/// deregistration exactly once, however the connection ends and however
/// often the session is told so.
pub proof fn lemma_worker_registered_and_deregistered_once(
    registry: RegistryView,
    descriptor: WorkerDescriptorView,
    origin: Seq<char>,
    now: u64,
    endings: Seq<Ending>,
)
    requires
        endings.len() >= 1,
    ensures
        ({
            let worker = worker_record(descriptor, origin, now);
            let (after, outcome) = admitted(
                registry,
                ConnectHubRequestView::Worker(descriptor),
                origin,
                now,
                StoreStatus::Reachable,
            );
            &&& after == with_worker(registry, worker)
            &&& outcome == Ok::<SessionView, ConnectError>(
                SessionView { worker_addr: Some(worker.addr), terminated: false },
            )
            &&& deregistrations(outcome->Ok_0, endings) == seq![worker.addr]
        }),
{
    let worker = worker_record(descriptor, origin, now);
    lemma_deregistered_exactly_once(
        SessionView { worker_addr: Some(worker.addr), terminated: false },
        endings,
    );
}

/// Taking out an address that holds no worker changes nothing, so taking
/// an address out twice is the same as taking it out once.
pub proof fn lemma_unregister_idempotent(registry: RegistryView, addr: WorkerAddrView)
    ensures
        !registry.contains_key(addr) ==> without_addr(registry, addr) == registry,
        without_addr(without_addr(registry, addr), addr) == without_addr(registry, addr),
        !without_addr(registry, addr).contains_key(addr),
{
    if !registry.contains_key(addr) {
        assert(without_addr(registry, addr) =~= registry);
    }
    assert(without_addr(without_addr(registry, addr), addr) =~= without_addr(registry, addr));
}

/// What happens to one address does not touch any other: entering a
/// worker and taking out another address can be done in either order, and
/// so can two entries, or two removals, at different addresses.
pub proof fn lemma_addresses_are_independent(
    registry: RegistryView,
    worker: WorkerView,
    other: WorkerView,
    addr: WorkerAddrView,
)
    requires
        worker.addr != addr,
        worker.addr != other.addr,
    ensures
        with_worker(without_addr(registry, addr), worker) == without_addr(
            with_worker(registry, worker),
            addr,
        ),
        with_worker(with_worker(registry, worker), other) == with_worker(
            with_worker(registry, other),
            worker,
        ),
        without_addr(without_addr(registry, addr), worker.addr) == without_addr(
            without_addr(registry, worker.addr),
            addr,
        ),
{
    assert(with_worker(without_addr(registry, addr), worker) =~= without_addr(
        with_worker(registry, worker),
        addr,
    ));
    assert(with_worker(with_worker(registry, worker), other) =~= with_worker(
        with_worker(registry, other),
        worker,
    ));
    assert(without_addr(without_addr(registry, addr), worker.addr) =~= without_addr(
        without_addr(registry, worker.addr),
        addr,
    ));
}

/// Whatever schedulers do, connecting or leaving, the registry stays as
/// it was: a scheduler is never in it.
pub proof fn lemma_schedulers_leave_registry_alone(registry: RegistryView, events: Seq<HubEvent>)
    requires
        all_of_schedulers(events),
    ensures
        run(registry, events) == registry,
    decreases events.len(),
{
    if events.len() > 0 {
        lemma_schedulers_leave_registry_alone(registry, events.drop_last());
        assert(of_scheduler(events.last()));
    }
}

/// Whether `event` is about the address `addr`: a worker is admitted
/// under it, or a session that registered it ends.
pub open spec fn touches(event: HubEvent, addr: WorkerAddrView) -> bool {
    match event {
        HubEvent::Opened { intent, origin, now, .. } => match intent {
            ConnectHubRequestView::Scheduler => false,
            ConnectHubRequestView::Worker(descriptor) => worker_record(descriptor, origin, now).addr
                == addr,
        },
        HubEvent::Closed { session, .. } => session.worker_addr == Some(addr),
    }
}

/// Whether no event of `events` is about the address `addr`.
pub open spec fn none_touches(events: Seq<HubEvent>, addr: WorkerAddrView) -> bool {
    forall|i: int| 0 <= i < events.len() ==> !touches(#[trigger] events[i], addr)
}

/// Whatever happens at other addresses, and whatever schedulers do, an
/// address keeps the worker it holds, and an address that holds none
/// stays without one.
pub proof fn lemma_untouched_address_keeps_its_entry(
    registry: RegistryView,
    events: Seq<HubEvent>,
    addr: WorkerAddrView,
)
    requires
        none_touches(events, addr),
    ensures
        run(registry, events).contains_key(addr) == registry.contains_key(addr),
        registry.contains_key(addr) ==> run(registry, events)[addr] == registry[addr],
    decreases events.len(),
{
    if events.len() > 0 {
        lemma_untouched_address_keeps_its_entry(registry, events.drop_last(), addr);
        assert(!touches(events.last(), addr));
    }
}

/// A worker is in the registry for exactly as long as its connection
/// lasts, whatever other peers do meanwhile: it is there from its
/// admission on, through anything that happens at other addresses and
/// anything schedulers do, and it is gone once its session has ended.
pub proof fn lemma_worker_registered_while_connected(
    registry: RegistryView,
    descriptor: WorkerDescriptorView,
    origin: Seq<char>,
    now: u64,
    during: Seq<HubEvent>,
    cause: Ending,
    after: Seq<HubEvent>,
)
    requires
        none_touches(during, worker_record(descriptor, origin, now).addr),
        none_touches(after, worker_record(descriptor, origin, now).addr),
    ensures
        ({
            let worker = worker_record(descriptor, origin, now);
            let opened = HubEvent::Opened {
                intent: ConnectHubRequestView::Worker(descriptor),
                origin,
                now,
                store: StoreStatus::Reachable,
            };
            let session = SessionView { worker_addr: Some(worker.addr), terminated: false };
            let live = run(step(registry, opened), during);
            let left = run(step(live, HubEvent::Closed { session, cause }), after);
            &&& live.contains_key(worker.addr)
            &&& live[worker.addr] == worker
            &&& !left.contains_key(worker.addr)
        }),
{
    let worker = worker_record(descriptor, origin, now);
    let opened = HubEvent::Opened {
        intent: ConnectHubRequestView::Worker(descriptor),
        origin,
        now,
        store: StoreStatus::Reachable,
    };
    let session = SessionView { worker_addr: Some(worker.addr), terminated: false };
    let entered = step(registry, opened);
    lemma_untouched_address_keeps_its_entry(entered, during, worker.addr);
    let closed = step(run(entered, during), HubEvent::Closed { session, cause });
    lemma_untouched_address_keeps_its_entry(closed, after, worker.addr);
}

/// With a scheduler and a worker connected side by side, the scheduler
/// is never in the registry and the worker's address is the only one that
/// its connection adds: while the worker is connected the registry is
/// what it was with the worker entered, and once the worker has left it
/// is what it was without the worker's address.
pub proof fn lemma_scheduler_beside_worker(
    registry: RegistryView,
    descriptor: WorkerDescriptorView,
    origin: Seq<char>,
    now: u64,
    during: Seq<HubEvent>,
    cause: Ending,
    after: Seq<HubEvent>,
)
    requires
        all_of_schedulers(during),
        all_of_schedulers(after),
    ensures
        ({
            let worker = worker_record(descriptor, origin, now);
            let opened = HubEvent::Opened {
                intent: ConnectHubRequestView::Worker(descriptor),
                origin,
                now,
                store: StoreStatus::Reachable,
            };
            let session = SessionView { worker_addr: Some(worker.addr), terminated: false };
            let live = run(step(registry, opened), during);
            let left = run(step(live, HubEvent::Closed { session, cause }), after);
            &&& live == with_worker(registry, worker)
            &&& live.dom() == registry.dom().insert(worker.addr)
            &&& left == without_addr(registry, worker.addr)
        }),
{
    let worker = worker_record(descriptor, origin, now);
    let opened = HubEvent::Opened {
        intent: ConnectHubRequestView::Worker(descriptor),
        origin,
        now,
        store: StoreStatus::Reachable,
    };
    let session = SessionView { worker_addr: Some(worker.addr), terminated: false };
    let entered = step(registry, opened);
    lemma_schedulers_leave_registry_alone(entered, during);
    let closed = step(entered, HubEvent::Closed { session, cause });
    lemma_schedulers_leave_registry_alone(closed, after);
    assert(entered.dom() =~= registry.dom().insert(worker.addr));
    assert(closed =~= without_addr(registry, worker.addr));
}

/// A worker that comes back from the same address, whether or not its
/// earlier session has been ended in between, has one entry under that
/// address, and the entry is the latest one.
pub proof fn lemma_reconnect_keeps_latest(
    registry: RegistryView,
    first: WorkerView,
    second: WorkerView,
)
    requires
        first.addr == second.addr,
    ensures
        with_worker(without_addr(with_worker(registry, first), first.addr), second) == with_worker(
            registry,
            second,
        ),
        with_worker(with_worker(registry, first), second) == with_worker(registry, second),
        with_worker(registry, second)[second.addr] == second,
        with_worker(registry, second).dom() == registry.dom().insert(second.addr),
{
    assert(with_worker(without_addr(with_worker(registry, first), first.addr), second)
        =~= with_worker(registry, second));
    assert(with_worker(with_worker(registry, first), second) =~= with_worker(registry, second));
}

} // verus!
