//! The worker registry: the set of workers attached to the hub, one entry
//! per address.

use crate::hub::api::{Worker, WorkerAddr, WorkerAddrView, WorkerView};
use vstd::prelude::*;

verus! {

/// Mathematical value of the registry: the worker held for each address.
pub type RegistryView = Map<WorkerAddrView, WorkerView>;

/// The registry after `worker` was entered: whatever its address held
/// before is replaced.
pub open spec fn with_worker(registry: RegistryView, worker: WorkerView) -> RegistryView {
    registry.insert(worker.addr, worker)
}

/// The registry after the entry of `addr`, if any, was taken out.
pub open spec fn without_addr(registry: RegistryView, addr: WorkerAddrView) -> RegistryView {
    registry.remove(addr)
}

/// Whether the store behind the registry could be reached when a
/// registration was attempted.
#[derive(Clone, Copy, Debug, PartialEq, Eq, Structural)]
pub enum StoreStatus {
    Reachable,
    Unreachable,
}

/// Why a registration was refused.
#[derive(Clone, Copy, Debug, PartialEq, Eq, Structural)]
pub enum RegistryError {
    StoreUnreachable,
}

/// The workers attached to the hub, at most one for each address.
#[derive(Debug)]
pub struct WorkerRegistry {
    workers: Vec<Worker>,
}

spec fn held_at(workers: Seq<Worker>, addr: WorkerAddrView, i: int) -> bool {
    0 <= i < workers.len() && workers[i].addr@ == addr
}

spec fn distinct_addrs(workers: Seq<Worker>) -> bool {
    forall|i: int, j: int|
        0 <= i < j < workers.len() ==> (#[trigger] workers[i]).addr@ != (#[trigger] workers[j]).addr@
}

spec fn by_addr(workers: Seq<Worker>) -> RegistryView {
    Map::new(
        |addr: WorkerAddrView| exists|i: int| held_at(workers, addr, i),
        |addr: WorkerAddrView| workers[choose|i: int| held_at(workers, addr, i)]@,
    )
}

proof fn lemma_found(workers: Seq<Worker>, addr: WorkerAddrView, i: int)
    requires
        distinct_addrs(workers),
        held_at(workers, addr, i),
    ensures
        by_addr(workers).contains_key(addr),
        by_addr(workers)[addr] == workers[i]@,
{
    let j = choose|j: int| held_at(workers, addr, j);
    assert(held_at(workers, addr, j));
    if i < j {
        assert(workers[i].addr@ != workers[j].addr@);
    } else if j < i {
        assert(workers[j].addr@ != workers[i].addr@);
    }
}

proof fn lemma_replaced(workers: Seq<Worker>, i: int, worker: Worker)
    requires
        distinct_addrs(workers),
        held_at(workers, worker.addr@, i),
    ensures
        distinct_addrs(workers.update(i, worker)),
        by_addr(workers.update(i, worker)) == with_worker(by_addr(workers), worker@),
{
    let after = workers.update(i, worker);
    assert(distinct_addrs(after)) by {
        assert forall|a: int, b: int| 0 <= a < b < after.len() implies (#[trigger] after[a]).addr@
            != (#[trigger] after[b]).addr@ by {
            assert(after[a].addr@ == workers[a].addr@);
            assert(after[b].addr@ == workers[b].addr@);
        }
    }
    assert forall|addr: WorkerAddrView|
        by_addr(after).contains_key(addr) <==> by_addr(workers).contains_key(addr) by {
        if by_addr(after).contains_key(addr) {
            let j = choose|j: int| held_at(after, addr, j);
            assert(held_at(workers, addr, j));
        }
        if by_addr(workers).contains_key(addr) {
            let j = choose|j: int| held_at(workers, addr, j);
            assert(held_at(after, addr, j));
        }
    }
    lemma_found(workers, worker.addr@, i);
    assert forall|addr: WorkerAddrView| by_addr(after).contains_key(addr) implies by_addr(
        after,
    )[addr] == with_worker(by_addr(workers), worker@)[addr] by {
        let j = choose|j: int| held_at(after, addr, j);
        assert(held_at(after, addr, j));
        lemma_found(after, addr, j);
        if j == i {
        } else {
            assert(held_at(workers, addr, j));
            lemma_found(workers, addr, j);
        }
    }
    assert(by_addr(after) =~= with_worker(by_addr(workers), worker@));
}

proof fn lemma_appended(workers: Seq<Worker>, worker: Worker)
    requires
        distinct_addrs(workers),
        forall|i: int| !held_at(workers, worker.addr@, i),
    ensures
        distinct_addrs(workers.push(worker)),
        by_addr(workers.push(worker)) == with_worker(by_addr(workers), worker@),
{
    let after = workers.push(worker);
    let last = workers.len() as int;
    assert(distinct_addrs(after)) by {
        assert forall|a: int, b: int| 0 <= a < b < after.len() implies (#[trigger] after[a]).addr@
            != (#[trigger] after[b]).addr@ by {
            if b == last {
                assert(!held_at(workers, worker.addr@, a));
            }
        }
    }
    assert(held_at(after, worker.addr@, last));
    assert forall|addr: WorkerAddrView|
        by_addr(after).contains_key(addr) <==> with_worker(
            by_addr(workers),
            worker@,
        ).contains_key(addr) by {
        if by_addr(after).contains_key(addr) {
            let j = choose|j: int| held_at(after, addr, j);
            if j != last {
                assert(held_at(workers, addr, j));
            }
        }
        if by_addr(workers).contains_key(addr) {
            let j = choose|j: int| held_at(workers, addr, j);
            assert(held_at(after, addr, j));
        }
    }
    assert forall|addr: WorkerAddrView| by_addr(after).contains_key(addr) implies by_addr(
        after,
    )[addr] == with_worker(by_addr(workers), worker@)[addr] by {
        let j = choose|j: int| held_at(after, addr, j);
        assert(held_at(after, addr, j));
        lemma_found(after, addr, j);
        if j != last {
            assert(held_at(workers, addr, j));
            lemma_found(workers, addr, j);
        }
    }
    assert(by_addr(after) =~= with_worker(by_addr(workers), worker@));
}

proof fn lemma_removed(workers: Seq<Worker>, i: int)
    requires
        distinct_addrs(workers),
        0 <= i < workers.len(),
    ensures
        distinct_addrs(workers.remove(i)),
        by_addr(workers.remove(i)) == without_addr(by_addr(workers), workers[i].addr@),
{
    let after = workers.remove(i);
    let gone = workers[i].addr@;
    let shift = |j: int| if j < i { j } else { j + 1 };
    assert forall|j: int| 0 <= j < after.len() implies #[trigger] after[j] == workers[shift(j)] by {}
    assert(distinct_addrs(after)) by {
        assert forall|a: int, b: int| 0 <= a < b < after.len() implies (#[trigger] after[a]).addr@
            != (#[trigger] after[b]).addr@ by {
            assert(after[a] == workers[shift(a)]);
            assert(after[b] == workers[shift(b)]);
            assert(workers[shift(a)].addr@ != workers[shift(b)].addr@);
        }
    }
    assert forall|addr: WorkerAddrView|
        by_addr(after).contains_key(addr) <==> without_addr(by_addr(workers), gone).contains_key(
            addr,
        ) by {
        if by_addr(after).contains_key(addr) {
            let j = choose|j: int| held_at(after, addr, j);
            assert(after[j] == workers[shift(j)]);
            assert(held_at(workers, addr, shift(j)));
            if addr == gone {
                if shift(j) < i {
                    assert(workers[shift(j)].addr@ != workers[i].addr@);
                } else {
                    assert(workers[i].addr@ != workers[shift(j)].addr@);
                }
            }
        }
        if by_addr(workers).contains_key(addr) && addr != gone {
            let j = choose|j: int| held_at(workers, addr, j);
            let k = if j < i { j } else { j - 1 };
            assert(after[k] == workers[shift(k)]);
            assert(held_at(after, addr, k));
        }
    }
    assert forall|addr: WorkerAddrView| by_addr(after).contains_key(addr) implies by_addr(
        after,
    )[addr] == without_addr(by_addr(workers), gone)[addr] by {
        let j = choose|j: int| held_at(after, addr, j);
        assert(held_at(after, addr, j));
        lemma_found(after, addr, j);
        assert(after[j] == workers[shift(j)]);
        assert(held_at(workers, addr, shift(j)));
        lemma_found(workers, addr, shift(j));
    }
    assert(by_addr(after) =~= without_addr(by_addr(workers), gone));
}

proof fn lemma_counted(workers: Seq<Worker>)
    requires
        distinct_addrs(workers),
    ensures
        by_addr(workers).dom().finite(),
        by_addr(workers).dom().len() == workers.len(),
    decreases workers.len(),
{
    if workers.len() == 0 {
        assert(by_addr(workers).dom() =~= Set::<WorkerAddrView>::empty());
    } else {
        let rest = workers.drop_last();
        let last = workers.last();
        assert(distinct_addrs(rest)) by {
            assert forall|a: int, b: int| 0 <= a < b < rest.len() implies (#[trigger] rest[a]).addr@
                != (#[trigger] rest[b]).addr@ by {
                assert(rest[a] == workers[a]);
                assert(rest[b] == workers[b]);
            }
        }
        lemma_counted(rest);
        assert forall|i: int| !held_at(rest, last.addr@, i) by {
            if held_at(rest, last.addr@, i) {
                assert(rest[i] == workers[i]);
                assert(workers[i].addr@ != workers[workers.len() - 1].addr@);
            }
        }
        lemma_appended(rest, last);
        assert(rest.push(last) =~= workers);
        assert(by_addr(workers).dom() =~= by_addr(rest).dom().insert(last.addr@));
    }
}

impl View for WorkerRegistry {
    type V = RegistryView;

    closed spec fn view(&self) -> RegistryView {
        by_addr(self.workers@)
    }
}

impl WorkerRegistry {
    #[verifier::type_invariant]
    spec fn one_entry_per_addr(&self) -> bool {
        distinct_addrs(self.workers@)
    }

    /// A registry with no worker in it.
    pub fn new() -> (registry: WorkerRegistry)
        ensures
            registry@ == RegistryView::empty(),
    {
        let registry = WorkerRegistry { workers: Vec::new() };
        assert(registry@ =~= RegistryView::empty());
        registry
    }

    fn position(&self, addr: &WorkerAddr) -> (found: Option<usize>)
        ensures
            match found {
                Some(i) => held_at(self.workers@, addr@, i as int),
                None => forall|i: int| !held_at(self.workers@, addr@, i),
            },
    {
        let mut i: usize = 0;
        while i < self.workers.len()
            invariant
                i <= self.workers@.len(),
                forall|j: int| 0 <= j < i ==> !held_at(self.workers@, addr@, j),
            decreases self.workers@.len() - i,
        {
            if self.workers[i].addr.same(addr) {
                return Some(i);
            }
            i += 1;
        }
        None
    }

    /// Enters `worker` under its address. The entry is made only when the
    /// store behind the registry was reachable; it then replaces whatever
    /// the address held, so that a worker that comes back is simply the
    /// latest one.
    pub fn register(&mut self, worker: Worker, store: StoreStatus) -> (outcome: Result<
        (),
        RegistryError,
    >)
        ensures
            store == StoreStatus::Reachable ==> outcome is Ok && final(self)@ == with_worker(
                old(self)@,
                worker@,
            ),
            store == StoreStatus::Unreachable ==> outcome == Err::<(), RegistryError>(
                RegistryError::StoreUnreachable,
            ) && final(self)@ == old(self)@,
    {
        proof {
            use_type_invariant(&*self);
        }
        match store {
            StoreStatus::Unreachable => Err(RegistryError::StoreUnreachable),
            StoreStatus::Reachable => {
                let found = self.position(&worker.addr);
                let mut workers: Vec<Worker> = Vec::new();
                core::mem::swap(&mut self.workers, &mut workers);
                match found {
                    Some(i) => {
                        proof {
                            lemma_replaced(workers@, i as int, worker);
                        }
                        workers.set(i, worker);
                    },
                    None => {
                        proof {
                            lemma_appended(workers@, worker);
                        }
                        workers.push(worker);
                    },
                }
                self.workers = workers;
                Ok(())
            },
        }
    }

    /// Takes the entry of `addr` out. An address that holds no worker
    /// leaves the registry as it was.
    pub fn unregister(&mut self, addr: &WorkerAddr)
        ensures
            final(self)@ == without_addr(old(self)@, addr@),
            !old(self)@.contains_key(addr@) ==> final(self)@ == old(self)@,
    {
        proof {
            use_type_invariant(&*self);
        }
        match self.position(addr) {
            Some(i) => {
                let mut workers: Vec<Worker> = Vec::new();
                core::mem::swap(&mut self.workers, &mut workers);
                proof {
                    lemma_removed(workers@, i as int);
                }
                workers.remove(i);
                self.workers = workers;
            },
            None => {
                assert(!by_addr(self.workers@).contains_key(addr@));
                assert(by_addr(self.workers@) =~= without_addr(by_addr(self.workers@), addr@));
            },
        }
        proof {
            if !old(self)@.contains_key(addr@) {
                assert(old(self)@ =~= without_addr(old(self)@, addr@));
            }
        }
    }

    /// How many workers are registered.
    pub fn len(&self) -> (count: usize)
        ensures
            self@.dom().finite(),
            count == self@.len(),
    {
        proof {
            use_type_invariant(self);
            lemma_counted(self.workers@);
        }
        self.workers.len()
    }

    /// The worker registered under `addr`, if there is one.
    pub fn get(&self, addr: &WorkerAddr) -> (found: Option<&Worker>)
        ensures
            match found {
                Some(worker) => self@.contains_key(addr@) && worker@ == self@[addr@],
                None => !self@.contains_key(addr@),
            },
    {
        proof {
            use_type_invariant(self);
        }
        match self.position(addr) {
            Some(i) => {
                proof {
                    lemma_found(self.workers@, addr@, i as int);
                }
                Some(&self.workers[i])
            },
            None => None,
        }
    }

    /// Whether a worker is registered under `addr`.
    pub fn contains(&self, addr: &WorkerAddr) -> (present: bool)
        ensures
            present == self@.contains_key(addr@),
    {
        self.get(addr).is_some()
    }
}

} // verus!
