//! What peers present to the hub and what the hub keeps about them.

use crate::text::str_eq;
use vstd::prelude::*;

verus! {

/// The kind of model a worker serves.
#[derive(Clone, Copy, Debug, PartialEq, Eq, Structural)]
pub enum WorkerKind {
    Completion,
    Chat,
}

/// What a worker says about itself when it connects. Nothing in it is
/// checked by the hub: it is the peer's own claim.
#[derive(Debug)]
pub struct WorkerDescriptor {
    pub kind: WorkerKind,
    pub port: u16,
    pub name: String,
    pub device: String,
}

/// Mathematical value of a [`WorkerDescriptor`].
pub struct WorkerDescriptorView {
    pub kind: WorkerKind,
    pub port: u16,
    pub name: Seq<char>,
    pub device: Seq<char>,
}

impl View for WorkerDescriptor {
    type V = WorkerDescriptorView;

    open spec fn view(&self) -> WorkerDescriptorView {
        WorkerDescriptorView {
            kind: self.kind,
            port: self.port,
            name: self.name@,
            device: self.device@,
        }
    }
}

/// Where a worker is reached: the origin the hub observed for the
/// connection, with the port the worker declared.
#[derive(Debug)]
pub struct WorkerAddr {
    pub origin: String,
    pub port: u16,
}

/// Mathematical value of a [`WorkerAddr`].
pub struct WorkerAddrView {
    pub origin: Seq<char>,
    pub port: u16,
}

impl View for WorkerAddr {
    type V = WorkerAddrView;

    open spec fn view(&self) -> WorkerAddrView {
        WorkerAddrView { origin: self.origin@, port: self.port }
    }
}

impl Clone for WorkerAddr {
    fn clone(&self) -> (copy: Self)
        ensures
            copy@ == self@,
    {
        WorkerAddr { origin: self.origin.clone(), port: self.port }
    }
}

impl WorkerAddr {
    /// Whether both addresses name the same origin and port.
    pub fn same(&self, other: &WorkerAddr) -> (same: bool)
        ensures
            same == (self@ == other@),
    {
        self.port == other.port && str_eq(self.origin.as_str(), other.origin.as_str())
    }
}

/// A worker as the registry holds it.
#[derive(Debug)]
pub struct Worker {
    pub addr: WorkerAddr,
    pub descriptor: WorkerDescriptor,
    pub registered_at: u64,
}

/// Mathematical value of a [`Worker`].
pub struct WorkerView {
    pub addr: WorkerAddrView,
    pub descriptor: WorkerDescriptorView,
    pub registered_at: u64,
}

impl View for Worker {
    type V = WorkerView;

    open spec fn view(&self) -> WorkerView {
        WorkerView {
            addr: self.addr@,
            descriptor: self.descriptor@,
            registered_at: self.registered_at,
        }
    }
}

/// The record of a worker that declared `descriptor` from `origin` and was
/// accepted at time `now`.
pub open spec fn worker_record(
    descriptor: WorkerDescriptorView,
    origin: Seq<char>,
    now: u64,
) -> WorkerView {
    WorkerView {
        addr: WorkerAddrView { origin, port: descriptor.port },
        descriptor,
        registered_at: now,
    }
}

impl WorkerDescriptor {
    /// Combines the descriptor with the origin the hub observed.
    pub fn into_worker(self, origin: String, now: u64) -> (worker: Worker)
        ensures
            worker@ == worker_record(self@, origin@, now),
    {
        Worker {
            addr: WorkerAddr { origin, port: self.port },
            descriptor: self,
            registered_at: now,
        }
    }
}

/// What a peer asks to be: a scheduler, which only calls the hub, or a
/// worker, which is also entered in the registry while it stays connected.
#[derive(Debug)]
pub enum ConnectHubRequest {
    Scheduler,
    Worker(WorkerDescriptor),
}

/// Mathematical value of a [`ConnectHubRequest`].
pub enum ConnectHubRequestView {
    Scheduler,
    Worker(WorkerDescriptorView),
}

impl View for ConnectHubRequest {
    type V = ConnectHubRequestView;

    open spec fn view(&self) -> ConnectHubRequestView {
        match self {
            ConnectHubRequest::Scheduler => ConnectHubRequestView::Scheduler,
            ConnectHubRequest::Worker(descriptor) => ConnectHubRequestView::Worker(descriptor@),
        }
    }
}

} // verus!
