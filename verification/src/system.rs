//! The tracking service's lifecycle and its worker's per-iteration decisions.
//!
//! The service owns at most one worker. A worker is started by `connect`,
//! asked to stop by `disconnect` through a cancellation flag, and may also
//! end on its own when its fault boundary catches an unexpected failure.
//! The worker's receive loop is driven from outside: each iteration hands
//! `worker_step` what the socket produced, and the step folds any decoded
//! packet into the snapshot and says whether the worker must exit.

use vstd::prelude::*;

use crate::snapshot::{apply_all, ChannelUpdate, TrackingSnapshot};

verus! {

/// Returned by `connect` when a worker is already attached.
#[derive(Clone, Copy, Debug, PartialEq, Eq)]
pub struct AlreadyConnectedError;

/// The service's view of its worker: none attached, one running, or one
/// that ended on its own but whose bookkeeping is not yet cleared.
#[derive(Clone, Copy, Debug, PartialEq, Eq)]
pub enum WorkerPhase {
    Idle,
    Running,
    Exited,
}

/// What one iteration of the worker's receive loop observed on the socket.
#[derive(Clone, Debug, PartialEq)]
pub enum WorkerEvent {
    /// A datagram arrived and decoded into these channel updates.
    Packet(Vec<ChannelUpdate>),
    /// The receive timed out with no traffic.
    TimedOut,
    /// The receive failed with some other transient error.
    RecvFailed,
}

/// Whether the worker's loop goes on after an iteration.
#[derive(Clone, Copy, Debug, PartialEq, Eq)]
pub enum WorkerDirective {
    Continue,
    Exit,
}

/// The tracking service: lifecycle state, cancellation flag, and the
/// accumulated snapshot its worker feeds.
pub struct TrackerSystem {
    phase: WorkerPhase,
    abort: bool,
    data: TrackingSnapshot,
}

impl TrackerSystem {
    /// The worker's phase.
    pub closed spec fn spec_phase(self) -> WorkerPhase {
        self.phase
    }

    /// The cancellation flag the worker polls.
    pub closed spec fn spec_abort(self) -> bool {
        self.abort
    }

    /// The accumulated snapshot.
    pub closed spec fn spec_data(self) -> TrackingSnapshot {
        self.data
    }

    pub open spec fn wf(self) -> bool {
        self.spec_data().wf()
    }

    /// A fresh service: no worker, flag clear, snapshot empty.
    pub fn new() -> (r: Self)
        ensures
            r.spec_phase() is Idle,
            !r.spec_abort(),
            r.spec_data().is_empty(),
            r.wf(),
    {
        TrackerSystem { phase: WorkerPhase::Idle, abort: false, data: TrackingSnapshot::new() }
    }

    /// The accumulated snapshot, for reading or draining.
    pub fn data(&self) -> (r: &TrackingSnapshot)
        ensures
            *r == self.spec_data(),
    {
        &self.data
    }

    /// Drains the snapshot: hands the accumulated state to the caller and
    /// leaves an empty one in its place, as the per-frame consumer does.
    pub fn take_data(&mut self) -> (r: TrackingSnapshot)
        requires
            old(self).wf(),
        ensures
            r == old(self).spec_data(),
            final(self).spec_data().is_empty(),
            final(self).wf(),
            final(self).spec_phase() == old(self).spec_phase(),
            final(self).spec_abort() == old(self).spec_abort(),
    {
        let mut taken = TrackingSnapshot::new();
        core::mem::swap(&mut self.data, &mut taken);
        taken
    }

    /// Clears the snapshot to empty, whatever the connection state.
    pub fn reset(&mut self)
        ensures
            final(self).spec_data().is_empty(),
            final(self).wf(),
            final(self).spec_phase() == old(self).spec_phase(),
            final(self).spec_abort() == old(self).spec_abort(),
    {
        self.data.clear();
    }

    /// Detaches the worker, if any: raises the cancellation flag and, once
    /// the worker has wound down, clears the bookkeeping. On an idle service
    /// this is a no-op.
    pub fn disconnect(&mut self)
        ensures
            final(self).spec_phase() is Idle,
            final(self).spec_data() == old(self).spec_data(),
            old(self).spec_phase() is Idle ==> *final(self) == *old(self),
            !(old(self).spec_phase() is Idle) ==> final(self).spec_abort(),
    {
        match self.phase {
            WorkerPhase::Idle => {},
            _ => {
                self.abort = true;
                self.phase = WorkerPhase::Idle;
            },
        }
    }

    /// True exactly while a worker is attached and still running: a worker
    /// that ended on its own no longer counts, though `disconnect` must
    /// still clear it before a new `connect` can succeed.
    pub fn active(&self) -> (r: bool)
        ensures
            r == (self.spec_phase() is Running),
    {
        match self.phase {
            WorkerPhase::Running => true,
            _ => false,
        }
    }

    /// Attaches a new worker: fails while one is still attached, even one
    /// that already ended on its own; otherwise clears the cancellation
    /// flag and reports the worker running. The snapshot keeps whatever it
    /// held.
    pub fn connect(&mut self) -> (r: Result<(), AlreadyConnectedError>)
        ensures
            !(old(self).spec_phase() is Idle) ==> r == Err::<(), AlreadyConnectedError>(
                AlreadyConnectedError,
            ) && *final(self) == *old(self),
            old(self).spec_phase() is Idle ==> r == Ok::<(), AlreadyConnectedError>(())
                && final(self).spec_phase() is Running && !final(self).spec_abort()
                && final(self).spec_data() == old(self).spec_data(),
    {
        match self.phase {
            WorkerPhase::Idle => {
                self.abort = false;
                self.phase = WorkerPhase::Running;
                Ok(())
            },
            _ => Err(AlreadyConnectedError),
        }
    }

    /// Records that the worker's thread ended on its own: its fault boundary
    /// caught a failure, or it wound down after cancellation. The service
    /// then reports inactive until `disconnect` clears the bookkeeping.
    pub fn worker_exited(&mut self)
        ensures
            old(self).spec_phase() is Running ==> final(self).spec_phase() is Exited,
            !(old(self).spec_phase() is Running) ==> final(self).spec_phase() == old(
                self,
            ).spec_phase(),
            final(self).spec_abort() == old(self).spec_abort(),
            final(self).spec_data() == old(self).spec_data(),
    {
        match self.phase {
            WorkerPhase::Running => self.phase = WorkerPhase::Exited,
            _ => {},
        }
    }

    /// One iteration of the worker's receive loop. An iteration that finds
    /// the cancellation flag raised exits at once and touches nothing, so
    /// the flag is honoured within one iteration of being raised. Otherwise
    /// a decoded packet is folded into the snapshot, while a timeout or a
    /// transient receive error leaves it as it was; none of these end the
    /// loop.
    pub fn worker_step(&mut self, event: WorkerEvent) -> (d: WorkerDirective)
        requires
            old(self).wf(),
        ensures
            final(self).wf(),
            d is Exit <==> old(self).spec_abort(),
            final(self).spec_phase() == old(self).spec_phase(),
            final(self).spec_abort() == old(self).spec_abort(),
            old(self).spec_abort() ==> *final(self) == *old(self),
            !old(self).spec_abort() ==> match event {
                WorkerEvent::Packet(us) => final(self).spec_data().blends@ == apply_all(
                    old(self).spec_data().blends@,
                    old(self).spec_data().bones@,
                    us@,
                ).0 && final(self).spec_data().bones@ == apply_all(
                    old(self).spec_data().blends@,
                    old(self).spec_data().bones@,
                    us@,
                ).1,
                _ => final(self).spec_data() == old(self).spec_data(),
            },
    {
        if self.abort {
            return WorkerDirective::Exit;
        }
        match event {
            WorkerEvent::Packet(us) => {
                self.data.apply_packet(us);
            },
            WorkerEvent::TimedOut => {},
            WorkerEvent::RecvFailed => {},
        }
        WorkerDirective::Continue
    }
}

} // verus!
