use vstd::prelude::*;

verus! {

/// What a rendezvous counter is, mathematically.
pub struct RendezvousView {
    /// Members currently counted in the batch.
    pub count: nat,
    /// Size at which the batch is complete.
    pub capacity: nat,
    /// Number of the current batch; members of a batch wait until it moves on.
    pub round: u64,
    /// Whether the coordinator is servicing the complete batch right now.
    pub in_service: bool,
}

/// The state changes a rendezvous counter allows.
pub enum Op {
    /// A worker tries to join the current batch.
    Join,
    /// The coordinator checks the batch and starts servicing it if complete.
    StartService,
    /// The coordinator finishes servicing and releases the batch.
    FinishService,
}

/// What a worker learns when it tries to join.
#[derive(Debug, Clone, Copy, PartialEq, Eq)]
pub enum Join {
    /// The batch is complete: the worker must wait for its release and retry.
    Full,
    /// The worker was counted in the batch numbered `ticket`. `complete` is set
    /// for exactly the one member whose arrival completed the batch: that member
    /// wakes the coordinator.
    Joined { ticket: u64, complete: bool },
}

/// The batch number that follows `round`.
pub open spec fn advance(round: u64) -> u64 {
    if round == u64::MAX {
        0
    } else {
        (round + 1) as u64
    }
}

/// Whether the coordinator has a complete batch to service.
pub open spec fn service_due(v: RendezvousView) -> bool {
    v.count == v.capacity && !v.in_service
}

/// What a join attempt reports in state `v`.
pub open spec fn join_outcome(v: RendezvousView) -> Join {
    if v.count < v.capacity {
        Join::Joined { ticket: v.round, complete: v.count + 1 == v.capacity }
    } else {
        Join::Full
    }
}

/// The state after `op` in state `v`. An operation that is not enabled
/// changes nothing.
pub open spec fn step(v: RendezvousView, op: Op) -> RendezvousView {
    match op {
        Op::Join => if v.count < v.capacity {
            RendezvousView { count: v.count + 1, ..v }
        } else {
            v
        },
        Op::StartService => if service_due(v) {
            RendezvousView { in_service: true, ..v }
        } else {
            v
        },
        Op::FinishService => if v.in_service {
            RendezvousView { count: 0, round: advance(v.round), in_service: false, ..v }
        } else {
            v
        },
    }
}

/// The state after the operations `ops`, in order, from state `v`.
pub open spec fn run(v: RendezvousView, ops: Seq<Op>) -> RendezvousView
    decreases ops.len(),
{
    if ops.len() == 0 {
        v
    } else {
        run(step(v, ops[0]), ops.drop_first())
    }
}

impl RendezvousView {
    /// The counter never holds more members than its capacity, and a batch is
    /// only serviced once it is complete.
    pub open spec fn wf(self) -> bool {
        &&& self.count <= self.capacity
        &&& self.in_service ==> self.count == self.capacity
    }

    /// A fresh counter: empty, first batch, nothing being serviced.
    pub open spec fn initial(capacity: nat) -> RendezvousView {
        RendezvousView { count: 0, capacity, round: 0, in_service: false }
    }

    /// Whether a member holding `ticket` has been released.
    pub open spec fn released(self, ticket: u64) -> bool {
        self.round != ticket
    }
}

/// A counter of workers gathering into a batch of fixed size, released
/// together by the coordinator once the batch is complete.
pub struct Rendezvous {
    count: u32,
    capacity: u32,
    round: u64,
    in_service: bool,
}

impl View for Rendezvous {
    type V = RendezvousView;

    closed spec fn view(&self) -> RendezvousView {
        RendezvousView {
            count: self.count as nat,
            capacity: self.capacity as nat,
            round: self.round,
            in_service: self.in_service,
        }
    }
}

impl Rendezvous {
    pub open spec fn wf(&self) -> bool {
        self@.wf()
    }

    /// An empty counter whose batches hold `capacity` members.
    pub fn new(capacity: u32) -> (r: Self)
        ensures
            r@ == RendezvousView::initial(capacity as nat),
            r.wf(),
    {
        Rendezvous { count: 0, capacity, round: 0, in_service: false }
    }

    /// Members counted in the current batch.
    pub fn count(&self) -> (r: u32)
        ensures
            r as nat == self@.count,
    {
        self.count
    }

    /// Size of a complete batch.
    pub fn capacity(&self) -> (r: u32)
        ensures
            r as nat == self@.capacity,
    {
        self.capacity
    }

    /// Number of the current batch.
    pub fn round(&self) -> (r: u64)
        ensures
            r == self@.round,
    {
        self.round
    }

    /// Whether the coordinator is servicing the batch.
    pub fn in_service(&self) -> (r: bool)
        ensures
            r == self@.in_service,
    {
        self.in_service
    }

    /// Whether the current batch is complete.
    pub fn is_full(&self) -> (r: bool)
        ensures
            r == (self@.count == self@.capacity),
    {
        self.count == self.capacity
    }

    /// Whether a member holding `ticket` may leave: its batch has been
    /// released. A member waits, re-checking this, until it holds.
    pub fn is_released(&self, ticket: u64) -> (r: bool)
        ensures
            r == self@.released(ticket),
    {
        self.round != ticket
    }

    /// A worker tries to join the current batch. A complete batch admits no
    /// one: the worker is told to wait and nothing changes.
    pub fn try_join(&mut self) -> (r: Join)
        requires
            old(self).wf(),
        ensures
            final(self)@ == step(old(self)@, Op::Join),
            r == join_outcome(old(self)@),
            final(self).wf(),
    {
        if self.count < self.capacity {
            self.count = self.count + 1;
            Join::Joined { ticket: self.round, complete: self.count == self.capacity }
        } else {
            Join::Full
        }
    }

    /// The coordinator checks the batch. If it is complete and not already
    /// being serviced, servicing starts and `true` is returned; otherwise
    /// nothing changes.
    pub fn start_service(&mut self) -> (r: bool)
        requires
            old(self).wf(),
        ensures
            r == service_due(old(self)@),
            final(self)@ == step(old(self)@, Op::StartService),
            final(self).wf(),
    {
        if self.count == self.capacity && !self.in_service {
            self.in_service = true;
            true
        } else {
            false
        }
    }

    /// The coordinator has finished servicing: the count drops to zero and the
    /// batch moves on, which releases every member of the serviced batch.
    pub fn finish_service(&mut self)
        requires
            old(self).wf(),
            old(self)@.in_service,
        ensures
            final(self)@ == step(old(self)@, Op::FinishService),
            final(self)@.count == 0,
            final(self)@.released(old(self)@.round),
            final(self).wf(),
    {
        self.count = 0;
        self.round = if self.round == u64::MAX {
            0
        } else {
            self.round + 1
        };
        self.in_service = false;
    }
}

} // verus!
