//! Decision logic of a coordinator / worker rendezvous protocol: two
//! bounded counters that fill up and are released as a batch by a single
//! coordinator, and the wake signal the coordinator sleeps on.
//!
//! The locking, waiting and sleeping live with the caller; every state change
//! the protocol allows is a method here, with its effect stated exactly.

mod laws;
mod rendezvous;
mod signal;
mod timing;

pub use laws::{
    lemma_full_batch_released, lemma_idle_checks_change_nothing, lemma_service_exclusive,
    lemma_stays_within_capacity,
};
pub use rendezvous::{
    advance, join_outcome, run, service_due, step, Join, Op, Rendezvous, RendezvousView,
};
pub use signal::WakeSignal;
pub use timing::{
    work_duration_millis, BATCH_SIZE, NUM_GROUP_WORKERS, NUM_READY_WORKERS, WORK_MILLIS_MAX,
    WORK_MILLIS_MIN,
};
