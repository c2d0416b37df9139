use vstd::prelude::*;
use crate::rendezvous::{join_outcome, run, service_due, step, Join, Op, RendezvousView};

verus! {

proof fn lemma_run_keeps_wf(v: RendezvousView, ops: Seq<Op>)
    requires
        v.wf(),
    ensures
        run(v, ops).wf(),
        run(v, ops).capacity == v.capacity,
    decreases ops.len(),
{
    if ops.len() > 0 {
        lemma_run_keeps_wf(step(v, ops[0]), ops.drop_first());
    }
}

/// Whatever joins and services happen, in whatever order, a counter that
/// starts empty never holds more members than its capacity.
pub proof fn lemma_stays_within_capacity(capacity: nat, ops: Seq<Op>)
    ensures
        run(RendezvousView::initial(capacity), ops).count <= capacity,
        run(RendezvousView::initial(capacity), ops).wf(),
{
    lemma_run_keeps_wf(RendezvousView::initial(capacity), ops);
}

/// The arrival that completes a batch is the one told to wake the
/// coordinator; the coordinator's next check then finds the batch due, and
/// once it has serviced it the count is zero again and every member of that
/// batch is released.
pub proof fn lemma_full_batch_released(v: RendezvousView)
    requires
        v.wf(),
        v.count + 1 == v.capacity,
    ensures
        join_outcome(v) == (Join::Joined { ticket: v.round, complete: true }),
        service_due(step(v, Op::Join)),
        ({
            let w = step(step(step(v, Op::Join), Op::StartService), Op::FinishService);
            &&& w.count == 0
            &&& w.released(v.round)
            &&& w.wf()
        }),
{
}

/// While the coordinator services a batch, nothing but finishing that
/// service changes the counter: no one joins, and no second service of the
/// same batch can start.
pub proof fn lemma_service_exclusive(v: RendezvousView, ops: Seq<Op>)
    requires
        v.wf(),
        v.in_service,
        forall|i: int| 0 <= i < ops.len() ==> !(#[trigger] ops[i] is FinishService),
    ensures
        run(v, ops) == v,
        !service_due(run(v, ops)),
    decreases ops.len(),
{
    if ops.len() > 0 {
        assert(!(ops[0] is FinishService));
        assert forall|i: int| 0 <= i < ops.drop_first().len() implies !(
        #[trigger] ops.drop_first()[i] is FinishService) by {
            assert(ops.drop_first()[i] == ops[i + 1]);
        }
        lemma_service_exclusive(step(v, ops[0]), ops.drop_first());
    }
}

/// Checks by the coordinator when no batch is due, however many there are,
/// change nothing.
pub proof fn lemma_idle_checks_change_nothing(v: RendezvousView, ops: Seq<Op>)
    requires
        !service_due(v),
        forall|i: int| 0 <= i < ops.len() ==> #[trigger] ops[i] is StartService,
    ensures
        run(v, ops) == v,
    decreases ops.len(),
{
    if ops.len() > 0 {
        assert(ops[0] is StartService);
        assert forall|i: int| 0 <= i < ops.drop_first().len() implies
        #[trigger] ops.drop_first()[i] is StartService by {
            assert(ops.drop_first()[i] == ops[i + 1]);
        }
        lemma_idle_checks_change_nothing(step(v, ops[0]), ops.drop_first());
    }
}

} // verus!
