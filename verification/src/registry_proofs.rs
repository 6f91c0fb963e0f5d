//! What holds of the task registry in every state that it can reach.
//!
//! The operations of the registry are the steps of a state machine. The
//! proofs here are about single steps and about whole runs of them; they
//! speak of the model, [`Registry`], and so of every
//! [`crate::task_manager::Scheduler`], whose operations are these steps.

use vstd::prelude::*;
use crate::errors::KernelError;
use crate::registry::Registry;
use crate::task_set::{MAX_TASKS, is_lowest, lemma_lowest_exists};

verus! {

/// One operation on the registry.
pub enum Step {
    /// `init` with the given policy.
    Init { is_preemptive: bool },
    /// An attempt to start the kernel.
    Start,
    /// An attempt to create task `id` on a stack that has room for the
    /// initial frame or has not, with the frame's address `sp`.
    Create { id: nat, stack_fits: bool, sp: usize },
    /// `block_tasks` with a mask that names `ids`.
    Block { ids: Set<nat> },
    /// `unblock_tasks` or `release` with a mask that names `ids`.
    Unblock { ids: Set<nat> },
    /// The current task exits.
    Exit,
    /// A scheduling decision.
    Preempt,
    /// The policy is set.
    SetPreemptive { is_preemptive: bool },
    /// The switch trap is serviced, saving the outgoing context at
    /// `saved_sp`.
    CompleteSwitch { saved_sp: usize },
}

/// The state after one step. A step that is refused changes nothing.
pub open spec fn step(r: Registry, s: Step) -> Registry {
    match s {
        Step::Init { is_preemptive } => Registry::init(is_preemptive),
        Step::Start => if r.start_verdict() is Ok {
            r.start()
        } else {
            r
        },
        Step::Create { id, stack_fits, sp } => if r.create_verdict(id, stack_fits) is Ok {
            r.create(id, sp)
        } else {
            r
        },
        Step::Block { ids } => r.block(ids),
        Step::Unblock { ids } => r.unblock(ids),
        Step::Exit => r.exit_current(),
        Step::Preempt => r.preempt(),
        Step::SetPreemptive { is_preemptive } => r.set_preemptive(is_preemptive),
        Step::CompleteSwitch { saved_sp } => r.complete_switch(saved_sp),
    }
}

/// The state after a run of steps from `r`, the first step first.
pub open spec fn run(r: Registry, steps: Seq<Step>) -> Registry
    decreases steps.len(),
{
    if steps.len() == 0 {
        r
    } else {
        step(run(r, steps.drop_last()), steps.last())
    }
}

/// The selected task is ready, and no ready task has a lower id; where no
/// task is ready the current task is selected. Either way the selected id
/// is below the capacity, and a selected task other than the current one
/// has a control block.
pub proof fn lemma_next_tid_is_ready(r: Registry)
    requires
        r.inv(),
    ensures
        r.next_tid() < MAX_TASKS,
        !r.ready().is_empty() ==> is_lowest(r.ready(), r.next_tid()),
        r.ready().is_empty() ==> r.next_tid() == r.curr_tid,
        r.next_tid() != r.curr_tid ==> r.created().contains(r.next_tid()),
{
    if !r.ready().is_empty() {
        let i = choose|i: nat| r.ready().contains(i);
        lemma_lowest_exists(r.ready(), i);
    }
}

/// A scheduling decision changes the current task and the handoff, and
/// nothing else: the task sets and the control blocks stay as they were.
pub proof fn lemma_preempt_keeps_tasks(r: Registry)
    requires
        r.inv(),
    ensures
        r.preempt().active == r.active,
        r.preempt().blocked == r.blocked,
        r.preempt().stack_pointers == r.stack_pointers,
        r.preempt().curr_tid == if r.is_running {
            r.next_tid()
        } else {
            r.curr_tid
        },
{
    lemma_next_tid_is_ready(r);
}

/// Every step preserves the invariant.
pub proof fn lemma_step_inv(r: Registry, s: Step)
    requires
        r.inv(),
    ensures
        step(r, s).inv(),
{
    lemma_next_tid_is_ready(r);
}

/// The invariant holds in every state that a run of steps reaches from a
/// state in which it holds.
pub proof fn lemma_run_inv(r: Registry, steps: Seq<Step>)
    requires
        r.inv(),
    ensures
        run(r, steps).inv(),
    decreases steps.len(),
{
    if steps.len() > 0 {
        lemma_run_inv(r, steps.drop_last());
        lemma_step_inv(run(r, steps.drop_last()), steps.last());
    }
}

/// In every state that can be reached from a fresh registry, the task that
/// the policy selects is the ready task with the lowest id, or the current
/// task if no task is ready.
pub proof fn lemma_reachable_selection(steps: Seq<Step>)
    ensures
        ({
            let r = run(Registry::fresh(), steps);
            &&& r.inv()
            &&& !r.ready().is_empty() ==> r.ready().contains(r.next_tid())
            &&& !r.ready().is_empty() ==> forall|j: nat|
                r.ready().contains(j) ==> r.next_tid() <= j
            &&& r.ready().is_empty() ==> r.next_tid() == r.curr_tid
        }),
{
    lemma_run_inv(Registry::fresh(), steps);
    lemma_next_tid_is_ready(run(Registry::fresh(), steps));
}

/// Of two scheduling decisions with no change of state in between, the
/// second one does nothing: at most one switch is made.
pub proof fn lemma_preempt_idempotent(r: Registry)
    requires
        r.inv(),
    ensures
        !r.preempt().switch_due(),
        r.preempt().preempt() == r.preempt(),
{
    lemma_next_tid_is_ready(r);
    let p = r.preempt();
    assert(p.ready() == r.ready());
}

/// Blocking takes the named tasks out of the ready set and releasing puts
/// the active ones among them back, and neither switches: the current task
/// and the handoff stay as they are until the next scheduling decision.
pub proof fn lemma_block_release_defer(r: Registry, ids: Set<nat>)
    ensures
        r.block(ids).ready() == r.ready().difference(ids),
        r.unblock(ids).ready() == r.ready().union(ids.intersect(r.active)),
        r.block(ids) == (Registry { blocked: r.block(ids).blocked, ..r }),
        r.unblock(ids) == (Registry { blocked: r.unblock(ids).blocked, ..r }),
{
}

/// A scheduling request has the same effect whatever the caller's
/// execution mode: only the path to the decision differs.
pub proof fn lemma_schedule_privilege_transparent(r: Registry)
    ensures
        r.scheduled(true) == r.scheduled(false),
        r.scheduled(true).curr_tid == r.scheduled(false).curr_tid,
{
}

/// A task that has exited is not ready, is selected only where it is still
/// the current task and no task is ready, and cannot be created anew.
pub proof fn lemma_exited_is_retired(r: Registry, id: nat)
    requires
        r.inv(),
        r.exited().contains(id),
    ensures
        !r.ready().contains(id),
        r.next_tid() == id ==> r.curr_tid == id && r.ready().is_empty(),
        forall|stack_fits: bool| #[trigger]
            r.create_verdict(id, stack_fits) == Err::<(), KernelError>(KernelError::DuplicateTask),
{
    lemma_next_tid_is_ready(r);
}

/// Exiting retires the current task, if it was an active one.
pub proof fn lemma_exit_retires_current(r: Registry)
    requires
        r.inv(),
        r.active.contains(r.curr_tid),
    ensures
        r.exit_current().exited().contains(r.curr_tid),
{
}

/// A task that has exited stays exited over one step, unless the step is
/// `init`, which begins anew.
pub proof fn lemma_step_keeps_exited(r: Registry, s: Step, id: nat)
    requires
        r.inv(),
        r.exited().contains(id),
        !(s is Init),
    ensures
        step(r, s).exited().contains(id),
{
    lemma_next_tid_is_ready(r);
}

/// Exit is permanent: a task that has exited stays exited over every run
/// of steps in which the registry is not initialised anew. It is never
/// ready again, and no attempt to create it succeeds.
pub proof fn lemma_exit_is_permanent(r: Registry, steps: Seq<Step>, id: nat)
    requires
        r.inv(),
        r.exited().contains(id),
        forall|k: int| 0 <= k < steps.len() ==> !(#[trigger] steps[k] is Init),
    ensures
        run(r, steps).exited().contains(id),
        !run(r, steps).ready().contains(id),
        !run(r, steps).active.contains(id),
    decreases steps.len(),
{
    if steps.len() > 0 {
        let before = steps.drop_last();
        lemma_exit_is_permanent(r, before, id);
        lemma_run_inv(r, before);
        lemma_step_keeps_exited(run(r, before), steps.last(), id);
    }
}

} // verus!
