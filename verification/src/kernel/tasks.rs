//! The operations that boot and application code call on the kernel.
//!
//! Each one works on the registry that the caller owns and hands in, and is
//! meant to be called with interrupts masked. Those that change what the
//! kernel runs on take the caller's passage through the privilege gate, or
//! its execution mode, and refuse or reroute a caller that is not
//! privileged.

use vstd::prelude::*;
use crate::errors::KernelError;
use crate::privilege::{PrivilegeGate, Route, route_for};
use crate::registry::Registry;
use crate::stack_frame::{frame_fits, frame_pointer, with_initial_frame};
use crate::task_manager::Scheduler;
use crate::task_set::{MAX_TASKS, mask_ids};

verus! {

/// Initialises the kernel: no task, not started, the given policy.
pub fn init(tasks: &mut Scheduler, is_preemptive: bool)
    ensures
        final(tasks)@ == Registry::init(is_preemptive),
{
    tasks.init(is_preemptive);
}

/// Starts the kernel and makes the first scheduling decision.
///
/// Fails, changing nothing, with `PrivilegeViolation` if the passage is not
/// elevated, and with `StateError` if the kernel was not initialised or is
/// running already.
pub fn start_kernel(tasks: &mut Scheduler, gate: &PrivilegeGate) -> (r: Result<(), KernelError>)
    ensures
        r == if gate@.privileged {
            old(tasks)@.start_verdict()
        } else {
            Err(KernelError::PrivilegeViolation)
        },
        r is Ok ==> final(tasks)@ == old(tasks)@.start().preempt(),
        r is Err ==> final(tasks)@ == old(tasks)@,
{
    if !gate.is_elevated() {
        return Err(KernelError::PrivilegeViolation);
    }
    match tasks.start_kernel() {
        Ok(()) => {
            tasks.preempt();
            Ok(())
        },
        Err(e) => Err(e),
    }
}

/// Creates the task `priority` on `stack`, which lies at address
/// `stack_base`; the task will start at `handler_fn` with `param` as its
/// argument.
///
/// Fails, changing nothing, with `PrivilegeViolation` if the passage is not
/// elevated, and otherwise as [`Scheduler::create_task`] does.
pub fn create_task(
    tasks: &mut Scheduler,
    gate: &PrivilegeGate,
    priority: usize,
    stack: &mut [u32],
    stack_base: usize,
    handler_fn: u32,
    param: u32,
) -> (r: Result<(), KernelError>)
    ensures
        r == if gate@.privileged {
            old(tasks)@.create_verdict(priority as nat, frame_fits(old(stack)@.len(), stack_base))
        } else {
            Err(KernelError::PrivilegeViolation)
        },
        r is Ok ==> final(tasks)@ == old(tasks)@.create(
            priority as nat,
            frame_pointer(old(stack)@.len(), stack_base),
        ) && final(stack)@ == with_initial_frame(old(stack)@, handler_fn, param),
        r is Err ==> final(tasks)@ == old(tasks)@ && final(stack)@ == old(stack)@,
{
    if !gate.is_elevated() {
        return Err(KernelError::PrivilegeViolation);
    }
    tasks.create_task(priority, stack, stack_base, handler_fn, param)
}

/// Yields the processor: asks for a scheduling decision on behalf of a
/// caller whose execution mode is `privileged`.
///
/// A privileged caller's decision is made here. For any other the route is
/// [`Route::Trap`]: the caller raises the supervisor trap, whose handler
/// makes the decision with [`preempt`].
pub fn schedule(tasks: &mut Scheduler, privileged: bool) -> (route: Route)
    ensures
        route == route_for(privileged),
        final(tasks)@ == old(tasks)@.schedule(privileged),
{
    let gate = PrivilegeGate::enter(privileged);
    match gate.route() {
        Route::Direct => {
            tasks.preempt();
            Route::Direct
        },
        Route::Trap => Route::Trap,
    }
}

/// Makes a scheduling decision: if the kernel runs and the task to run next
/// is not the current one, arms the switch to it. Never fails.
pub fn preempt(tasks: &mut Scheduler) -> (r: Result<(), KernelError>)
    ensures
        r == Ok::<(), KernelError>(()),
        final(tasks)@ == old(tasks)@.preempt(),
{
    tasks.preempt();
    Ok(())
}

/// Whether the timer tick may switch tasks.
pub fn is_preemptive(tasks: &Scheduler) -> (r: bool)
    ensures
        r == tasks@.is_preemptive,
{
    tasks.is_preemptive()
}

/// The id of the current task.
pub fn get_curr_tid(tasks: &Scheduler) -> (tid: usize)
    ensures
        tid == tasks@.curr_tid,
        tid < MAX_TASKS,
{
    tasks.get_curr_tid()
}

/// Parks the active tasks named by `tasks_mask`.
pub fn block_tasks(tasks: &mut Scheduler, tasks_mask: u32)
    ensures
        final(tasks)@ == old(tasks)@.block(mask_ids(tasks_mask)),
{
    tasks.block_tasks(tasks_mask);
}

/// Makes the tasks named by `tasks_mask` eligible again.
pub fn unblock_tasks(tasks: &mut Scheduler, tasks_mask: u32)
    ensures
        final(tasks)@ == old(tasks)@.unblock(mask_ids(tasks_mask)),
{
    tasks.unblock_tasks(tasks_mask);
}

/// Ends the current task for good and asks for a scheduling decision, as
/// [`schedule`] does for a caller whose execution mode is `privileged`.
pub fn task_exit(tasks: &mut Scheduler, privileged: bool) -> (route: Route)
    ensures
        route == route_for(privileged),
        final(tasks)@ == old(tasks)@.exit_current().schedule(privileged),
{
    tasks.exit_current();
    schedule(tasks, privileged)
}

/// Wakes the tasks named by `tasks_mask` on behalf of an event; they are
/// eligible from the next scheduling decision on.
pub fn release(tasks: &mut Scheduler, tasks_mask: u32)
    ensures
        final(tasks)@ == old(tasks)@.unblock(mask_ids(tasks_mask)),
{
    tasks.release(tasks_mask);
}

/// Lets the timer tick switch tasks.
pub fn enable_preemption(tasks: &mut Scheduler)
    ensures
        final(tasks)@ == old(tasks)@.set_preemptive(true),
{
    tasks.enable_preemption();
}

/// Keeps the timer tick from switching tasks.
pub fn disable_preemption(tasks: &mut Scheduler)
    ensures
        final(tasks)@ == old(tasks)@.set_preemptive(false),
{
    tasks.disable_preemption();
}

} // verus!
