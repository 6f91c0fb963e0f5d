//! The periodic time base: what the timer interrupt does on every tick.

use vstd::prelude::*;
use crate::clock::{Clock, EventTimeType, events_at, next_instant};
use crate::task_manager::Scheduler;

verus! {

/// Handles one tick of the system timer.
///
/// Under the preemptive policy a scheduling decision is made first, on the
/// state as the tick found it. Then the clock advances by one millisecond.
/// Returned are the notifications that the time-event subsystem is owed for
/// this tick, in the order of delivery: the millisecond, then each coarser
/// unit that the tick completed.
#[allow(non_snake_case)]
pub fn SysTick(tasks: &mut Scheduler, clock: &mut Clock) -> (events: Vec<EventTimeType>)
    ensures
        final(tasks)@ == if old(tasks)@.is_preemptive {
            old(tasks)@.preempt()
        } else {
            old(tasks)@
        },
        final(clock)@ == next_instant(old(clock)@),
        events@ == events_at(final(clock)@),
{
    if tasks.is_preemptive() {
        tasks.preempt();
    }
    clock.tick()
}

} // verus!
