//! The task registry as a mathematical state machine.
//!
//! [`Registry`] is what a [`crate::task_manager::Scheduler`] stands for: sets
//! of task ids in place of bit masks, a map from task id to saved stack
//! pointer in place of the table of control blocks. The scheduling policy and
//! every transition are spec functions here; what holds of them is proved in
//! [`crate::registry_proofs`].

use vstd::prelude::*;
use crate::errors::KernelError;
use crate::task_set::{MAX_TASKS, lowest_of};

verus! {

/// Abstract state of the task registry.
pub struct Registry {
    /// `init` has run.
    pub initialized: bool,
    /// The timer tick may switch tasks.
    pub is_preemptive: bool,
    /// The kernel has been started.
    pub is_running: bool,
    /// The first context switch has been made.
    pub started: bool,
    /// The current task.
    pub curr_tid: nat,
    /// Tasks that were created and have not exited.
    pub active: Set<nat>,
    /// Tasks that are parked.
    pub blocked: Set<nat>,
    /// Saved stack pointer of every task that was ever created.
    pub stack_pointers: Map<nat, usize>,
    /// Handoff slot "current": the task whose context is to be saved.
    pub os_curr_task: Option<nat>,
    /// Handoff slot "next": the task whose context is to be resumed.
    pub os_next_task: Option<nat>,
    /// The switch trap is armed and was not serviced yet.
    pub switch_pending: bool,
}

impl Registry {
    /// The state before `init`: no task, nothing running.
    pub open spec fn fresh() -> Registry {
        Registry {
            initialized: false,
            is_preemptive: false,
            is_running: false,
            started: false,
            curr_tid: 0,
            active: Set::empty(),
            blocked: Set::empty(),
            stack_pointers: Map::empty(),
            os_curr_task: None,
            os_next_task: None,
            switch_pending: false,
        }
    }

    /// The initial configuration that `init` establishes.
    pub open spec fn init(is_preemptive: bool) -> Registry {
        Registry { initialized: true, is_preemptive, ..Registry::fresh() }
    }

    /// Tasks that have a control block: every id that was ever created.
    pub open spec fn created(self) -> Set<nat> {
        self.stack_pointers.dom()
    }

    /// Tasks that were created and have exited since.
    pub open spec fn exited(self) -> Set<nat> {
        self.created().difference(self.active)
    }

    /// Tasks that may be selected: active and not blocked.
    pub open spec fn ready(self) -> Set<nat> {
        self.active.difference(self.blocked)
    }

    /// What holds in every state that the operations can reach.
    pub open spec fn inv(self) -> bool {
        &&& self.curr_tid < MAX_TASKS
        &&& forall|i: nat| self.created().contains(i) ==> i < MAX_TASKS
        &&& self.active.subset_of(self.created())
        &&& self.blocked.subset_of(self.active)
        &&& self.started ==> self.created().contains(self.curr_tid)
        &&& self.is_running ==> self.initialized
        &&& self.created().is_empty() || self.initialized
        &&& self.os_curr_task matches Some(c) ==> self.created().contains(c)
        &&& self.os_next_task matches Some(n) ==> self.created().contains(n)
        &&& self.switch_pending ==> self.os_next_task is Some
        &&& !self.started ==> self.os_curr_task is None && self.os_next_task is None
    }

    /// The scheduling policy: the lowest id among the ready tasks, and the
    /// current task where none is ready.
    pub open spec fn next_tid(self) -> nat {
        if self.ready().is_empty() {
            self.curr_tid
        } else {
            lowest_of(self.ready())
        }
    }

    /// A scheduling decision made now would switch tasks.
    pub open spec fn switch_due(self) -> bool {
        self.is_running && self.next_tid() != self.curr_tid
    }

    /// Hands the processor from `curr` to `next`: fills the handoff slots
    /// and arms the switch trap. Before the first switch there is no context
    /// to save, and slot "current" is left alone.
    pub open spec fn context_switch(self, curr: nat, next: nat) -> Registry {
        Registry {
            started: true,
            curr_tid: next,
            os_curr_task: if self.started {
                Some(curr)
            } else {
                self.os_curr_task
            },
            os_next_task: Some(next),
            switch_pending: true,
            ..self
        }
    }

    /// A scheduling decision: switch to the selected task if the kernel runs
    /// and that task is not the current one.
    pub open spec fn preempt(self) -> Registry {
        if self.switch_due() {
            self.context_switch(self.curr_tid, self.next_tid())
        } else {
            self
        }
    }

    /// A request for a scheduling decision by a caller in the given mode.
    /// A privileged caller's decision is made at once; an unprivileged
    /// caller is sent through the supervisor trap, and nothing changes
    /// until the trap is served.
    pub open spec fn schedule(self, privileged: bool) -> Registry {
        if privileged {
            self.preempt()
        } else {
            self
        }
    }

    /// The state once a request for a scheduling decision has been served:
    /// when `schedule` returns to a privileged caller, and when the trap's
    /// handler has made the decision for an unprivileged one.
    pub open spec fn scheduled(self, privileged: bool) -> Registry {
        if privileged {
            self.schedule(true)
        } else {
            self.schedule(false).preempt()
        }
    }

    /// Parks those of `ids` that are active.
    pub open spec fn block(self, ids: Set<nat>) -> Registry {
        Registry { blocked: self.blocked.union(ids.intersect(self.active)), ..self }
    }

    /// Makes the tasks in `ids` eligible again.
    pub open spec fn unblock(self, ids: Set<nat>) -> Registry {
        Registry { blocked: self.blocked.difference(ids), ..self }
    }

    /// Retires the current task for good.
    pub open spec fn exit_current(self) -> Registry {
        Registry {
            active: self.active.remove(self.curr_tid),
            blocked: self.blocked.remove(self.curr_tid),
            ..self
        }
    }

    /// Whether a task `id` may be created, given whether its stack has room
    /// for the initial frame; the first fault found is the one reported.
    pub open spec fn create_verdict(self, id: nat, stack_fits: bool) -> Result<(), KernelError> {
        if !self.initialized {
            Err(KernelError::StateError)
        } else if id >= MAX_TASKS {
            Err(KernelError::OutOfRange)
        } else if self.created().contains(id) {
            Err(KernelError::DuplicateTask)
        } else if !stack_fits {
            Err(KernelError::OutOfRange)
        } else {
            Ok(())
        }
    }

    /// Adds a task whose prepared stack has its top at `sp`.
    pub open spec fn create(self, id: nat, sp: usize) -> Registry {
        Registry {
            active: self.active.insert(id),
            stack_pointers: self.stack_pointers.insert(id, sp),
            ..self
        }
    }

    /// Whether the kernel may be started: once, and after `init`.
    pub open spec fn start_verdict(self) -> Result<(), KernelError> {
        if !self.initialized || self.is_running {
            Err(KernelError::StateError)
        } else {
            Ok(())
        }
    }

    /// Marks the kernel as started.
    pub open spec fn start(self) -> Registry {
        Registry { is_running: true, ..self }
    }

    /// Sets the scheduling policy.
    pub open spec fn set_preemptive(self, is_preemptive: bool) -> Registry {
        Registry { is_preemptive, ..self }
    }

    /// The switch trap is serviced: the outgoing context, if one was
    /// exposed, is saved at `saved_sp`, and the trap is no longer pending.
    pub open spec fn complete_switch(self, saved_sp: usize) -> Registry {
        if self.switch_pending {
            Registry {
                stack_pointers: match self.os_curr_task {
                    Some(c) => self.stack_pointers.insert(c, saved_sp),
                    None => self.stack_pointers,
                },
                switch_pending: false,
                ..self
            }
        } else {
            self
        }
    }

    /// The stack pointer that the serviced trap resumes from.
    pub open spec fn resume_sp(self) -> Option<usize> {
        match self.os_next_task {
            Some(n) if self.switch_pending => Some(self.stack_pointers[n]),
            _ => None,
        }
    }
}

} // verus!
