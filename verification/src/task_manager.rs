//! The task registry: a fixed table of task control blocks, two bit sets
//! and the scheduling state, with the operations that keep them consistent.

use vstd::prelude::*;
use crate::errors::KernelError;
use crate::registry::Registry;
use crate::registry_proofs::lemma_next_tid_is_ready;
use crate::stack_frame::{frame_fits, frame_pointer, prepare_stack, with_initial_frame};
use crate::task_set::{MAX_TASKS, TaskSet, is_lowest, lemma_lowest_unique, mask_ids};

verus! {

/// What the kernel keeps of a task that is not running: its saved stack
/// pointer. Everything else of the task's context lies on its own stack.
/// The pointer is the block's only field, so the switch trampoline finds it
/// at the block's own address.
#[derive(Clone, Copy, Debug, PartialEq, Eq)]
pub struct TaskControlBlock {
    /// Address of the lowest word of the saved context.
    pub sp: usize,
}

/// The two slots through which a switch is handed to the trampoline, each
/// a task id to look up in the registry.
#[derive(Clone, Copy, Debug, PartialEq, Eq)]
pub struct Handoff {
    /// The task whose context is to be saved; none before the first switch.
    pub current: Option<usize>,
    /// The task whose context is to be resumed.
    pub next: Option<usize>,
}

/// The registry of tasks and the scheduling state of one kernel.
///
/// A task's id is its slot in the table and its priority: of two ready
/// tasks the one with the lower id runs. An id is handed out once; a task
/// that has exited keeps its slot, so the id is never given to another.
pub struct Scheduler {
    initialized: bool,
    is_preemptive: bool,
    is_running: bool,
    started: bool,
    curr_tid: usize,
    active_tasks: TaskSet,
    blocked_tasks: TaskSet,
    task_control_blocks: [Option<TaskControlBlock>; MAX_TASKS],
    os_curr_task: Option<usize>,
    os_next_task: Option<usize>,
    switch_pending: bool,
}

/// The slot of a handoff reference as a task id of the model.
pub open spec fn slot_id(slot: Option<usize>) -> Option<nat> {
    match slot {
        Some(id) => Some(id as nat),
        None => None,
    }
}

impl View for Scheduler {
    type V = Registry;

    closed spec fn view(&self) -> Registry {
        Registry {
            initialized: self.initialized,
            is_preemptive: self.is_preemptive,
            is_running: self.is_running,
            started: self.started,
            curr_tid: self.curr_tid as nat,
            active: self.active_tasks@,
            blocked: self.blocked_tasks@,
            stack_pointers: Map::new(
                |i: nat| i < MAX_TASKS && self.task_control_blocks@[i as int] is Some,
                |i: nat| self.task_control_blocks@[i as int]->Some_0.sp,
            ),
            os_curr_task: slot_id(self.os_curr_task),
            os_next_task: slot_id(self.os_next_task),
            switch_pending: self.switch_pending,
        }
    }
}

impl Scheduler {
    /// Every registry satisfies the invariant of its model.
    #[verifier::type_invariant]
    pub open spec fn well_formed(self) -> bool {
        self@.inv()
    }

    /// A registry that was not initialised yet: it holds no task.
    pub fn new() -> (s: Scheduler)
        ensures
            s@ == Registry::fresh(),
    {
        let s = Scheduler {
            initialized: false,
            is_preemptive: false,
            is_running: false,
            started: false,
            curr_tid: 0,
            active_tasks: TaskSet::empty(),
            blocked_tasks: TaskSet::empty(),
            task_control_blocks: [None; MAX_TASKS],
            os_curr_task: None,
            os_next_task: None,
            switch_pending: false,
        };
        assert(s@.stack_pointers =~= Map::<nat, usize>::empty());
        s
    }

    /// Resets the registry to its initial configuration: no task, kernel
    /// not started, the given scheduling policy.
    pub fn init(&mut self, is_preemptive: bool)
        ensures
            final(self)@ == Registry::init(is_preemptive),
    {
        let mut s = Scheduler::new();
        s.initialized = true;
        s.is_preemptive = is_preemptive;
        *self = s;
    }

    /// The id of the current task.
    pub fn get_curr_tid(&self) -> (tid: usize)
        ensures
            tid == self@.curr_tid,
            tid < MAX_TASKS,
    {
        proof {
            use_type_invariant(&*self);
        }
        self.curr_tid
    }

    /// Whether the timer tick may switch tasks.
    pub fn is_preemptive(&self) -> (r: bool)
        ensures
            r == self@.is_preemptive,
    {
        self.is_preemptive
    }

    /// Whether the kernel has been started.
    pub fn is_running(&self) -> (r: bool)
        ensures
            r == self@.is_running,
    {
        self.is_running
    }

    /// The task to run next: the ready task with the lowest id, or the
    /// current task where no task is ready.
    pub fn get_next_tid(&self) -> (tid: usize)
        ensures
            tid == self@.next_tid(),
            tid < MAX_TASKS,
            !self@.ready().is_empty() ==> is_lowest(self@.ready(), tid as nat),
            self@.ready().is_empty() ==> tid == self@.curr_tid,
    {
        proof {
            use_type_invariant(&*self);
            lemma_next_tid_is_ready(self@);
        }
        let ready = self.active_tasks.difference(&self.blocked_tasks);
        match ready.lowest() {
            Some(id) => {
                proof {
                    lemma_lowest_unique(self@.ready(), id as nat);
                }
                id
            },
            None => self.curr_tid,
        }
    }

    /// Starts the kernel. It can be started once, and only after `init`;
    /// otherwise nothing changes and `StateError` is returned.
    pub fn start_kernel(&mut self) -> (r: Result<(), KernelError>)
        ensures
            r == old(self)@.start_verdict(),
            r is Ok ==> final(self)@ == old(self)@.start(),
            r is Err ==> final(self)@ == old(self)@,
    {
        proof {
            use_type_invariant(&*self);
        }
        if !self.initialized || self.is_running {
            return Err(KernelError::StateError);
        }
        self.is_running = true;
        Ok(())
    }

    /// Creates the task `priority` on `stack`, which lies at address
    /// `stack_base`. The task will start at `handler_fn` with `param` as its
    /// argument: the top of the stack is overwritten with the frame that
    /// makes the first switch to the task resume there.
    ///
    /// Fails, changing nothing, with `StateError` before `init`, with
    /// `OutOfRange` for an id beyond the capacity, with `DuplicateTask` for
    /// an id that was created before, whether that task is still active or
    /// has exited, and with `OutOfRange` for a stack without room for the
    /// frame.
    pub fn create_task(
        &mut self,
        priority: usize,
        stack: &mut [u32],
        stack_base: usize,
        handler_fn: u32,
        param: u32,
    ) -> (r: Result<(), KernelError>)
        ensures
            r == old(self)@.create_verdict(
                priority as nat,
                frame_fits(old(stack)@.len(), stack_base),
            ),
            r is Ok ==> final(self)@ == old(self)@.create(
                priority as nat,
                frame_pointer(old(stack)@.len(), stack_base),
            ) && final(stack)@ == with_initial_frame(old(stack)@, handler_fn, param),
            r is Err ==> final(self)@ == old(self)@ && final(stack)@ == old(stack)@,
    {
        proof {
            use_type_invariant(&*self);
        }
        if !self.initialized {
            return Err(KernelError::StateError);
        }
        if priority >= MAX_TASKS {
            return Err(KernelError::OutOfRange);
        }
        if self.task_control_blocks[priority].is_some() {
            return Err(KernelError::DuplicateTask);
        }
        match prepare_stack(stack, stack_base, handler_fn, param) {
            Some(sp) => {
                self.task_control_blocks[priority] = Some(TaskControlBlock { sp });
                self.active_tasks = self.active_tasks.with(priority);
                assert(self@.stack_pointers =~= old(self)@.stack_pointers.insert(
                    priority as nat,
                    sp,
                ));
                Ok(())
            },
            None => Err(KernelError::OutOfRange),
        }
    }

    /// Parks the active tasks named by `tasks_mask`: they are not selected
    /// until they are unblocked or released. No switch is made here.
    pub fn block_tasks(&mut self, tasks_mask: u32)
        ensures
            final(self)@ == old(self)@.block(mask_ids(tasks_mask)),
    {
        proof {
            use_type_invariant(&*self);
        }
        let parked = TaskSet::from_mask(tasks_mask).intersect(&self.active_tasks);
        self.blocked_tasks = self.blocked_tasks.union(&parked);
    }

    /// Makes the tasks named by `tasks_mask` eligible again. No switch is
    /// made here.
    pub fn unblock_tasks(&mut self, tasks_mask: u32)
        ensures
            final(self)@ == old(self)@.unblock(mask_ids(tasks_mask)),
    {
        proof {
            use_type_invariant(&*self);
        }
        self.blocked_tasks = self.blocked_tasks.difference(&TaskSet::from_mask(tasks_mask));
    }

    /// Wakes the tasks named by `tasks_mask` on behalf of an event. They
    /// are eligible from the next scheduling decision on, which the caller
    /// requests where it wants the switch at once.
    pub fn release(&mut self, tasks_mask: u32)
        ensures
            final(self)@ == old(self)@.unblock(mask_ids(tasks_mask)),
    {
        self.unblock_tasks(tasks_mask);
    }

    /// Retires the current task: it is neither active nor blocked any more,
    /// and its id is not handed out again.
    pub fn exit_current(&mut self)
        ensures
            final(self)@ == old(self)@.exit_current(),
    {
        proof {
            use_type_invariant(&*self);
        }
        self.blocked_tasks = self.blocked_tasks.without(self.curr_tid);
        self.active_tasks = self.active_tasks.without(self.curr_tid);
    }

    /// Lets the timer tick switch tasks.
    pub fn enable_preemption(&mut self)
        ensures
            final(self)@ == old(self)@.set_preemptive(true),
    {
        proof {
            use_type_invariant(&*self);
        }
        self.is_preemptive = true;
    }

    /// Keeps the timer tick from switching tasks.
    pub fn disable_preemption(&mut self)
        ensures
            final(self)@ == old(self)@.set_preemptive(false),
    {
        proof {
            use_type_invariant(&*self);
        }
        self.is_preemptive = false;
    }

    /// Hands the processor from task `curr` to task `next`: exposes their
    /// control blocks in the handoff slots and arms the switch trap. The
    /// registers are exchanged later, when the trap is serviced.
    fn context_switch(&mut self, curr: usize, next: usize)
        requires
            old(self)@.created().contains(next as nat),
            old(self)@.started ==> old(self)@.created().contains(curr as nat),
        ensures
            final(self)@ == old(self)@.context_switch(curr as nat, next as nat),
    {
        proof {
            use_type_invariant(&*self);
        }
        if self.started {
            self.os_curr_task = Some(curr);
        }
        self.curr_tid = next;
        self.started = true;
        self.os_next_task = Some(next);
        self.switch_pending = true;
    }

    /// Makes a scheduling decision: if the kernel runs and the task to run
    /// next is not the current one, switches to it.
    pub fn preempt(&mut self)
        ensures
            final(self)@ == old(self)@.preempt(),
    {
        proof {
            use_type_invariant(&*self);
            lemma_next_tid_is_ready(self@);
        }
        let next_tid = self.get_next_tid();
        if self.is_running {
            if self.curr_tid != next_tid {
                self.context_switch(self.curr_tid, next_tid);
            }
        }
    }

    /// Whether a switch was armed that the trap has not serviced yet.
    pub fn switch_pending(&self) -> (r: bool)
        ensures
            r == self@.switch_pending,
    {
        self.switch_pending
    }

    /// The handoff slots as the last switch has left them.
    pub fn handoff(&self) -> (slots: Handoff)
        ensures
            slot_id(slots.current) == self@.os_curr_task,
            slot_id(slots.next) == self@.os_next_task,
    {
        Handoff { current: self.os_curr_task, next: self.os_next_task }
    }

    /// The control block of task `id`, if the task was ever created.
    pub fn task_control_block(&self, id: usize) -> (r: Option<TaskControlBlock>)
        ensures
            match r {
                Some(tcb) => self@.created().contains(id as nat) && tcb.sp
                    == self@.stack_pointers[id as nat],
                None => !self@.created().contains(id as nat),
            },
    {
        if id < MAX_TASKS {
            self.task_control_blocks[id]
        } else {
            None
        }
    }

    /// The active tasks as a bit mask.
    pub fn active_tasks(&self) -> (mask: u32)
        ensures
            mask_ids(mask) == self@.active,
    {
        self.active_tasks.mask()
    }

    /// The blocked tasks as a bit mask.
    pub fn blocked_tasks(&self) -> (mask: u32)
        ensures
            mask_ids(mask) == self@.blocked,
    {
        self.blocked_tasks.mask()
    }

    /// Services the switch trap on behalf of the trampoline: stores
    /// `saved_sp`, the stack pointer of the context just saved, in the
    /// control block that slot "current" exposes, and returns the stack
    /// pointer to resume from, that of slot "next". Before the first switch
    /// no slot "current" is exposed and nothing is stored. Without a pending
    /// switch nothing happens and `None` is returned.
    pub fn complete_switch(&mut self, saved_sp: usize) -> (r: Option<usize>)
        ensures
            r == old(self)@.resume_sp(),
            final(self)@ == old(self)@.complete_switch(saved_sp),
    {
        proof {
            use_type_invariant(&*self);
        }
        if !self.switch_pending {
            return None;
        }
        let next = match self.os_next_task {
            Some(n) => n,
            None => { return None; },
        };
        let resume = match self.task_control_blocks[next] {
            Some(tcb) => tcb.sp,
            None => { return None; },
        };
        match self.os_curr_task {
            Some(c) => {
                self.task_control_blocks[c] = Some(TaskControlBlock { sp: saved_sp });
                assert(self@.stack_pointers =~= old(self)@.stack_pointers.insert(
                    c as nat,
                    saved_sp,
                ));
            },
            None => {},
        }
        self.switch_pending = false;
        Some(resume)
    }
}

} // verus!
