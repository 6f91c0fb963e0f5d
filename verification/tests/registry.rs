use rt_kernel::errors::KernelError;
use rt_kernel::kernel::tasks::{
    block_tasks, create_task, disable_preemption, enable_preemption, get_curr_tid, init,
    is_preemptive, preempt, release, schedule, start_kernel, task_exit, unblock_tasks,
};
use rt_kernel::privilege::{PrivilegeGate, Route};
use rt_kernel::task_manager::{Handoff, Scheduler};

const STACK_BASE: usize = 0x2000_0000;
const ENTRY: u32 = 0x0800_0101;

fn make_task(tasks: &mut Scheduler, id: usize) -> Result<(), KernelError> {
    let gate = PrivilegeGate::enter(true);
    let mut stack = vec![0u32; 64];
    create_task(tasks, &gate, id, &mut stack, STACK_BASE + 0x400 * id, ENTRY, id as u32)
}

fn kernel_with(ids: &[usize]) -> Scheduler {
    let mut tasks = Scheduler::new();
    init(&mut tasks, false);
    for id in ids {
        assert_eq!(make_task(&mut tasks, *id), Ok(()));
    }
    tasks
}

fn running_kernel_with(ids: &[usize]) -> Scheduler {
    let mut tasks = kernel_with(ids);
    let gate = PrivilegeGate::enter(true);
    assert_eq!(start_kernel(&mut tasks, &gate), Ok(()));
    tasks
}

#[test]
fn new_registry_is_empty_and_idle() {
    let tasks = Scheduler::new();
    assert_eq!(tasks.active_tasks(), 0);
    assert_eq!(tasks.blocked_tasks(), 0);
    assert_eq!(tasks.get_curr_tid(), 0);
    assert!(!tasks.is_running());
    assert!(!tasks.is_preemptive());
    assert!(!tasks.switch_pending());
    assert_eq!(tasks.handoff(), Handoff { current: None, next: None });
}

#[test]
fn init_sets_the_policy_and_clears_the_tasks() {
    let mut tasks = running_kernel_with(&[1, 2]);
    init(&mut tasks, true);
    assert!(is_preemptive(&tasks));
    assert!(!tasks.is_running());
    assert_eq!(tasks.active_tasks(), 0);
    assert_eq!(get_curr_tid(&tasks), 0);
    assert_eq!(tasks.task_control_block(1), None);
    assert_eq!(make_task(&mut tasks, 1), Ok(()));
}

#[test]
fn create_task_marks_the_task_active() {
    let tasks = kernel_with(&[0, 3, 31]);
    assert_eq!(tasks.active_tasks(), 0x8000_0009);
    assert_eq!(tasks.blocked_tasks(), 0);
}

#[test]
fn create_task_before_init_is_a_state_error() {
    let mut tasks = Scheduler::new();
    assert_eq!(make_task(&mut tasks, 1), Err(KernelError::StateError));
    assert_eq!(tasks.active_tasks(), 0);
}

#[test]
fn create_task_beyond_capacity_is_out_of_range() {
    let mut tasks = kernel_with(&[]);
    assert_eq!(make_task(&mut tasks, 32), Err(KernelError::OutOfRange));
    assert_eq!(make_task(&mut tasks, usize::MAX), Err(KernelError::OutOfRange));
    assert_eq!(make_task(&mut tasks, 31), Ok(()));
}

#[test]
fn create_task_twice_is_a_duplicate() {
    let mut tasks = kernel_with(&[4]);
    assert_eq!(make_task(&mut tasks, 4), Err(KernelError::DuplicateTask));
    assert_eq!(tasks.active_tasks(), 0b1_0000);
}

#[test]
fn create_task_without_privilege_is_refused() {
    let mut tasks = kernel_with(&[]);
    let gate = PrivilegeGate::enter(false);
    let mut stack = vec![7u32; 64];
    let r = create_task(&mut tasks, &gate, 1, &mut stack, STACK_BASE, ENTRY, 0);
    assert_eq!(r, Err(KernelError::PrivilegeViolation));
    assert_eq!(tasks.active_tasks(), 0);
    assert_eq!(stack, vec![7u32; 64]);
}

#[test]
fn create_task_on_a_small_stack_is_out_of_range() {
    let mut tasks = kernel_with(&[]);
    let gate = PrivilegeGate::enter(true);
    let mut stack = vec![7u32; 15];
    let r = create_task(&mut tasks, &gate, 1, &mut stack, STACK_BASE, ENTRY, 0);
    assert_eq!(r, Err(KernelError::OutOfRange));
    assert_eq!(stack, vec![7u32; 15]);
    assert_eq!(tasks.active_tasks(), 0);
    assert_eq!(tasks.task_control_block(1), None);
    let mut stack = vec![7u32; 16];
    let r = create_task(&mut tasks, &gate, 1, &mut stack, STACK_BASE, ENTRY, 0);
    assert_eq!(r, Ok(()));
}

#[test]
fn create_task_reports_the_first_fault() {
    let mut tasks = Scheduler::new();
    let gate = PrivilegeGate::enter(false);
    let mut stack = vec![0u32; 4];
    let r = create_task(&mut tasks, &gate, 40, &mut stack, STACK_BASE, ENTRY, 0);
    assert_eq!(r, Err(KernelError::PrivilegeViolation));
    let gate = PrivilegeGate::enter(true);
    let r = create_task(&mut tasks, &gate, 40, &mut stack, STACK_BASE, ENTRY, 0);
    assert_eq!(r, Err(KernelError::StateError));
    init(&mut tasks, false);
    let r = create_task(&mut tasks, &gate, 40, &mut stack, STACK_BASE, ENTRY, 0);
    assert_eq!(r, Err(KernelError::OutOfRange));
    assert_eq!(make_task(&mut tasks, 5), Ok(()));
    let r = create_task(&mut tasks, &gate, 5, &mut stack, STACK_BASE, ENTRY, 0);
    assert_eq!(r, Err(KernelError::DuplicateTask));
}

#[test]
fn start_kernel_needs_init_and_runs_once() {
    let gate = PrivilegeGate::enter(true);
    let mut tasks = Scheduler::new();
    assert_eq!(start_kernel(&mut tasks, &gate), Err(KernelError::StateError));
    assert!(!tasks.is_running());
    init(&mut tasks, false);
    assert_eq!(start_kernel(&mut tasks, &gate), Ok(()));
    assert!(tasks.is_running());
    assert_eq!(start_kernel(&mut tasks, &gate), Err(KernelError::StateError));
    assert!(tasks.is_running());
}

#[test]
fn start_kernel_without_privilege_is_refused() {
    let mut tasks = kernel_with(&[2]);
    let gate = PrivilegeGate::enter(false);
    assert_eq!(start_kernel(&mut tasks, &gate), Err(KernelError::PrivilegeViolation));
    assert!(!tasks.is_running());
    assert!(!tasks.switch_pending());
}

#[test]
fn start_kernel_switches_to_the_first_ready_task() {
    let tasks = running_kernel_with(&[2, 5]);
    assert_eq!(get_curr_tid(&tasks), 2);
    assert!(tasks.switch_pending());
    assert_eq!(tasks.handoff(), Handoff { current: None, next: Some(2) });
}

#[test]
fn get_next_tid_is_the_lowest_ready_id() {
    let mut tasks = kernel_with(&[3, 7, 20]);
    assert_eq!(tasks.get_next_tid(), 3);
    block_tasks(&mut tasks, 1 << 3);
    assert_eq!(tasks.get_next_tid(), 7);
    block_tasks(&mut tasks, 1 << 7);
    assert_eq!(tasks.get_next_tid(), 20);
    unblock_tasks(&mut tasks, 1 << 3);
    assert_eq!(tasks.get_next_tid(), 3);
}

#[test]
fn get_next_tid_is_the_current_task_when_none_is_ready() {
    let mut tasks = running_kernel_with(&[4, 9]);
    assert_eq!(get_curr_tid(&tasks), 4);
    block_tasks(&mut tasks, u32::MAX);
    assert_eq!(tasks.blocked_tasks(), (1 << 4) | (1 << 9));
    assert_eq!(tasks.get_next_tid(), 4);
    let empty = kernel_with(&[]);
    assert_eq!(empty.get_next_tid(), 0);
}

#[test]
fn get_next_tid_changes_nothing() {
    let tasks = running_kernel_with(&[1, 2]);
    let before = (
        tasks.active_tasks(),
        tasks.blocked_tasks(),
        get_curr_tid(&tasks),
        tasks.handoff(),
        tasks.switch_pending(),
    );
    let _ = tasks.get_next_tid();
    let after = (
        tasks.active_tasks(),
        tasks.blocked_tasks(),
        get_curr_tid(&tasks),
        tasks.handoff(),
        tasks.switch_pending(),
    );
    assert_eq!(before, after);
}

#[test]
fn block_tasks_only_parks_active_tasks() {
    let mut tasks = kernel_with(&[0, 1, 2]);
    block_tasks(&mut tasks, 0b1010);
    assert_eq!(tasks.blocked_tasks(), 0b0010);
    block_tasks(&mut tasks, 0b0100);
    assert_eq!(tasks.blocked_tasks(), 0b0110);
    assert_eq!(tasks.active_tasks(), 0b0111);
}

#[test]
fn unblock_tasks_clears_the_mask() {
    let mut tasks = kernel_with(&[0, 1, 2]);
    block_tasks(&mut tasks, 0b0111);
    unblock_tasks(&mut tasks, 0b1101);
    assert_eq!(tasks.blocked_tasks(), 0b0010);
}

#[test]
fn block_and_unblock_do_not_switch() {
    let mut tasks = running_kernel_with(&[1, 2]);
    tasks.complete_switch(0);
    block_tasks(&mut tasks, 0b0010);
    assert_eq!(get_curr_tid(&tasks), 1);
    assert!(!tasks.switch_pending());
    unblock_tasks(&mut tasks, 0b0010);
    assert_eq!(get_curr_tid(&tasks), 1);
    assert!(!tasks.switch_pending());
}

#[test]
fn preempt_does_nothing_before_the_kernel_runs() {
    let mut tasks = kernel_with(&[3]);
    assert_eq!(preempt(&mut tasks), Ok(()));
    assert_eq!(get_curr_tid(&tasks), 0);
    assert!(!tasks.switch_pending());
    assert_eq!(tasks.handoff(), Handoff { current: None, next: None });
}

#[test]
fn preempt_switches_to_the_task_to_run_next() {
    let mut tasks = running_kernel_with(&[1, 2]);
    assert_eq!(tasks.complete_switch(0), tasks.task_control_block(1).map(|t| t.sp));
    block_tasks(&mut tasks, 0b0010);
    assert_eq!(preempt(&mut tasks), Ok(()));
    assert_eq!(get_curr_tid(&tasks), 2);
    assert!(tasks.switch_pending());
    assert_eq!(tasks.handoff(), Handoff { current: Some(1), next: Some(2) });
}

#[test]
fn preempt_twice_switches_once() {
    let mut tasks = running_kernel_with(&[1, 2]);
    tasks.complete_switch(0);
    block_tasks(&mut tasks, 0b0010);
    assert_eq!(preempt(&mut tasks), Ok(()));
    let after_first = (get_curr_tid(&tasks), tasks.handoff(), tasks.switch_pending());
    assert_eq!(after_first, (2, Handoff { current: Some(1), next: Some(2) }, true));
    assert_eq!(preempt(&mut tasks), Ok(()));
    let after_second = (get_curr_tid(&tasks), tasks.handoff(), tasks.switch_pending());
    assert_eq!(after_second, after_first);
    assert_eq!(tasks.get_next_tid(), get_curr_tid(&tasks));
}

#[test]
fn selected_task_is_ready_in_every_state_visited() {
    let mut tasks = running_kernel_with(&[0, 1, 2, 5]);
    let masks: [u32; 6] = [0b1, 0b10, 0b100110, 0b100111, 0b11, 0xffff_ffff];
    for (step, mask) in masks.iter().enumerate() {
        if step % 2 == 0 {
            block_tasks(&mut tasks, *mask);
        } else {
            release(&mut tasks, *mask);
        }
        let ready = tasks.active_tasks() & !tasks.blocked_tasks();
        let next = tasks.get_next_tid();
        if ready == 0 {
            assert_eq!(next, get_curr_tid(&tasks));
        } else {
            assert_eq!(next as u32, ready.trailing_zeros());
        }
        assert_eq!(preempt(&mut tasks), Ok(()));
        assert_eq!(get_curr_tid(&tasks), next);
    }
}

#[test]
fn exited_task_is_never_selected_again() {
    let mut tasks = running_kernel_with(&[0, 3]);
    block_tasks(&mut tasks, 0b0001);
    assert_eq!(preempt(&mut tasks), Ok(()));
    assert_eq!(get_curr_tid(&tasks), 3);
    assert_eq!(task_exit(&mut tasks, true), Route::Direct);
    assert_eq!(tasks.active_tasks(), 0b0001);
    assert_eq!(tasks.get_next_tid(), 3);
    release(&mut tasks, 0b0001);
    assert_eq!(preempt(&mut tasks), Ok(()));
    assert_eq!(get_curr_tid(&tasks), 0);
    block_tasks(&mut tasks, 0b1000);
    release(&mut tasks, 0b1000);
    unblock_tasks(&mut tasks, 0b1000);
    assert_ne!(tasks.get_next_tid(), 3);
    assert_eq!(preempt(&mut tasks), Ok(()));
    assert_ne!(get_curr_tid(&tasks), 3);
    assert_eq!(tasks.active_tasks() & 0b1000, 0);
}

#[test]
fn exited_id_is_not_handed_out_again() {
    let mut tasks = running_kernel_with(&[0, 3]);
    block_tasks(&mut tasks, 0b0001);
    assert_eq!(preempt(&mut tasks), Ok(()));
    assert_eq!(task_exit(&mut tasks, true), Route::Direct);
    assert_eq!(make_task(&mut tasks, 3), Err(KernelError::DuplicateTask));
    release(&mut tasks, 0b0001);
    assert_eq!(preempt(&mut tasks), Ok(()));
    assert_eq!(make_task(&mut tasks, 3), Err(KernelError::DuplicateTask));
    assert_eq!(tasks.active_tasks(), 0b0001);
}

#[test]
fn task_exit_unparks_and_retires_the_current_task() {
    let mut tasks = running_kernel_with(&[1, 2]);
    block_tasks(&mut tasks, 0b0010);
    assert_eq!(get_curr_tid(&tasks), 1);
    assert_eq!(task_exit(&mut tasks, true), Route::Direct);
    assert_eq!(tasks.active_tasks(), 0b0100);
    assert_eq!(tasks.blocked_tasks(), 0);
    assert_eq!(get_curr_tid(&tasks), 2);
}

#[test]
fn task_exit_of_an_unprivileged_task_waits_for_the_trap() {
    let mut tasks = running_kernel_with(&[1, 2]);
    assert_eq!(task_exit(&mut tasks, false), Route::Trap);
    assert_eq!(tasks.active_tasks(), 0b0100);
    assert_eq!(get_curr_tid(&tasks), 1);
    assert_eq!(preempt(&mut tasks), Ok(()));
    assert_eq!(get_curr_tid(&tasks), 2);
}

#[test]
fn task_exit_without_a_task_retires_nothing() {
    let mut tasks = kernel_with(&[]);
    assert_eq!(task_exit(&mut tasks, true), Route::Direct);
    assert_eq!(tasks.active_tasks(), 0);
    assert_eq!(make_task(&mut tasks, 0), Ok(()));
}

#[test]
fn blocked_task_is_released_for_the_next_decision() {
    let mut tasks = running_kernel_with(&[0, 1, 2]);
    tasks.complete_switch(0);
    assert_eq!(get_curr_tid(&tasks), 0);
    block_tasks(&mut tasks, 0b010);
    assert_eq!(tasks.blocked_tasks(), 0b010);
    assert_eq!(tasks.get_next_tid(), 0);
    block_tasks(&mut tasks, 0b001);
    assert_eq!(tasks.get_next_tid(), 2);
    assert_eq!(preempt(&mut tasks), Ok(()));
    assert_eq!(get_curr_tid(&tasks), 2);
    unblock_tasks(&mut tasks, 0b001);
    block_tasks(&mut tasks, 0b101);
    assert_eq!(tasks.get_next_tid(), 2);
    tasks.complete_switch(0);
    release(&mut tasks, 0b010);
    assert_eq!(tasks.blocked_tasks(), 0b101);
    assert_eq!(get_curr_tid(&tasks), 2);
    assert!(!tasks.switch_pending());
    assert_eq!(tasks.get_next_tid(), 1);
    assert_eq!(preempt(&mut tasks), Ok(()));
    assert_eq!(get_curr_tid(&tasks), 1);
}

#[test]
fn schedule_has_the_same_effect_in_either_mode() {
    let mut direct = running_kernel_with(&[1, 2]);
    let mut trapped = running_kernel_with(&[1, 2]);
    block_tasks(&mut direct, 0b0010);
    block_tasks(&mut trapped, 0b0010);
    assert_eq!(schedule(&mut direct, true), Route::Direct);
    assert_eq!(schedule(&mut trapped, false), Route::Trap);
    assert_eq!(get_curr_tid(&trapped), 1);
    assert_eq!(preempt(&mut trapped), Ok(()));
    assert_eq!(get_curr_tid(&direct), 2);
    assert_eq!(get_curr_tid(&trapped), 2);
    assert_eq!(direct.handoff(), trapped.handoff());
    assert_eq!(direct.switch_pending(), trapped.switch_pending());
    assert_eq!(direct.active_tasks(), trapped.active_tasks());
    assert_eq!(direct.blocked_tasks(), trapped.blocked_tasks());
}

#[test]
fn preemption_policy_is_toggled() {
    let mut tasks = kernel_with(&[]);
    assert!(!is_preemptive(&tasks));
    enable_preemption(&mut tasks);
    assert!(is_preemptive(&tasks));
    enable_preemption(&mut tasks);
    assert!(is_preemptive(&tasks));
    disable_preemption(&mut tasks);
    assert!(!is_preemptive(&tasks));
}

#[test]
fn first_switch_saves_no_context() {
    let mut tasks = running_kernel_with(&[2]);
    let sp = tasks.task_control_block(2).map(|t| t.sp);
    assert_eq!(tasks.handoff(), Handoff { current: None, next: Some(2) });
    assert_eq!(tasks.complete_switch(0xdead_0000), sp);
    assert!(!tasks.switch_pending());
    assert_eq!(tasks.task_control_block(2).map(|t| t.sp), sp);
}

#[test]
fn later_switch_saves_the_outgoing_context() {
    let mut tasks = running_kernel_with(&[1, 2]);
    tasks.complete_switch(0);
    let sp2 = tasks.task_control_block(2).map(|t| t.sp);
    block_tasks(&mut tasks, 0b0010);
    assert_eq!(preempt(&mut tasks), Ok(()));
    assert_eq!(tasks.complete_switch(0x2000_0abc), sp2);
    assert_eq!(tasks.task_control_block(1).map(|t| t.sp), Some(0x2000_0abc));
    assert_eq!(tasks.task_control_block(2).map(|t| t.sp), sp2);
    assert!(!tasks.switch_pending());
    assert_eq!(tasks.complete_switch(0x1234), None);
    assert_eq!(tasks.task_control_block(1).map(|t| t.sp), Some(0x2000_0abc));
}

#[test]
fn task_control_block_is_absent_for_unused_ids() {
    let tasks = kernel_with(&[6]);
    assert!(tasks.task_control_block(6).is_some());
    assert_eq!(tasks.task_control_block(5), None);
    assert_eq!(tasks.task_control_block(32), None);
    assert_eq!(tasks.task_control_block(usize::MAX), None);
}
