//! Faults reported by the kernel's fallible operations.

use vstd::prelude::*;

verus! {

/// Reasons for which a kernel operation is refused.
#[derive(Clone, Copy, Debug, PartialEq, Eq, Structural)]
pub enum KernelError {
    /// A task id at or beyond the registry's capacity, or a stack that
    /// cannot hold a task's initial frame.
    OutOfRange,
    /// The task id has been handed out before.
    DuplicateTask,
    /// The operation needs an elevated execution mode and did not get one.
    PrivilegeViolation,
    /// The kernel is not in a state that admits the operation: it was not
    /// initialised yet, or it is started a second time.
    StateError,
}

} // verus!
