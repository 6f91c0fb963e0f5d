use rt_kernel::errors::KernelError;
use rt_kernel::privilege::{PrivilegeGate, Route};

#[test]
fn privileged_caller_goes_directly() {
    let mut gate = PrivilegeGate::enter(true);
    assert_eq!(gate.route(), Route::Direct);
    assert!(gate.is_elevated());
    assert!(!gate.leave());
    assert!(gate.is_elevated());
}

#[test]
fn unprivileged_caller_goes_through_the_trap_and_back() {
    let mut gate = PrivilegeGate::enter(false);
    assert_eq!(gate.route(), Route::Trap);
    assert!(!gate.is_elevated());
    assert_eq!(gate.trap_returned(true), Ok(()));
    assert!(gate.is_elevated());
    assert_eq!(gate.route(), Route::Trap);
    assert!(gate.leave());
    assert!(!gate.is_elevated());
    assert!(!gate.leave());
}

#[test]
fn failed_elevation_is_a_privilege_violation() {
    let mut gate = PrivilegeGate::enter(false);
    assert_eq!(gate.trap_returned(false), Err(KernelError::PrivilegeViolation));
    assert!(!gate.is_elevated());
    assert!(!gate.leave());
    assert!(!gate.is_elevated());
}

#[test]
fn privileged_caller_keeps_its_mode_whatever_the_trap_reports() {
    let mut gate = PrivilegeGate::enter(true);
    assert_eq!(gate.trap_returned(false), Ok(()));
    assert!(gate.is_elevated());
    assert!(!gate.leave());
}
