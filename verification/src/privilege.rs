//! The privilege gate: the discipline by which kernel-mutating work runs
//! in the elevated execution mode and the caller's mode is restored after.
//!
//! This module decides and keeps the books; the mode itself changes in the
//! processor. A caller that is not privileged gets there through the
//! supervisor trap and in no other way, and reports back what mode it
//! landed in.

use vstd::prelude::*;
use crate::errors::KernelError;

verus! {

/// How privileged work is reached from the caller's mode.
#[must_use]
#[derive(Clone, Copy, Debug, PartialEq, Eq, Structural)]
pub enum Route {
    /// The caller is privileged already: the work runs in place.
    Direct,
    /// The caller is not privileged: it goes through the supervisor trap.
    Trap,
}

/// What a passage records: the mode its caller came in with and the mode
/// now.
pub struct GateState {
    /// The caller was privileged when it came in.
    pub entered_privileged: bool,
    /// The execution mode is privileged now.
    pub privileged: bool,
}

impl GateState {
    /// A caller that came in privileged stays so: only the trap changes
    /// the mode, and only upwards.
    pub open spec fn inv(self) -> bool {
        self.entered_privileged ==> self.privileged
    }
}

/// The route for a caller in the given mode.
pub open spec fn route_for(privileged: bool) -> Route {
    if privileged {
        Route::Direct
    } else {
        Route::Trap
    }
}

/// One passage through the privilege gate.
#[derive(Clone, Copy, Debug, PartialEq, Eq)]
pub struct PrivilegeGate {
    entered_privileged: bool,
    privileged: bool,
}

impl View for PrivilegeGate {
    type V = GateState;

    closed spec fn view(&self) -> GateState {
        GateState { entered_privileged: self.entered_privileged, privileged: self.privileged }
    }
}

impl PrivilegeGate {
    #[verifier::type_invariant]
    spec fn well_formed(self) -> bool {
        self@.inv()
    }

    /// Begins a passage for a caller whose execution mode is `privileged`.
    pub fn enter(privileged: bool) -> (gate: PrivilegeGate)
        ensures
            gate@ == (GateState { entered_privileged: privileged, privileged }),
    {
        PrivilegeGate { entered_privileged: privileged, privileged }
    }

    /// How the caller reaches the privileged work: directly if it came in
    /// privileged, through the trap if not.
    pub fn route(&self) -> (r: Route)
        ensures
            r == route_for(self@.entered_privileged),
    {
        if self.entered_privileged {
            Route::Direct
        } else {
            Route::Trap
        }
    }

    /// Records the mode in which the supervisor trap has left the caller.
    /// A caller that came in privileged needs no trap and stays privileged
    /// whatever is reported. For any other the elevation has failed, with
    /// `PrivilegeViolation`, if the mode reported is not privileged.
    pub fn trap_returned(&mut self, privileged: bool) -> (r: Result<(), KernelError>)
        ensures
            final(self)@ == (GateState {
                privileged: old(self)@.entered_privileged || privileged,
                ..old(self)@
            }),
            r == if final(self)@.privileged {
                Ok::<(), KernelError>(())
            } else {
                Err::<(), KernelError>(KernelError::PrivilegeViolation)
            },
    {
        proof {
            use_type_invariant(&*self);
        }
        self.privileged = self.entered_privileged || privileged;
        if self.privileged {
            Ok(())
        } else {
            Err(KernelError::PrivilegeViolation)
        }
    }

    /// Whether privileged work may run now.
    pub fn is_elevated(&self) -> (r: bool)
        ensures
            r == self@.privileged,
    {
        self.privileged
    }

    /// Ends the passage on any path, with or without a fault: the mode is
    /// the one the caller came in with again. Returns whether the caller
    /// has to give up the privilege that the trap gave it.
    #[must_use]
    pub fn leave(&mut self) -> (drop_privilege: bool)
        ensures
            drop_privilege == (old(self)@.privileged && !old(self)@.entered_privileged),
            final(self)@.entered_privileged == old(self)@.entered_privileged,
            final(self)@.privileged == old(self)@.entered_privileged,
    {
        proof {
            use_type_invariant(&*self);
        }
        let drop_privilege = self.privileged && !self.entered_privileged;
        self.privileged = self.entered_privileged;
        drop_privilege
    }
}

} // verus!
