//! Scheduling core of a single-core, interrupt-driven real-time kernel.
//!
//! The crate holds the task registry with its priority policy, the context
//! switch handoff, the periodic time base and the privilege gate as plain
//! state machines. Hardware access (interrupt masking, the timer registers,
//! the switch trap) is left to the embedding program, which calls in here
//! from inside its critical sections.

pub mod errors;
pub mod task_set;
pub mod registry;
pub mod registry_proofs;
pub mod stack_frame;
pub mod task_manager;
pub mod clock;
pub mod privilege;
pub mod kernel;
pub mod interrupt_handlers;
