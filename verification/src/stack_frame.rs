//! The synthetic frame that makes a fresh stack look like that of a task
//! which was interrupted just as it began.
//!
//! The switch trampoline resumes a task by unstacking sixteen words from
//! its saved stack pointer upwards: the eight registers that software saves
//! (`r4` to `r11`), then the eight that the exception entry saves (`r0` to
//! `r3`, `r12`, `lr`, `pc`, `xpsr`). A new task gets such a frame at the
//! top of its stack, with its entry point as `pc` and its parameter as `r0`.

use vstd::prelude::*;

verus! {

/// Words that one saved context takes on a task's stack.
pub const FRAME_WORDS: usize = 16;

/// Offset of `r0`, the task's parameter, in the frame.
pub const FRAME_R0: usize = 8;

/// Offset of `pc`, the task's entry point, in the frame.
pub const FRAME_PC: usize = 14;

/// Offset of the program status word in the frame.
pub const FRAME_XPSR: usize = 15;

/// Program status of a task that has not run yet: only the Thumb state bit.
pub const INITIAL_XPSR: u32 = 0x0100_0000;

/// Word `i` of the initial frame of a task that starts at `entry` with the
/// argument `param`.
pub open spec fn frame_word(i: int, entry: u32, param: u32) -> u32 {
    if i == FRAME_R0 {
        param
    } else if i == FRAME_PC {
        entry
    } else if i == FRAME_XPSR {
        INITIAL_XPSR
    } else {
        0
    }
}

/// The initial frame of a task, lowest address first.
pub open spec fn initial_frame(entry: u32, param: u32) -> Seq<u32> {
    Seq::new(FRAME_WORDS as nat, |i: int| frame_word(i, entry, param))
}

/// A stack of `len` words at address `base` has room for a frame, and all
/// of it can be addressed.
pub open spec fn frame_fits(len: nat, base: usize) -> bool {
    len >= FRAME_WORDS && base + 4 * len <= usize::MAX
}

/// Address of the frame's first word: the new task's saved stack pointer.
pub open spec fn frame_pointer(len: nat, base: usize) -> usize {
    (base + 4 * (len - FRAME_WORDS)) as usize
}

/// The stack with its top sixteen words replaced by the initial frame.
pub open spec fn with_initial_frame(stack: Seq<u32>, entry: u32, param: u32) -> Seq<u32> {
    stack.subrange(0, stack.len() - FRAME_WORDS) + initial_frame(entry, param)
}

fn word_of_frame(i: usize, entry: u32, param: u32) -> (w: u32)
    ensures
        w == frame_word(i as int, entry, param),
{
    if i == FRAME_R0 {
        param
    } else if i == FRAME_PC {
        entry
    } else if i == FRAME_XPSR {
        INITIAL_XPSR
    } else {
        0
    }
}

/// Writes the initial frame of a task into the top of `stack`, which lies
/// at address `stack_base`, and returns the stack pointer to resume from.
/// A stack without room for the frame is left as it is.
pub fn prepare_stack(stack: &mut [u32], stack_base: usize, entry: u32, param: u32) -> (r: Option<
    usize,
>)
    ensures
        match r {
            Some(sp) => {
                &&& frame_fits(old(stack)@.len(), stack_base)
                &&& sp == frame_pointer(old(stack)@.len(), stack_base)
                &&& final(stack)@ == with_initial_frame(old(stack)@, entry, param)
            },
            None => {
                &&& !frame_fits(old(stack)@.len(), stack_base)
                &&& final(stack)@ == old(stack)@
            },
        },
{
    let len: usize = stack.len();
    if len < FRAME_WORDS {
        return None;
    }
    let bytes: usize = match len.checked_mul(4) {
        Some(b) => b,
        None => { return None; },
    };
    if stack_base.checked_add(bytes).is_none() {
        return None;
    }
    let first: usize = len - FRAME_WORDS;
    let mut i: usize = 0;
    while i < FRAME_WORDS
        invariant
            i <= FRAME_WORDS,
            first + FRAME_WORDS == len,
            stack@.len() == len,
            stack@.len() == old(stack)@.len(),
            forall|j: int| 0 <= j < first ==> stack@[j] == old(stack)@[j],
            forall|j: int| 0 <= j < i ==> stack@[first + j] == frame_word(j, entry, param),
        decreases FRAME_WORDS - i,
    {
        stack[first + i] = word_of_frame(i, entry, param);
        i += 1;
    }
    assert(stack@ =~= with_initial_frame(old(stack)@, entry, param));
    Some(stack_base + 4 * first)
}

} // verus!
