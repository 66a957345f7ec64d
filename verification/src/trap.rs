//! The saved register image of a task, reduced to the fields this layer
//! reads and writes: program counter, stack pointer and return-value
//! register. The physical layout of the architecture's register-save frame
//! is the architecture layer's concern; only its accessor contract is used.

use vstd::prelude::*;

verus! {

/// Width of the instruction that raised the trap; the saved program counter
/// is advanced past it so the task resumes after the syscall.
pub const TRAP_INSTRUCTION_LEN: usize = 4;

/// A task's saved register image, as this layer sees it.
#[derive(Clone, Copy, Debug, PartialEq, Eq, Structural)]
pub struct TrapContext {
    /// The saved program counter.
    pub pc: usize,
    /// The saved user stack pointer.
    pub sp: usize,
    /// The saved return-value register.
    pub ret: usize,
}

impl TrapContext {
    /// A fresh user-entry context: enter user code at `entry` with stack
    /// `ustack_top`; the return-value register starts at zero.
    pub fn new(entry: usize, ustack_top: usize) -> (r: TrapContext)
        ensures
            r == (TrapContext { pc: entry, sp: ustack_top, ret: 0 }),
    {
        TrapContext { pc: entry, sp: ustack_top, ret: 0 }
    }

    /// The context a cloned child starts from: the parent's saved frame with
    /// the return value forced to zero (the child observes clone returning
    /// zero), the program counter advanced past the trapping instruction,
    /// and, when the caller supplied a stack, the stack pointer replaced.
    pub open spec fn spec_for_child(self, stack: Option<usize>) -> TrapContext {
        TrapContext {
            pc: (self.pc + TRAP_INSTRUCTION_LEN) as usize,
            sp: if stack is Some {
                stack->0
            } else {
                self.sp
            },
            ret: 0,
        }
    }

    /// Derive the child's entry context for clone.
    pub fn for_child(self, stack: Option<usize>) -> (r: TrapContext)
        requires
            self.pc + TRAP_INSTRUCTION_LEN <= usize::MAX,
        ensures
            r == self.spec_for_child(stack),
    {
        let sp = match stack {
            Some(s) => s,
            None => self.sp,
        };
        TrapContext { pc: self.pc + TRAP_INSTRUCTION_LEN, sp, ret: 0 }
    }
}

} // verus!
