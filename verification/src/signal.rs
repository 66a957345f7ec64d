//! Per-task signal state: the pending set, the handler table, the alternate
//! stack, and the frame-in-flight slot of the trap-frame swap protocol.

use vstd::prelude::*;

use crate::action::MAX_SIG_NUM;
use crate::action::SA_RESTART;
use crate::action::SigAction;
use crate::action::SignalNo;
use crate::trap::TrapContext;

verus! {

/// The set of pending signals of one task, as a bitmask with bit `n` for
/// signal number `n`. At most one instance of each signal is pending:
/// repeats are not queued.
#[derive(Clone, Copy, Debug, PartialEq, Eq, Structural)]
pub struct SignalSet {
    pub mask: u32,
}

/// The mask bit of one signal number.
pub open spec fn spec_sig_bit(sig: SignalNo) -> u32 {
    1u32 << sig.spec_num()
}

/// The lowest pending signal number at or above `n`, if any.
pub open spec fn spec_lowest_from(mask: u32, n: u32) -> Option<SignalNo>
    decreases MAX_SIG_NUM - n,
{
    if n >= MAX_SIG_NUM {
        None
    } else if mask & (1u32 << n) != 0 {
        SignalNo::spec_from_num(n)
    } else {
        spec_lowest_from(mask, (n + 1) as u32)
    }
}

/// The lowest pending signal number, if any: the deterministic tie-break
/// used to pick the next deliverable signal.
pub open spec fn spec_lowest(mask: u32) -> Option<SignalNo> {
    spec_lowest_from(mask, 1)
}

impl SignalSet {
    /// The empty pending set.
    pub fn new() -> (r: SignalSet)
        ensures
            r.mask == 0,
    {
        SignalSet { mask: 0 }
    }

    /// The signal's bit is set.
    pub open spec fn spec_contains(self, sig: SignalNo) -> bool {
        self.mask & spec_sig_bit(sig) != 0
    }

    /// Whether the signal is pending.
    pub fn contains(&self, sig: SignalNo) -> (r: bool)
        ensures
            r == self.spec_contains(sig),
    {
        let n = sig.num();
        self.mask & (1u32 << n) != 0
    }

    /// Mark the signal pending. Idempotent: an already-pending signal is not
    /// counted twice.
    pub fn insert(&mut self, sig: SignalNo)
        ensures
            final (self).mask == old(self).mask | spec_sig_bit(sig),
    {
        let n = sig.num();
        self.mask = self.mask | (1u32 << n);
    }

    /// Consume the signal's pending bit.
    pub fn clear(&mut self, sig: SignalNo)
        ensures
            final (self).mask == old(self).mask & !spec_sig_bit(sig),
    {
        let n = sig.num();
        self.mask = self.mask & !(1u32 << n);
    }

    /// Find the next deliverable signal: the lowest pending signal number.
    pub fn find_signal(&self) -> (r: Option<SignalNo>)
        ensures
            r == spec_lowest(self.mask),
    {
        let mut n: u32 = 1;
        while n < MAX_SIG_NUM as u32
            invariant
                1 <= n <= MAX_SIG_NUM,
                spec_lowest(self.mask) == spec_lowest_from(self.mask, n),
            decreases MAX_SIG_NUM - n,
        {
            if self.mask & (1u32 << n) != 0 {
                return SignalNo::from_num(n);
            }
            n = n + 1;
        }
        None
    }
}

/// The alternate signal stack of one task: a base address and a size. A
/// task starts with no alternate stack configured (base and size zero).
#[derive(Clone, Copy, Debug, PartialEq, Eq, Structural)]
pub struct SignalStack {
    /// Base address of the stack area.
    pub sp: usize,
    /// Size of the stack area in bytes.
    pub size: usize,
}

impl Default for SignalStack {
    /// No alternate stack configured.
    fn default() -> (r: SignalStack)
        ensures
            r == (SignalStack { sp: 0, size: 0 }),
    {
        SignalStack { sp: 0, size: 0 }
    }
}

impl SignalStack {
    /// An alternate stack is configured.
    pub open spec fn spec_configured(self) -> bool {
        self.size != 0
    }

    /// The stack top a handler starts from: stacks grow down from the end
    /// of the configured area.
    pub open spec fn spec_top(self) -> int {
        self.sp + self.size
    }
}

/// The handler table: the installed action of each signal number. Tasks
/// created with signal-handler sharing name the same table; others get a
/// copy, fixed at creation.
#[derive(Clone, Debug)]
pub struct SignalHandler {
    /// The installed actions, indexed by signal number; entry zero is
    /// unused.
    pub actions: Vec<SigAction>,
}

impl SignalHandler {
    /// The table has one entry per signal number.
    pub open spec fn wf(self) -> bool {
        self.actions@.len() == MAX_SIG_NUM
    }

    /// A fresh table: every signal keeps its default disposition.
    pub fn new() -> (r: SignalHandler)
        ensures
            r.wf(),
            forall|i: int| 0 <= i < MAX_SIG_NUM ==> r.actions@[i] == SigAction::spec_default(),
    {
        let mut actions: Vec<SigAction> = Vec::new();
        let mut i: usize = 0;
        while i < MAX_SIG_NUM
            invariant
                i == actions@.len(),
                i <= MAX_SIG_NUM,
                forall|j: int| 0 <= j < i ==> actions@[j] == SigAction::spec_default(),
            decreases MAX_SIG_NUM - i,
        {
            actions.push(SigAction::default());
            i = i + 1;
        }
        SignalHandler { actions }
    }

    /// An exact copy of this table, as clone makes when the handler table
    /// is not shared: afterwards, installs into one copy are invisible
    /// through the other.
    pub fn duplicate(&self) -> (r: SignalHandler)
        ensures
            r.actions@ == self.actions@,
    {
        let mut actions: Vec<SigAction> = Vec::new();
        let mut i: usize = 0;
        while i < self.actions.len()
            invariant
                i <= self.actions@.len(),
                actions@ == self.actions@.take(i as int),
            decreases self.actions@.len() - i,
        {
            actions.push(self.actions[i]);
            proof {
                assert(actions@ =~= self.actions@.take(i + 1));
            }
            i = i + 1;
        }
        proof {
            assert(self.actions@.take(self.actions@.len() as int) =~= self.actions@);
        }
        SignalHandler { actions }
    }

    /// The installed action of one signal.
    pub fn get_action(&self, sig: SignalNo) -> (r: SigAction)
        requires
            self.wf(),
        ensures
            r == self.actions@[sig.spec_num() as int],
    {
        let n = sig.num();
        self.actions[n as usize]
    }

    /// Install an action for one signal.
    pub fn set_action(&mut self, sig: SignalNo, action: SigAction)
        requires
            old(self).wf(),
        ensures
            final (self).wf(),
            final (self).actions@ == old(self).actions@.update(
                sig.spec_num() as int,
                action,
            ),
    {
        let n = sig.num();
        self.actions[n as usize] = action;
    }
}

/// The per-task signal module: pending set, frame-in-flight slot, the name
/// of the handler table the task uses, the exit signal reported to the
/// parent, and the alternate-stack descriptor.
#[derive(Clone, Debug)]
pub struct SignalModule {
    /// A siginfo-style handler is currently in flight, so the restored
    /// program counter is taken from the user context the handler saw.
    pub sig_info: bool,
    /// The frame-in-flight slot: empty, or exactly one saved pre-signal
    /// register image.
    pub last_trap_frame_for_signal: Option<TrapContext>,
    /// Which handler table the task uses, fixed at creation: an index into
    /// the kernel's tables. Tasks cloned with handler sharing carry the
    /// same index.
    pub signal_handler: usize,
    /// The pending-signal set.
    pub signal_set: SignalSet,
    /// The signal reported to the parent at termination, if any.
    pub exit_signal: Option<SignalNo>,
    /// The alternate signal stack.
    pub alternate_stack: SignalStack,
}

impl SignalModule {
    /// The state `init_signal` builds: an empty pending set, nothing in
    /// flight, no exit signal, no alternate stack.
    pub open spec fn spec_init(signal_handler: usize) -> SignalModule {
        SignalModule {
            sig_info: false,
            last_trap_frame_for_signal: None,
            signal_handler,
            signal_set: SignalSet { mask: 0 },
            exit_signal: None,
            alternate_stack: SignalStack { sp: 0, size: 0 },
        }
    }

    /// Init the signal module with the handler table it will use: an empty
    /// pending set, nothing in flight, no exit signal, no alternate stack.
    pub fn init_signal(signal_handler: usize) -> (r: SignalModule)
        ensures
            r == SignalModule::spec_init(signal_handler),
    {
        SignalModule {
            sig_info: false,
            last_trap_frame_for_signal: None,
            signal_handler,
            signal_set: SignalSet::new(),
            exit_signal: None,
            alternate_stack: SignalStack { sp: 0, size: 0 },
        }
    }

    /// What `have_restart_signal` answers, given the task's handler table:
    /// nothing is deliverable, or whether the next deliverable signal's
    /// action carries the restart flag.
    pub open spec fn spec_have_restart(self, table: SignalHandler) -> Option<bool> {
        match spec_lowest(self.signal_set.mask) {
            None => None,
            Some(sig) => Some(
                table.actions@[sig.spec_num() as int].sa_flags.spec_contains(SA_RESTART),
            ),
        }
    }

    /// Judge whether the next deliverable signal requests the interrupted
    /// syscall to restart: `None` when no signal needs to be delivered,
    /// otherwise the restart flag of that signal's installed action.
    /// `table` must be the handler table this module names.
    pub fn have_restart_signal(&self, table: &SignalHandler) -> (r: Option<bool>)
        requires
            table.wf(),
        ensures
            r == self.spec_have_restart(*table),
    {
        match self.signal_set.find_signal() {
            None => None,
            Some(sig) => Some(table.get_action(sig).need_restart()),
        }
    }

    /// Set the exit signal.
    pub fn set_exit_signal(&mut self, signal: SignalNo)
        ensures
            final (self).exit_signal == Some(signal),
            final (self).sig_info == old(self).sig_info,
            final (self).last_trap_frame_for_signal == old(self).last_trap_frame_for_signal,
            final (self).signal_handler == old(self).signal_handler,
            final (self).signal_set == old(self).signal_set,
            final (self).alternate_stack == old(self).alternate_stack,
    {
        self.exit_signal = Some(signal);
    }

    /// Get the exit signal.
    pub fn get_exit_signal(&self) -> (r: Option<SignalNo>)
        ensures
            r == self.exit_signal,
    {
        self.exit_signal
    }
}

/// What `begin_delivery` decided for one pending signal.
#[derive(Clone, Copy, Debug, PartialEq, Eq, Structural)]
pub enum DeliveryPlan {
    /// The signal is ignored: its pending bit was consumed, nothing else
    /// happens.
    Ignored,
    /// The default disposition ends the task, recording the causing signal
    /// as the termination cause.
    Terminated {
        /// The disposition also asks for a core dump.
        core_dump: bool,
    },
    /// The default disposition stops the task: a coarse no-op, job control
    /// is out of scope.
    Stopped,
    /// The default disposition resumes the task: a coarse no-op.
    Continued,
    /// A custom handler runs: the task's register state was swapped to this
    /// entry context and the interrupted frame is now in flight.
    Handler {
        /// Program counter: the handler address.
        pc: usize,
        /// Stack pointer: the alternate stack when asked for and
        /// configured, else the interrupted frame's stack.
        sp: usize,
        /// Return address: the registered restorer, or the kernel
        /// trampoline.
        ra: usize,
    },
}

} // verus!
