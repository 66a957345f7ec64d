//! The signal subsystem on kernel state: raising, selecting and delivering
//! signals, the handler-table installs visible to every sharer, and the
//! trap-frame swap protocol.

use vstd::prelude::*;

use crate::action::SA_ONSTACK;
use crate::action::SA_SIGINFO;
use crate::action::SIG_DFL;
use crate::action::SIG_IGN;
use crate::action::SigAction;
use crate::action::SignalDefault;
use crate::action::SignalNo;
use crate::kernel::Kernel;
use crate::kernel::KernelError;
use crate::kernel::lemma_wf_update;
use crate::signal::DeliveryPlan;
use crate::signal::SignalModule;
use crate::signal::SignalSet;
use crate::signal::SignalStack;
use crate::signal::spec_lowest;
use crate::signal::spec_sig_bit;
use crate::task::TaskExt;
use crate::task::TaskState;
use crate::trap::TrapContext;

verus! {

/// Address of the kernel-provided signal-return trampoline, used as the
/// handler's return address when no restorer is registered.
pub const SIGNAL_TRAMPOLINE: usize = 0x1000;

/// Everything a per-task signal operation leaves alone: the set of live
/// processes, every other process's block, and the kernel's counters and
/// resources.
pub open spec fn frame_rest(pre: Kernel, post: Kernel, pid: u64) -> bool {
    &&& forall|q: u64| post.spec_has_proc(q) == pre.spec_has_proc(q)
    &&& forall|q: u64|
        q != pid && pre.spec_has_proc(q) ==> post.spec_proc(q) == pre.spec_proc(q)
    &&& post.next_pid == pre.next_pid
    &&& post.max_tasks == pre.max_tasks
    &&& post.next_ns_id == pre.next_ns_id
    &&& post.aspaces@ == pre.aspaces@
    &&& post.handler_tables@ == pre.handler_tables@
}

/// The installed action a task's handler table holds for one signal.
pub open spec fn spec_action_of(k: Kernel, pid: u64, sig: SignalNo) -> SigAction {
    k.handler_tables@[k.spec_proc(pid).signal.signal_handler as int].actions@[sig.spec_num() as int]
}

/// The delivery only consumed the signal's pending bit.
pub open spec fn consumed_only(pre: Kernel, post: Kernel, pid: u64, sig: SignalNo) -> bool {
    let p = pre.spec_proc(pid);
    &&& post.spec_proc(pid) == (TaskExt {
        signal: SignalModule {
            signal_set: SignalSet { mask: p.signal.signal_set.mask & !spec_sig_bit(sig) },
            ..p.signal
        },
        ..p
    })
    &&& frame_rest(pre, post, pid)
}

/// The default disposition ended the task: the pending bit is consumed,
/// the causing signal is recorded as the termination cause (as the exit
/// signal and as the cached exit code), and the task is a zombie.
pub open spec fn terminated_post(pre: Kernel, post: Kernel, pid: u64, sig: SignalNo) -> bool {
    let p = pre.spec_proc(pid);
    &&& post.spec_proc(pid) == (TaskExt {
        state: TaskState::Exited(sig.spec_num() as i32),
        signal: SignalModule {
            signal_set: SignalSet { mask: p.signal.signal_set.mask & !spec_sig_bit(sig) },
            exit_signal: Some(sig),
            ..p.signal
        },
        ..p
    })
    &&& frame_rest(pre, post, pid)
}

/// The stack the handler starts on: the top of the alternate stack when
/// the action asks for it and one is configured, else the interrupted
/// frame's stack pointer.
pub open spec fn spec_handler_sp(p: TaskExt, act: SigAction) -> usize {
    if act.sa_flags.spec_contains(SA_ONSTACK) && p.signal.alternate_stack.spec_configured() {
        (p.signal.alternate_stack.sp + p.signal.alternate_stack.size) as usize
    } else {
        p.uctx.sp
    }
}

/// The handler's return address: the registered restorer when the action
/// carries one, else the kernel trampoline.
pub open spec fn spec_handler_ra(act: SigAction) -> usize {
    match act.spec_get_storer() {
        Some(r) => r,
        None => SIGNAL_TRAMPOLINE,
    }
}

/// A custom handler was entered: the interrupted register image moved into
/// the frame-in-flight slot, the pending bit was consumed, and the task's
/// active register state became the handler's entry context.
pub open spec fn handler_entered_post(
    pre: Kernel,
    post: Kernel,
    pid: u64,
    sig: SignalNo,
    act: SigAction,
) -> bool {
    let p = pre.spec_proc(pid);
    &&& post.spec_proc(pid) == (TaskExt {
        uctx: TrapContext { pc: act.sa_handler, sp: spec_handler_sp(p, act), ret: 0 },
        signal: SignalModule {
            sig_info: act.sa_flags.spec_contains(SA_SIGINFO),
            last_trap_frame_for_signal: Some(p.uctx),
            signal_set: SignalSet { mask: p.signal.signal_set.mask & !spec_sig_bit(sig) },
            ..p.signal
        },
        ..p
    })
    &&& frame_rest(pre, post, pid)
}

/// What `begin_delivery` does, by the installed action for the signal:
/// ignore consumes the bit; the default disposition consumes the bit and
/// applies the fixed table (terminate and core-dump end the task; stop and
/// continue are coarse no-ops, job control being out of scope); a custom
/// handler swaps the trap frame — unless one is already in flight, which
/// is rejected as `Unsupported`, the state untouched.
pub open spec fn begin_delivery_post(
    pre: Kernel,
    post: Kernel,
    pid: u64,
    sig: SignalNo,
    r: Result<DeliveryPlan, KernelError>,
) -> bool {
    let p = pre.spec_proc(pid);
    let act = spec_action_of(pre, pid, sig);
    if act.sa_handler == SIG_IGN {
        &&& r == Ok::<DeliveryPlan, KernelError>(DeliveryPlan::Ignored)
        &&& consumed_only(pre, post, pid, sig)
    } else if act.sa_handler == SIG_DFL {
        match SignalDefault::spec_get_action(sig) {
            SignalDefault::Ignore => {
                &&& r == Ok::<DeliveryPlan, KernelError>(DeliveryPlan::Ignored)
                &&& consumed_only(pre, post, pid, sig)
            },
            SignalDefault::Cont => {
                &&& r == Ok::<DeliveryPlan, KernelError>(DeliveryPlan::Continued)
                &&& consumed_only(pre, post, pid, sig)
            },
            SignalDefault::Stop => {
                &&& r == Ok::<DeliveryPlan, KernelError>(DeliveryPlan::Stopped)
                &&& consumed_only(pre, post, pid, sig)
            },
            SignalDefault::Terminate => {
                &&& r == Ok::<DeliveryPlan, KernelError>(
                    DeliveryPlan::Terminated { core_dump: false },
                )
                &&& terminated_post(pre, post, pid, sig)
            },
            SignalDefault::Core => {
                &&& r == Ok::<DeliveryPlan, KernelError>(
                    DeliveryPlan::Terminated { core_dump: true },
                )
                &&& terminated_post(pre, post, pid, sig)
            },
        }
    } else {
        if p.signal.last_trap_frame_for_signal is Some {
            &&& r == Err::<DeliveryPlan, KernelError>(KernelError::Unsupported)
            &&& post == pre
        } else {
            &&& r == Ok::<DeliveryPlan, KernelError>(
                DeliveryPlan::Handler {
                    pc: act.sa_handler,
                    sp: spec_handler_sp(p, act),
                    ra: spec_handler_ra(act),
                },
            )
            &&& handler_entered_post(pre, post, pid, sig, act)
        }
    }
}

/// What `load_trap_for_signal` does: an in-flight frame becomes the task's
/// active register state again — with the program counter taken from the
/// user context a siginfo-style handler saw — and the slot empties; with
/// nothing in flight the call is a benign no-op.
pub open spec fn complete_delivery_post(
    pre: Kernel,
    post: Kernel,
    pid: u64,
    user_ctx_pc: usize,
    r: bool,
) -> bool {
    let p = pre.spec_proc(pid);
    match p.signal.last_trap_frame_for_signal {
        None => {
            &&& r == false
            &&& post == pre
        },
        Some(frame) => {
            &&& r == true
            &&& post.spec_proc(pid) == (TaskExt {
                uctx: TrapContext {
                    pc: if p.signal.sig_info {
                        user_ctx_pc
                    } else {
                        frame.pc
                    },
                    sp: frame.sp,
                    ret: frame.ret,
                },
                signal: SignalModule {
                    sig_info: false,
                    last_trap_frame_for_signal: None,
                    ..p.signal
                },
                ..p
            })
            &&& frame_rest(pre, post, pid)
        },
    }
}

impl Kernel {
    /// Mark a signal pending on a task. Idempotent: at most one instance of
    /// each signal is pending, repeats are not queued. May be called
    /// cross-task: one task signalling another.
    pub fn raise(&mut self, pid: u64, sig: SignalNo)
        requires
            old(self).wf(),
            old(self).spec_has_proc(pid),
        ensures
            final (self).wf(),
            final (self).spec_proc(pid) == (TaskExt {
                signal: SignalModule {
                    signal_set: SignalSet {
                        mask: old(self).spec_proc(pid).signal.signal_set.mask | spec_sig_bit(sig),
                    },
                    ..old(self).spec_proc(pid).signal
                },
                ..old(self).spec_proc(pid)
            }),
            frame_rest(*old(self), *final (self), pid),
    {
        let i = self.find_proc(pid).unwrap();
        self.procs[i].signal.signal_set.insert(sig);
        proof {
            lemma_wf_update(*old(self), *self, i as int, self.procs@[i as int]);
        }
    }

    /// The next deliverable signal of a task: the lowest pending signal
    /// number, the deterministic tie-break of this implementation.
    pub fn next_deliverable(&self, pid: u64) -> (r: Option<SignalNo>)
        requires
            self.wf(),
            self.spec_has_proc(pid),
        ensures
            r == spec_lowest(self.spec_proc(pid).signal.signal_set.mask),
    {
        let i = self.find_proc(pid).unwrap();
        self.procs[i].signal.signal_set.find_signal()
    }

    /// Whether the syscall-return path should transparently reissue an
    /// interrupted blocking call: nothing when no signal awaits delivery,
    /// otherwise the restart flag of the next deliverable signal's action.
    pub fn should_restart_syscall(&self, pid: u64) -> (r: Option<bool>)
        requires
            self.wf(),
            self.spec_has_proc(pid),
        ensures
            r == self.spec_proc(pid).signal.spec_have_restart(
                self.handler_tables@[self.spec_proc(pid).signal.signal_handler as int],
            ),
    {
        let i = self.find_proc(pid).unwrap();
        let tid = self.procs[i].signal.signal_handler;
        self.procs[i].signal.have_restart_signal(&self.handler_tables[tid])
    }

    /// The installed action of one signal, as the task's handler table has
    /// it.
    pub fn query_action(&self, pid: u64, sig: SignalNo) -> (r: SigAction)
        requires
            self.wf(),
            self.spec_has_proc(pid),
        ensures
            r == spec_action_of(*self, pid, sig),
    {
        let i = self.find_proc(pid).unwrap();
        let tid = self.procs[i].signal.signal_handler;
        self.handler_tables[tid].get_action(sig)
    }

    /// Install an action for one signal into the task's handler table. The
    /// install is visible to every task sharing that table and to no
    /// other.
    pub fn install_action(&mut self, pid: u64, sig: SignalNo, action: SigAction)
        requires
            old(self).wf(),
            old(self).spec_has_proc(pid),
        ensures
            final (self).wf(),
            final (self).procs@ == old(self).procs@,
            final (self).next_pid == old(self).next_pid,
            final (self).max_tasks == old(self).max_tasks,
            final (self).next_ns_id == old(self).next_ns_id,
            final (self).aspaces@ == old(self).aspaces@,
            final (self).handler_tables@.len() == old(self).handler_tables@.len(),
            final (self).handler_tables@[old(self).spec_proc(pid).signal.signal_handler as int].actions@
                == old(self).handler_tables@[old(self).spec_proc(pid).signal.signal_handler as int].actions@.update(
                sig.spec_num() as int,
                action,
            ),
            forall|t: int|
                0 <= t < old(self).handler_tables@.len() && t != old(self).spec_proc(
                    pid,
                ).signal.signal_handler ==> final (self).handler_tables@[t] == old(
                    self,
                ).handler_tables@[t],
    {
        let i = self.find_proc(pid).unwrap();
        let tid = self.procs[i].signal.signal_handler;
        self.handler_tables[tid].set_action(sig, action);
    }

    /// Install the alternate signal stack of a task.
    pub fn set_alternate_stack(&mut self, pid: u64, stack: SignalStack)
        requires
            old(self).wf(),
            old(self).spec_has_proc(pid),
            stack.sp + stack.size <= usize::MAX,
        ensures
            final (self).wf(),
            final (self).spec_proc(pid) == (TaskExt {
                signal: SignalModule { alternate_stack: stack, ..old(self).spec_proc(pid).signal },
                ..old(self).spec_proc(pid)
            }),
            frame_rest(*old(self), *final (self), pid),
    {
        let i = self.find_proc(pid).unwrap();
        self.procs[i].signal.alternate_stack = stack;
        proof {
            lemma_wf_update(*old(self), *self, i as int, self.procs@[i as int]);
        }
    }

    /// The alternate signal stack of a task.
    pub fn get_alternate_stack(&self, pid: u64) -> (r: SignalStack)
        requires
            self.wf(),
            self.spec_has_proc(pid),
        ensures
            r == self.spec_proc(pid).signal.alternate_stack,
    {
        let i = self.find_proc(pid).unwrap();
        self.procs[i].signal.alternate_stack
    }

    /// The signal recorded as a task's termination cause, if any.
    pub fn get_exit_signal(&self, pid: u64) -> (r: Option<SignalNo>)
        requires
            self.wf(),
            self.spec_has_proc(pid),
        ensures
            r == self.spec_proc(pid).signal.exit_signal,
    {
        let i = self.find_proc(pid).unwrap();
        self.procs[i].signal.get_exit_signal()
    }

    /// Deliver one signal to a task, consulting its handler table. Ignored
    /// signals (installed or by default disposition) only consume the
    /// pending bit; the default table may instead end the task (terminate
    /// or core-dump) or coarsely stop or continue it; a custom handler
    /// saves the interrupted frame into the frame-in-flight slot — at most
    /// one may be in flight, a second delivery is rejected as
    /// `Unsupported` — and redirects the task into the handler.
    pub fn begin_delivery(&mut self, pid: u64, sig: SignalNo) -> (r: Result<
        DeliveryPlan,
        KernelError,
    >)
        requires
            old(self).wf(),
            old(self).spec_has_proc(pid),
        ensures
            final (self).wf(),
            begin_delivery_post(*old(self), *final (self), pid, sig, r),
    {
        let i = self.find_proc(pid).unwrap();
        let tid = self.procs[i].signal.signal_handler;
        let act = self.handler_tables[tid].get_action(sig);
        if act.sa_handler == SIG_IGN {
            self.procs[i].signal.signal_set.clear(sig);
            proof {
                assert(self.procs@ =~= old(self).procs@.update(i as int, self.procs@[i as int]));
                lemma_wf_update(*old(self), *self, i as int, self.procs@[i as int]);
            }
            Ok(DeliveryPlan::Ignored)
        } else if act.sa_handler == SIG_DFL {
            match SignalDefault::get_action(sig) {
                SignalDefault::Ignore => {
                    self.procs[i].signal.signal_set.clear(sig);
                    proof {
                        assert(self.procs@ =~= old(self).procs@.update(i as int, self.procs@[i as int]));
                lemma_wf_update(*old(self), *self, i as int, self.procs@[i as int]);
                    }
                    Ok(DeliveryPlan::Ignored)
                },
                SignalDefault::Cont => {
                    self.procs[i].signal.signal_set.clear(sig);
                    proof {
                        assert(self.procs@ =~= old(self).procs@.update(i as int, self.procs@[i as int]));
                lemma_wf_update(*old(self), *self, i as int, self.procs@[i as int]);
                    }
                    Ok(DeliveryPlan::Continued)
                },
                SignalDefault::Stop => {
                    self.procs[i].signal.signal_set.clear(sig);
                    proof {
                        assert(self.procs@ =~= old(self).procs@.update(i as int, self.procs@[i as int]));
                lemma_wf_update(*old(self), *self, i as int, self.procs@[i as int]);
                    }
                    Ok(DeliveryPlan::Stopped)
                },
                SignalDefault::Terminate => {
                    let n = sig.num();
                    self.procs[i].signal.signal_set.clear(sig);
                    self.procs[i].signal.exit_signal = Some(sig);
                    self.procs[i].state = TaskState::Exited(n as i32);
                    proof {
                        assert(self.procs@ =~= old(self).procs@.update(i as int, self.procs@[i as int]));
                lemma_wf_update(*old(self), *self, i as int, self.procs@[i as int]);
                    }
                    Ok(DeliveryPlan::Terminated { core_dump: false })
                },
                SignalDefault::Core => {
                    let n = sig.num();
                    self.procs[i].signal.signal_set.clear(sig);
                    self.procs[i].signal.exit_signal = Some(sig);
                    self.procs[i].state = TaskState::Exited(n as i32);
                    proof {
                        assert(self.procs@ =~= old(self).procs@.update(i as int, self.procs@[i as int]));
                lemma_wf_update(*old(self), *self, i as int, self.procs@[i as int]);
                    }
                    Ok(DeliveryPlan::Terminated { core_dump: true })
                },
            }
        } else {
            if self.procs[i].signal.last_trap_frame_for_signal.is_some() {
                return Err(KernelError::Unsupported);
            }
            proof {
                assert(old(self).proc_ok(old(self).procs@[i as int]));
            }
            let interrupted = self.procs[i].uctx;
            let alt = self.procs[i].signal.alternate_stack;
            let sp = if act.sa_flags.contains(SA_ONSTACK) && alt.size != 0 {
                alt.sp + alt.size
            } else {
                interrupted.sp
            };
            let ra = match act.get_storer() {
                Some(restorer) => restorer,
                None => SIGNAL_TRAMPOLINE,
            };
            self.procs[i].signal.sig_info = act.sa_flags.contains(SA_SIGINFO);
            self.procs[i].signal.last_trap_frame_for_signal = Some(interrupted);
            self.procs[i].signal.signal_set.clear(sig);
            self.procs[i].uctx = TrapContext { pc: act.sa_handler, sp, ret: 0 };
            proof {
                assert(self.procs@ =~= old(self).procs@.update(i as int, self.procs@[i as int]));
                lemma_wf_update(*old(self), *self, i as int, self.procs@[i as int]);
            }
            Ok(DeliveryPlan::Handler { pc: act.sa_handler, sp, ra })
        }
    }

    /// Complete a delivery: load the in-flight pre-signal frame back as the
    /// task's active register state. A siginfo-style invocation may have
    /// adjusted the program counter; the caller hands in the counter read
    /// from the user context the handler saw, and it is used in that case.
    /// Returns whether a recoverable frame existed; `false` is benign.
    pub fn load_trap_for_signal(&mut self, pid: u64, user_ctx_pc: usize) -> (r: bool)
        requires
            old(self).wf(),
            old(self).spec_has_proc(pid),
        ensures
            final (self).wf(),
            complete_delivery_post(*old(self), *final (self), pid, user_ctx_pc, r),
    {
        let i = self.find_proc(pid).unwrap();
        let fr = self.procs[i].signal.last_trap_frame_for_signal;
        match fr {
            None => false,
            Some(frame) => {
                let pc = if self.procs[i].signal.sig_info {
                    user_ctx_pc
                } else {
                    frame.pc
                };
                self.procs[i].uctx = TrapContext { pc, sp: frame.sp, ret: frame.ret };
                self.procs[i].signal.last_trap_frame_for_signal = None;
                self.procs[i].signal.sig_info = false;
                proof {
                    assert(self.procs@ =~= old(self).procs@.update(i as int, self.procs@[i as int]));
                lemma_wf_update(*old(self), *self, i as int, self.procs@[i as int]);
                }
                true
            },
        }
    }
}

} // verus!
