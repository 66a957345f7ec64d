//! The laws this layer guarantees, stated and proved over the operations'
//! postcondition predicates.

use vstd::prelude::*;

use crate::action::SA_RESTART;
use crate::action::SIG_DFL;
use crate::action::SIG_IGN;
use crate::action::SignalDefault;
use crate::action::SignalNo;
use crate::flags::WaitStatus;
use crate::kernel::Kernel;
use crate::kernel::lemma_nodup_remove;
use crate::kernel::mem_write_post;
use crate::kernel::seq_idx;
use crate::ksignal::begin_delivery_post;
use crate::ksignal::complete_delivery_post;
use crate::ksignal::spec_action_of;
use crate::lifecycle::WaitError;
use crate::lifecycle::clone_post;
use crate::lifecycle::exit_post;
use crate::lifecycle::first_exited;
use crate::lifecycle::spec_clone_flags;
use crate::lifecycle::spec_wait_status_val;
use crate::lifecycle::wait4_post;
use crate::lifecycle::wait_post;
use crate::signal::DeliveryPlan;
use crate::signal::spec_lowest;
use crate::signal::spec_lowest_from;
use crate::signal::spec_sig_bit;
use crate::task::TaskState;

verus! {

/// The memory contents a task sees: its address space's map from address
/// to latest written value.
pub open spec fn spec_mem_of(k: Kernel, pid: u64) -> Map<usize, u64> {
    k.aspaces@[k.spec_proc(pid).aspace_id as int].mem()
}

/// No two simultaneously-live processes share a process ID: in every
/// well-formed kernel state — and every operation of this layer keeps the
/// state well-formed — distinct table entries carry distinct IDs.
pub proof fn lemma_pid_uniqueness(k: Kernel)
    requires
        k.wf(),
    ensures
        forall|i: int, j: int|
            0 <= i < j < k.procs@.len() ==> k.procs@[i].proc_id != k.procs@[j].proc_id,
{
}

/// Address-space sharing: after a clone with the address-space-sharing
/// flag, a write through the child is visible through the parent; after a
/// clone without it, writes through the child leave the parent's memory
/// exactly as it was.
pub proof fn lemma_aspace_sharing(
    k0: Kernel,
    k1: Kernel,
    parent: u64,
    flags: usize,
    stack: Option<usize>,
    child: u64,
    k2: Kernel,
    addr: usize,
    val: u64,
)
    requires
        k0.wf(),
        k0.spec_has_proc(parent),
        k0.procs@.len() < k0.max_tasks,
        clone_post(k0, k1, parent, flags, stack, Ok(child)),
        mem_write_post(k1, k2, child, addr, val),
    ensures
        spec_clone_flags(flags).spec_share_aspace() ==> spec_mem_of(k2, parent) == spec_mem_of(
            k1,
            parent,
        ).insert(addr, val),
        !spec_clone_flags(flags).spec_share_aspace() ==> spec_mem_of(k2, parent) == spec_mem_of(
            k1,
            parent,
        ),
{
    assert(parent != child) by {
        let i = seq_idx(k0.procs@, parent);
        assert(0 <= i < k0.procs@.len() && k0.procs@[i].proc_id == parent);
    }
    let pp = k0.spec_proc(parent);
    assert(k1.spec_proc(parent).aspace_id == pp.aspace_id);
    assert(k2.spec_proc(parent) == k1.spec_proc(parent));
    assert(pp.aspace_id < k0.aspaces@.len()) by {
        let i = seq_idx(k0.procs@, parent);
        assert(k0.proc_ok(k0.procs@[i]));
    }
    if spec_clone_flags(flags).spec_share_aspace() {
        assert(k1.spec_proc(child).aspace_id == pp.aspace_id);
    } else {
        assert(k1.spec_proc(child).aspace_id == k0.aspaces@.len());
        assert(k1.spec_proc(child).aspace_id != pp.aspace_id as int);
    }
}

/// Exactly-once reaping: once a wait for a specific child has returned its
/// exit status, that child's entry is gone from the children index, so a
/// second wait for the same ID finds nothing and fails — `NotExist` at the
/// probe, which the wait call reports as `NoSuchChild`.
pub proof fn lemma_exactly_once_reaping(
    k0: Kernel,
    k1: Kernel,
    k2: Kernel,
    parent: u64,
    pid: i32,
    got: (u64, i32),
    r2: Result<(u64, i32), WaitStatus>,
)
    requires
        k0.wf(),
        k0.spec_has_proc(parent),
        pid > 0,
        wait_post(k0, k1, parent, pid, Ok(got)),
        wait_post(k1, k2, parent, pid, r2),
    ensures
        r2 == Err::<(u64, i32), WaitStatus>(WaitStatus::NotExist),
        k2 == k1,
{
    let cs = k0.spec_proc(parent).children@;
    let c = pid as u64;
    assert(cs.contains(c));
    let k = choose|k: int| 0 <= k < cs.len() && cs[k] == c;
    assert(cs.no_duplicates()) by {
        let i = seq_idx(k0.procs@, parent);
        assert(0 <= i < k0.procs@.len() && k0.procs@[i].proc_id == parent);
        assert(k0.proc_ok(k0.procs@[i]));
    }
    lemma_nodup_remove(cs, k);
    assert(k1.spec_proc(parent).children@ == cs.remove(k));
    assert(!k1.spec_proc(parent).children@.contains(c));
}

/// The same exactly-once law at the wait-call level: the second wait for
/// the already-reaped child fails with `NoSuchChild`.
pub proof fn lemma_exactly_once_reaping_wait4(
    k0: Kernel,
    k1: Kernel,
    k2: Kernel,
    parent: u64,
    pid: i32,
    nonblocking1: bool,
    nonblocking2: bool,
    got: (u64, i32),
    r2: Result<(u64, i32), WaitError>,
)
    requires
        k0.wf(),
        k0.spec_has_proc(parent),
        pid > 0,
        wait4_post(k0, k1, parent, pid, nonblocking1, Ok(got)),
        wait4_post(k1, k2, parent, pid, nonblocking2, r2),
    ensures
        r2 == Err::<(u64, i32), WaitError>(WaitError::NoSuchChild),
        k2 == k1,
{
    let probe1 = choose|probe: Result<(u64, i32), WaitStatus>|
        #[trigger] wait_post(k0, k1, parent, pid, probe) && Ok::<(u64, i32), WaitError>(got)
            == (match probe {
            Ok(g) => Ok::<(u64, i32), WaitError>(g),
            Err(WaitStatus::NotExist) => Err::<(u64, i32), WaitError>(WaitError::NoSuchChild),
            Err(WaitStatus::Running) => if nonblocking1 {
                Err::<(u64, i32), WaitError>(WaitError::WouldBlock)
            } else {
                Err::<(u64, i32), WaitError>(WaitError::Again)
            },
            Err(WaitStatus::Exited) => Err::<(u64, i32), WaitError>(WaitError::NoSuchChild),
        });
    assert(probe1 == Ok::<(u64, i32), WaitStatus>(got));
    let probe2 = choose|probe: Result<(u64, i32), WaitStatus>|
        #[trigger] wait_post(k1, k2, parent, pid, probe) && r2 == (match probe {
            Ok(g) => Ok::<(u64, i32), WaitError>(g),
            Err(WaitStatus::NotExist) => Err::<(u64, i32), WaitError>(WaitError::NoSuchChild),
            Err(WaitStatus::Running) => if nonblocking2 {
                Err::<(u64, i32), WaitError>(WaitError::WouldBlock)
            } else {
                Err::<(u64, i32), WaitError>(WaitError::Again)
            },
            Err(WaitStatus::Exited) => Err::<(u64, i32), WaitError>(WaitError::NoSuchChild),
        });
    lemma_exactly_once_reaping(k0, k1, k2, parent, pid, got, probe2);
}

/// Exit-code encoding: the raw status a wait hands out for an exited child
/// is the cached exit code's low byte moved into the second byte.
pub proof fn lemma_exit_code_encoding(
    k0: Kernel,
    k1: Kernel,
    k2: Kernel,
    parent: u64,
    child: u64,
    pid: i32,
    status: i32,
    got: (u64, i32),
)
    requires
        k0.wf(),
        k0.spec_has_proc(parent),
        k0.spec_has_proc(child),
        pid > 0,
        pid as u64 == child,
        exit_post(k0, k1, child, status),
        wait_post(k1, k2, parent, pid, Ok(got)),
    ensures
        got.0 == child,
        got.1 == spec_wait_status_val(status),
{
    assert(k1.spec_proc(child).state == TaskState::Exited(status));
}

/// The exit-code chain, end to end: after a clone, the child's exit with
/// some status, and a wait for that child, the wait must succeed and hand
/// back exactly the child's ID and its encoded status — for status 5, the
/// raw word 1280.
pub proof fn lemma_exit_status_chain(
    k0: Kernel,
    k1: Kernel,
    k2: Kernel,
    k3: Kernel,
    parent: u64,
    flags: usize,
    stack: Option<usize>,
    child: u64,
    status: i32,
    pid: i32,
    r: Result<(u64, i32), WaitStatus>,
)
    requires
        k0.wf(),
        k0.spec_has_proc(parent),
        k0.procs@.len() < k0.max_tasks,
        clone_post(k0, k1, parent, flags, stack, Ok(child)),
        exit_post(k1, k2, child, status),
        pid > 0,
        pid as u64 == child,
        wait_post(k2, k3, parent, pid, r),
    ensures
        r == Ok::<(u64, i32), WaitStatus>((child, spec_wait_status_val(status))),
{
    assert(parent != child) by {
        let i = seq_idx(k0.procs@, parent);
        assert(0 <= i < k0.procs@.len() && k0.procs@[i].proc_id == parent);
    }
    let cs0 = k0.spec_proc(parent).children@;
    let cs2 = k2.spec_proc(parent).children@;
    assert(k2.spec_proc(parent) == k1.spec_proc(parent));
    assert(cs2 == cs0.push(child));
    assert(cs2.contains(child)) by {
        assert(cs2[cs0.len() as int] == child);
    }
    assert(k2.spec_proc(child).state == TaskState::Exited(status));
}

/// A kernel state in which none of a parent's children has exited: the
/// scan finds no exited child.
pub proof fn lemma_first_exited_all_running(k: Kernel, cs: Seq<u64>, i: int)
    requires
        0 <= i <= cs.len(),
        forall|j: int| i <= j < cs.len() ==> !(k.spec_proc(#[trigger] cs[j]).state is Exited),
    ensures
        first_exited(k, cs, i) == cs.len(),
    decreases cs.len() - i,
{
    if i < cs.len() {
        lemma_first_exited_all_running(k, cs, i + 1);
    }
}

/// Nonblocking wait with no exited children returns `WouldBlock`. The wait
/// call never suspends the caller by construction: it is one probe and a
/// decision, and suspension exists only where the caller chooses to yield.
pub proof fn lemma_nonblocking_wait_would_block(
    k0: Kernel,
    k1: Kernel,
    parent: u64,
    pid: i32,
    r: Result<(u64, i32), WaitError>,
)
    requires
        k0.wf(),
        k0.spec_has_proc(parent),
        pid <= 0,
        k0.spec_proc(parent).children@.len() > 0,
        forall|j: int|
            0 <= j < k0.spec_proc(parent).children@.len() ==> !(k0.spec_proc(
                #[trigger] k0.spec_proc(parent).children@[j],
            ).state is Exited),
        wait4_post(k0, k1, parent, pid, true, r),
    ensures
        r == Err::<(u64, i32), WaitError>(WaitError::WouldBlock),
        k1 == k0,
{
    let cs = k0.spec_proc(parent).children@;
    lemma_first_exited_all_running(k0, cs, 0);
    let probe = choose|probe: Result<(u64, i32), WaitStatus>|
        #[trigger] wait_post(k0, k1, parent, pid, probe) && r == (match probe {
            Ok(g) => Ok::<(u64, i32), WaitError>(g),
            Err(WaitStatus::NotExist) => Err::<(u64, i32), WaitError>(WaitError::NoSuchChild),
            Err(WaitStatus::Running) => Err::<(u64, i32), WaitError>(WaitError::WouldBlock),
            Err(WaitStatus::Exited) => Err::<(u64, i32), WaitError>(WaitError::NoSuchChild),
        });
    assert(probe == Err::<(u64, i32), WaitStatus>(WaitStatus::Running));
}

/// The same nonblocking guarantee for a named target: when the named
/// child stands in the caller's children index and still runs, the
/// nonblocking wait returns `WouldBlock` at once and changes nothing.
pub proof fn lemma_nonblocking_wait_target_running(
    k0: Kernel,
    k1: Kernel,
    parent: u64,
    pid: i32,
    r: Result<(u64, i32), WaitError>,
)
    requires
        k0.wf(),
        k0.spec_has_proc(parent),
        pid > 0,
        k0.spec_proc(parent).children@.contains(pid as u64),
        !(k0.spec_proc(pid as u64).state is Exited),
        wait4_post(k0, k1, parent, pid, true, r),
    ensures
        r == Err::<(u64, i32), WaitError>(WaitError::WouldBlock),
        k1 == k0,
{
    let probe = choose|probe: Result<(u64, i32), WaitStatus>|
        #[trigger] wait_post(k0, k1, parent, pid, probe) && r == (match probe {
            Ok(g) => Ok::<(u64, i32), WaitError>(g),
            Err(WaitStatus::NotExist) => Err::<(u64, i32), WaitError>(WaitError::NoSuchChild),
            Err(WaitStatus::Running) => Err::<(u64, i32), WaitError>(WaitError::WouldBlock),
            Err(WaitStatus::Exited) => Err::<(u64, i32), WaitError>(WaitError::NoSuchChild),
        });
    assert(probe == Err::<(u64, i32), WaitStatus>(WaitStatus::Running));
}

/// Default disposition: delivering a terminate-class or core-dump-class
/// signal with no installed handler ends the task, recording the signal as
/// the termination cause; delivering an ignore-class signal with no
/// installed handler leaves the task exactly as it ran, less the pending
/// bit.
pub proof fn lemma_default_disposition(
    k0: Kernel,
    k1: Kernel,
    pid: u64,
    sig: SignalNo,
    r: Result<DeliveryPlan, crate::kernel::KernelError>,
)
    requires
        k0.wf(),
        k0.spec_has_proc(pid),
        spec_action_of(k0, pid, sig).sa_handler == SIG_DFL,
        begin_delivery_post(k0, k1, pid, sig, r),
    ensures
        (SignalDefault::spec_get_action(sig) == SignalDefault::Terminate
            || SignalDefault::spec_get_action(sig) == SignalDefault::Core) ==> {
            &&& k1.spec_proc(pid).state == TaskState::Exited(sig.spec_num() as i32)
            &&& k1.spec_proc(pid).signal.exit_signal == Some(sig)
        },
        SignalDefault::spec_get_action(sig) == SignalDefault::Ignore ==> k1.spec_proc(pid).state
            == k0.spec_proc(pid).state,
{
    assert(SIG_DFL != SIG_IGN);
}

/// Decoding a signal's own number finds the signal again.
pub proof fn lemma_sig_num_roundtrip(sig: SignalNo)
    ensures
        SignalNo::spec_from_num(sig.spec_num()) == Some(sig),
{
}

/// Skipping clear mask bits does not change which signal is found.
pub proof fn lemma_lowest_from_skips(mask: u32, n: u32, stop: u32)
    requires
        1 <= n <= stop,
        forall|j: u32| n <= j < stop ==> mask & (1u32 << j) == 0,
    ensures
        spec_lowest_from(mask, n) == spec_lowest_from(mask, stop),
    decreases stop - n,
{
    if n < stop {
        assert(mask & (1u32 << n) == 0);
        lemma_lowest_from_skips(mask, (n + 1) as u32, stop);
    }
}

/// With exactly one signal pending, that signal is the next deliverable
/// one.
pub proof fn lemma_lowest_of_single(sig: SignalNo)
    ensures
        spec_lowest(spec_sig_bit(sig)) == Some(sig),
{
    let num = sig.spec_num();
    let mask = spec_sig_bit(sig);
    assert(forall|j: u32, k: u32| j < k < 32 ==> (1u32 << k) & (1u32 << j) == 0)
        by (bit_vector);
    assert(forall|k: u32| k < 32 ==> (1u32 << k) & (1u32 << k) != 0) by (bit_vector);
    lemma_lowest_from_skips(mask, 1, num);
    assert(mask & (1u32 << num) != 0);
    lemma_sig_num_roundtrip(sig);
}

/// The restart-syscall round trip: when a signal is the next deliverable
/// one, the syscall-return query answers with exactly the restart flag of
/// that signal's installed action — the flag set gives `Some(true)`, the
/// flag clear gives `Some(false)`.
pub proof fn lemma_restart_flag(k: Kernel, pid: u64, sig: SignalNo)
    requires
        k.wf(),
        k.spec_has_proc(pid),
        spec_lowest(k.spec_proc(pid).signal.signal_set.mask) == Some(sig),
    ensures
        k.spec_proc(pid).signal.spec_have_restart(
            k.handler_tables@[k.spec_proc(pid).signal.signal_handler as int],
        ) == Some(spec_action_of(k, pid, sig).sa_flags.spec_contains(SA_RESTART)),
{
}

/// Signal-frame round trip: completing a delivery begun for a custom
/// handler restores the stack pointer captured at its beginning, and — for
/// a handler not using the siginfo-style invocation, whose counter is read
/// back from the user context instead — the exact program counter too.
pub proof fn lemma_signal_frame_round_trip(
    k0: Kernel,
    k1: Kernel,
    k2: Kernel,
    pid: u64,
    sig: SignalNo,
    plan: DeliveryPlan,
    user_ctx_pc: usize,
    r2: bool,
)
    requires
        k0.wf(),
        k0.spec_has_proc(pid),
        spec_action_of(k0, pid, sig).sa_handler != SIG_DFL,
        spec_action_of(k0, pid, sig).sa_handler != SIG_IGN,
        k0.spec_proc(pid).signal.last_trap_frame_for_signal is None,
        begin_delivery_post(k0, k1, pid, sig, Ok(plan)),
        complete_delivery_post(k1, k2, pid, user_ctx_pc, r2),
    ensures
        r2 == true,
        k2.spec_proc(pid).uctx.sp == k0.spec_proc(pid).uctx.sp,
        !spec_action_of(k0, pid, sig).sa_flags.spec_contains(crate::action::SA_SIGINFO)
            ==> k2.spec_proc(pid).uctx == k0.spec_proc(pid).uctx,
{
    let frame = k0.spec_proc(pid).uctx;
    assert(k1.spec_proc(pid).signal.last_trap_frame_for_signal == Some(frame));
    if !k1.spec_proc(pid).signal.sig_info {
        assert(k2.spec_proc(pid).uctx == crate::trap::TrapContext {
            pc: frame.pc,
            sp: frame.sp,
            ret: frame.ret,
        });
    }
}

} // verus!
