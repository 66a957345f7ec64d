//! The lifecycle manager: spawning the initial user task, clone, exit, and
//! wait/reap.

use vstd::prelude::*;

use crate::flags::CloneFlags;
use crate::flags::WaitStatus;
use crate::kernel::Kernel;
use crate::kernel::KernelError;
use crate::kernel::in_children;
use crate::kernel::lemma_idx_of;
use crate::kernel::lemma_nodup_remove;
use crate::kernel::lemma_seq_push;
use crate::kernel::lemma_seq_remove;
use crate::kernel::lemma_seq_update;
use crate::kernel::seq_has;
use crate::mem::AddrSpace;
use crate::signal::SignalHandler;
use crate::signal::SignalModule;
use crate::task::TaskExt;
use crate::task::TaskState;
use crate::time_stat::TimeStat;
use crate::trap::TRAP_INSTRUCTION_LEN;
use crate::trap::TrapContext;

verus! {

/// The raw clone-status word a reaper reports for an exit code: the low
/// byte of the code moved into the second byte, the wait-status
/// convention.
pub open spec fn spec_wait_status_val(code: i32) -> i32 {
    (((code as u32) % 256) * 256) as i32
}

/// Encode an exit code as the raw wait-status word.
pub fn encode_wait_status(code: i32) -> (r: i32)
    ensures
        r == spec_wait_status_val(code),
{
    let b: u32 = (code as u32) % 256;
    let s: u32 = b * 256;
    s as i32
}

/// What `spawn_user_task` leaves behind: one fresh root-level task in the
/// given address space, with a fresh handler table and namespace.
pub open spec fn spawn_post(
    pre: Kernel,
    post: Kernel,
    aspace: AddrSpace,
    uctx: TrapContext,
    r: u64,
) -> bool {
    &&& r == pre.next_pid
    &&& !pre.spec_has_proc(r)
    &&& post.spec_has_proc(r)
    &&& post.procs@.len() == pre.procs@.len() + 1
    &&& post.next_pid == pre.next_pid + 1
    &&& post.max_tasks == pre.max_tasks
    &&& post.next_ns_id == pre.next_ns_id + 1
    &&& {
        let p = post.spec_proc(r);
        &&& p.proc_id == r
        &&& p.parent_id == 1
        &&& p.children@ == Seq::<u64>::empty()
        &&& p.clear_child_tid == 0
        &&& p.uctx == uctx
        &&& p.aspace_id == pre.aspaces@.len()
        &&& p.ns_id == pre.next_ns_id
        &&& p.state == TaskState::Running
        &&& p.signal == SignalModule::spec_init(pre.handler_tables@.len() as usize)
        &&& p.time == TimeStat::spec_new()
    }
    &&& forall|q: u64| q != r ==> post.spec_has_proc(q) == pre.spec_has_proc(q)
    &&& forall|q: u64|
        q != r && pre.spec_has_proc(q) ==> post.spec_proc(q) == pre.spec_proc(q)
    &&& post.aspaces@ == pre.aspaces@.push(aspace)
    &&& post.handler_tables@.len() == pre.handler_tables@.len() + 1
    &&& forall|t: int|
        0 <= t < pre.handler_tables@.len() ==> post.handler_tables@[t] == pre.handler_tables@[t]
    &&& forall|n: int|
        0 <= n < crate::action::MAX_SIG_NUM ==> post.handler_tables@[pre.handler_tables@.len() as int].actions@[n]
            == crate::action::SigAction::spec_default()
}

impl Kernel {
    /// Spawn a user task entering user mode at the given context, in the
    /// given address space, with a fresh default handler table and a fresh
    /// resource namespace. Returns the new process ID. This is how the
    /// initial process enters the table; its parent link names the root ID.
    pub fn spawn_user_task(&mut self, aspace: AddrSpace, uctx: TrapContext) -> (r: u64)
        requires
            old(self).wf(),
            old(self).procs@.len() < old(self).max_tasks,
            old(self).next_pid < u64::MAX,
            old(self).next_ns_id < u64::MAX,
        ensures
            final (self).wf(),
            spawn_post(*old(self), *final (self), aspace, uctx, r),
    {
        let pid = self.next_pid;
        let aspace_id = self.aspaces.len();
        self.aspaces.push(aspace);
        let table_id = self.handler_tables.len();
        self.handler_tables.push(SignalHandler::new());
        let ns_id = self.next_ns_id;
        self.next_ns_id = self.next_ns_id + 1;
        let task = TaskExt::new(pid, uctx, aspace_id, ns_id, table_id);
        proof {
            assert(!seq_has(self.procs@, pid)) by {
                if seq_has(self.procs@, pid) {
                    let k = choose|k: int|
                        0 <= k < self.procs@.len() && self.procs@[k].proc_id == pid;
                    assert(old(self).wf());
                }
            }
            lemma_seq_push(self.procs@, task);
        }
        self.procs.push(task);
        self.next_pid = pid + 1;
        proof {
            let pre = *old(self);
            let s = pre.procs@;
            let s2 = self.procs@;
            assert(forall|k: int| 0 <= k < s.len() ==> s2[k] == s[k]);
            assert forall|k: int| 0 <= k < s2.len() implies self.proc_ok(#[trigger] s2[k]) by {
                if k < s.len() {
                    assert(pre.proc_ok(s[k]));
                }
            }
            assert forall|a: int, b: int, c: u64|
                in_children(s2, a, c) && in_children(s2, b, c) implies a == b by {
                assert(s2[s.len() as int].children@.len() == 0);
                assert(in_children(s, a, c) && in_children(s, b, c));
            }
            assert forall|a: int, c: u64| #[trigger] in_children(s2, a, c) implies seq_has(s2, c)
                && c != s2[a].proc_id by {
                assert(s2[s.len() as int].children@.len() == 0);
                assert(in_children(s, a, c));
                assert(seq_has(s, c));
            }
        }
        pid
    }
}

/// What `exit` leaves behind: the exit code cached in the task's state (a
/// zombie until reaped), and, when a tid-clear address was registered, a
/// zero written through it into the task's address space — an unvalidated
/// user-pointer write, a known gap of this layer, kept visible rather
/// than silently validated.
pub open spec fn exit_post(pre: Kernel, post: Kernel, pid: u64, status: i32) -> bool {
    let p = pre.spec_proc(pid);
    &&& post.spec_proc(pid) == (TaskExt { state: TaskState::Exited(status), ..p })
    &&& post.procs@.len() == pre.procs@.len()
    &&& forall|q: u64| post.spec_has_proc(q) == pre.spec_has_proc(q)
    &&& forall|q: u64|
        q != pid && pre.spec_has_proc(q) ==> post.spec_proc(q) == pre.spec_proc(q)
    &&& post.next_pid == pre.next_pid
    &&& post.max_tasks == pre.max_tasks
    &&& post.next_ns_id == pre.next_ns_id
    &&& post.handler_tables@ == pre.handler_tables@
    &&& if p.clear_child_tid != 0 {
        &&& post.aspaces@.len() == pre.aspaces@.len()
        &&& post.aspaces@[p.aspace_id as int].mem() == pre.aspaces@[p.aspace_id as int].mem()
            .insert(p.clear_child_tid as usize, 0)
        &&& forall|a: int|
            0 <= a < pre.aspaces@.len() && a != p.aspace_id ==> post.aspaces@[a]
                == pre.aspaces@[a]
    } else {
        post.aspaces@ == pre.aspaces@
    }
}

impl Kernel {
    /// Terminate a task: cache the exit code for later reaping and zero the
    /// registered tid-clear word, if any. The task stays in the table as a
    /// zombie; its children keep their entries and are never reparented.
    /// Waking waiters blocked on the cleared word is not implemented.
    /// In the running system the call does not return
    /// into the task; here the caller simply stops using the ID.
    pub fn exit(&mut self, pid: u64, status: i32)
        requires
            old(self).wf(),
            old(self).spec_has_proc(pid),
        ensures
            final (self).wf(),
            exit_post(*old(self), *final (self), pid, status),
    {
        let i = self.find_proc(pid).unwrap();
        let ctid = self.procs[i].clear_child_tid;
        if ctid != 0 {
            let a = self.procs[i].aspace_id;
            self.aspaces[a].write(ctid as usize, 0);
        }
        self.procs[i].state = TaskState::Exited(status);
        proof {
            crate::kernel::lemma_wf_update(
                *old(self),
                *self,
                i as int,
                TaskExt { state: TaskState::Exited(status), ..old(self).spec_proc(pid) },
            );
        }
    }
}

/// What `exit_group` leaves behind: the exit code cached in the task's
/// state and nothing else — in particular, this path bypasses the
/// tid-clear protocol and writes no user memory, even when a tid-clear
/// address is registered.
pub open spec fn exit_group_post(pre: Kernel, post: Kernel, pid: u64, status: i32) -> bool {
    let p = pre.spec_proc(pid);
    &&& post.spec_proc(pid) == (TaskExt { state: TaskState::Exited(status), ..p })
    &&& post.procs@.len() == pre.procs@.len()
    &&& forall|q: u64| post.spec_has_proc(q) == pre.spec_has_proc(q)
    &&& forall|q: u64|
        q != pid && pre.spec_has_proc(q) ==> post.spec_proc(q) == pre.spec_proc(q)
    &&& post.next_pid == pre.next_pid
    &&& post.max_tasks == pre.max_tasks
    &&& post.next_ns_id == pre.next_ns_id
    &&& post.handler_tables@ == pre.handler_tables@
    &&& post.aspaces@ == pre.aspaces@
}

impl Kernel {
    /// Terminate all threads of the calling task's thread group. Thread
    /// groups are out of scope here, so this ends exactly the calling
    /// task; unlike `exit`, the group-exit path skips the tid-clear
    /// protocol and writes nothing through a registered tid-clear address.
    pub fn exit_group(&mut self, pid: u64, status: i32)
        requires
            old(self).wf(),
            old(self).spec_has_proc(pid),
        ensures
            final (self).wf(),
            exit_group_post(*old(self), *final (self), pid, status),
    {
        let i = self.find_proc(pid).unwrap();
        self.procs[i].state = TaskState::Exited(status);
        proof {
            crate::kernel::lemma_wf_update(
                *old(self),
                *self,
                i as int,
                TaskExt { state: TaskState::Exited(status), ..old(self).spec_proc(pid) },
            );
        }
    }
}

} // verus!

verus! {

/// The effective clone flag set: the low bits of the raw word carry the
/// exit-signal number and are stripped before the flag bits are read.
pub open spec fn spec_clone_flags(flags: usize) -> CloneFlags {
    CloneFlags { bits: (flags & !0x3f) as u32 }
}

/// What the child's control block looks like right after a successful
/// clone: return value forced to zero and program counter advanced in the
/// seeded context, resources shared or copied as the flags decided, and
/// everything else fresh.
pub open spec fn child_pcb_ok(
    pre: Kernel,
    parent: u64,
    flags: usize,
    stack: Option<usize>,
    c: TaskExt,
) -> bool {
    let pp = pre.spec_proc(parent);
    let cf = spec_clone_flags(flags);
    &&& c.proc_id == pre.next_pid
    &&& c.parent_id == parent
    &&& c.children@ == Seq::<u64>::empty()
    &&& c.clear_child_tid == 0
    &&& c.uctx == pp.uctx.spec_for_child(stack)
    &&& c.aspace_id as int == if cf.spec_share_aspace() {
        pp.aspace_id as int
    } else {
        pre.aspaces@.len() as int
    }
    &&& c.ns_id == if cf.spec_share_namespace() {
        pp.ns_id
    } else {
        pre.next_ns_id
    }
    &&& c.state == TaskState::Running
    &&& c.signal == SignalModule::spec_init(
        if cf.spec_share_handlers() {
            pp.signal.signal_handler
        } else {
            pre.handler_tables@.len() as usize
        },
    )
    &&& c.time == TimeStat::spec_new()
}

/// What `clone_task` does. With room in the scheduler it registers exactly
/// one child: the child's ID is fresh and returned, the child is appended
/// to the parent's children index, the address space and handler table are
/// shared or copied as the flags decided, and no other process changes.
/// Without room it fails with `OutOfResources` and changes nothing: a
/// child is never partially registered.
pub open spec fn clone_post(
    pre: Kernel,
    post: Kernel,
    parent: u64,
    flags: usize,
    stack: Option<usize>,
    r: Result<u64, KernelError>,
) -> bool {
    let cf = spec_clone_flags(flags);
    let pp = pre.spec_proc(parent);
    if pre.procs@.len() < pre.max_tasks {
        &&& r == Ok::<u64, KernelError>(pre.next_pid)
        &&& post.next_pid == pre.next_pid + 1
        &&& post.max_tasks == pre.max_tasks
        &&& post.next_ns_id == pre.next_ns_id + if cf.spec_share_namespace() {
            0int
        } else {
            1int
        }
        &&& !pre.spec_has_proc(pre.next_pid)
        &&& post.spec_has_proc(pre.next_pid)
        &&& post.spec_has_proc(parent)
        &&& post.procs@.len() == pre.procs@.len() + 1
        &&& child_pcb_ok(pre, parent, flags, stack, post.spec_proc(pre.next_pid))
        &&& post.spec_proc(parent).children@ == pp.children@.push(pre.next_pid)
        &&& post.spec_proc(parent) == (TaskExt {
            children: post.spec_proc(parent).children,
            ..pp
        })
        &&& forall|q: u64|
            q != parent && q != pre.next_pid ==> post.spec_has_proc(q) == pre.spec_has_proc(q)
        &&& forall|q: u64|
            q != parent && q != pre.next_pid && pre.spec_has_proc(q) ==> post.spec_proc(q)
                == pre.spec_proc(q)
        &&& if cf.spec_share_aspace() {
            post.aspaces@ == pre.aspaces@
        } else {
            &&& post.aspaces@.len() == pre.aspaces@.len() + 1
            &&& forall|a: int|
                0 <= a < pre.aspaces@.len() ==> post.aspaces@[a] == pre.aspaces@[a]
            &&& post.aspaces@[pre.aspaces@.len() as int].mem() == pre.aspaces@[pp.aspace_id as int].mem()
        }
        &&& if cf.spec_share_handlers() {
            post.handler_tables@ == pre.handler_tables@
        } else {
            &&& post.handler_tables@.len() == pre.handler_tables@.len() + 1
            &&& forall|t: int|
                0 <= t < pre.handler_tables@.len() ==> post.handler_tables@[t]
                    == pre.handler_tables@[t]
            &&& post.handler_tables@[pre.handler_tables@.len() as int].actions@
                == pre.handler_tables@[pp.signal.signal_handler as int].actions@
        }
    } else {
        &&& r == Err::<u64, KernelError>(KernelError::OutOfResources)
        &&& post == pre
    }
}

impl Kernel {
    /// Clone the calling task into a new child task. The child's initial
    /// register state is the parent's saved frame with the return value
    /// forced to zero, the program counter advanced past the trapping
    /// instruction, and the stack pointer replaced when the caller supplied
    /// a stack. Address-space, handler-table and namespace sharing are
    /// decided solely by the flag word, once, here. The `ptid`, `tls` and
    /// `ctid` words of the clone ABI are accepted for compatibility and
    /// unused. Fails with `OutOfResources` when the scheduler has no room;
    /// it then never partially registers the child.
    pub fn clone_task(
        &mut self,
        parent: u64,
        flags: usize,
        stack: Option<usize>,
        _ptid: usize,
        _tls: usize,
        _ctid: usize,
    ) -> (r: Result<u64, KernelError>)
        requires
            old(self).wf(),
            old(self).spec_has_proc(parent),
            old(self).next_pid < u64::MAX,
            old(self).next_ns_id < u64::MAX,
            old(self).spec_proc(parent).uctx.pc + TRAP_INSTRUCTION_LEN <= usize::MAX,
        ensures
            final (self).wf(),
            clone_post(*old(self), *final (self), parent, flags, stack, r),
    {
        let pi = self.find_proc(parent).unwrap();
        if self.procs.len() >= self.max_tasks {
            return Err(KernelError::OutOfResources);
        }
        let cf = CloneFlags::from_bits((flags & !0x3f) as u32);
        let child_pid = self.next_pid;

        let parent_uctx = self.procs[pi].uctx;
        let parent_aspace = self.procs[pi].aspace_id;
        let parent_ns = self.procs[pi].ns_id;
        let parent_table = self.procs[pi].signal.signal_handler;

        let aspace_id = if cf.share_aspace() {
            parent_aspace
        } else {
            let dup = self.aspaces[parent_aspace].duplicate();
            let id = self.aspaces.len();
            self.aspaces.push(dup);
            id
        };
        let table_id = if cf.share_handlers() {
            parent_table
        } else {
            let dup = self.handler_tables[parent_table].duplicate();
            let id = self.handler_tables.len();
            self.handler_tables.push(dup);
            id
        };
        let ns_id = if cf.share_namespace() {
            parent_ns
        } else {
            let id = self.next_ns_id;
            self.next_ns_id = self.next_ns_id + 1;
            id
        };

        let child_uctx = parent_uctx.for_child(stack);
        let mut child = TaskExt::new(child_pid, child_uctx, aspace_id, ns_id, table_id);
        child.parent_id = parent;

        let ghost s = old(self).procs@;
        let ghost child_snap = child;

        self.procs[pi].children.push(child_pid);
        proof {
            lemma_seq_update(
                s,
                pi as int,
                TaskExt { children: self.procs@[pi as int].children, ..old(self).spec_proc(parent) },
            );
        }
        let ghost s_up = self.procs@;
        proof {
            assert(!seq_has(s_up, child_pid)) by {
                if seq_has(s_up, child_pid) {
                    let k = choose|k: int|
                        0 <= k < s_up.len() && s_up[k].proc_id == child_pid;
                    assert(s[k].proc_id == child_pid);
                    assert(old(self).proc_ok(s[k]));
                }
            }
            lemma_seq_push(s_up, child_snap);
        }
        self.procs.push(child);
        self.next_pid = child_pid + 1;

        proof {
            let pre = *old(self);
            let s2 = self.procs@;
            let pidx = pi as int;
            let cidx = s.len() as int;
            assert(forall|k: int| 0 <= k < s.len() && k != pidx ==> s2[k] == s[k]);
            assert(s2[pidx].children@ == s[pidx].children@.push(child_pid));
            assert(s2[cidx] == child_snap);
            // Every control block still satisfies the per-block facts.
            assert forall|k: int| 0 <= k < s2.len() implies self.proc_ok(#[trigger] s2[k]) by {
                if k < s.len() {
                    assert(pre.proc_ok(s[k]));
                    if k == pidx {
                        assert(s2[k].children@ == s[k].children@.push(child_pid));
                        assert(!s[k].children@.contains(child_pid)) by {
                            if s[k].children@.contains(child_pid) {
                                assert(in_children(s, k, child_pid));
                                assert(seq_has(s, child_pid));
                                let m = choose|m: int|
                                    0 <= m < s.len() && s[m].proc_id == child_pid;
                                assert(pre.proc_ok(s[m]));
                            }
                        }
                        assert(s2[k].children@.no_duplicates()) by {
                            crate::kernel::lemma_nodup_push(s[k].children@, child_pid);
                        }
                    }
                }
            }
            // The children indices still form a partition.
            assert forall|a: int, b: int, c: u64|
                in_children(s2, a, c) && in_children(s2, b, c) implies a == b by {
                assert(s2[cidx].children@.len() == 0);
                if c == child_pid {
                    assert(a != cidx && b != cidx);
                    if a != pidx {
                        assert(s2[a].children@ == s[a].children@);
                        assert(in_children(s, a, c));
                        assert(seq_has(s, c));
                        let m = choose|m: int| 0 <= m < s.len() && s[m].proc_id == c;
                        assert(pre.proc_ok(s[m]));
                    }
                    if b != pidx {
                        assert(s2[b].children@ == s[b].children@);
                        assert(in_children(s, b, c));
                        assert(seq_has(s, c));
                        let m = choose|m: int| 0 <= m < s.len() && s[m].proc_id == c;
                        assert(pre.proc_ok(s[m]));
                    }
                } else {
                    assert(a != cidx && b != cidx);
                    if a == pidx {
                        assert(s2[a].children@ == s[a].children@.push(child_pid));
                        assert(s2[a].children@.contains(c));
                        let j = choose|j: int| 0 <= j < s2[a].children@.len() && s2[a].children@[j] == c;
                        assert(j < s[a].children@.len());
                        assert(s[a].children@.contains(c));
                    }
                    if b == pidx {
                        assert(s2[b].children@ == s[b].children@.push(child_pid));
                        assert(s2[b].children@.contains(c));
                        let j = choose|j: int| 0 <= j < s2[b].children@.len() && s2[b].children@[j] == c;
                        assert(j < s[b].children@.len());
                        assert(s[b].children@.contains(c));
                    }
                    assert(in_children(s, a, c) && in_children(s, b, c));
                }
            }
            assert forall|a: int, c: u64| #[trigger] in_children(s2, a, c) implies seq_has(s2, c)
                && c != s2[a].proc_id by {
                assert(s2[cidx].children@.len() == 0);
                assert(a != cidx);
                if c == child_pid {
                    assert(seq_has(s2, child_pid));
                    assert(s2[a].proc_id == s[a].proc_id);
                    assert(s[a].proc_id < pre.next_pid) by {
                        assert(pre.proc_ok(s[a]));
                    }
                } else {
                    if a == pidx {
                        assert(s2[a].children@ == s[a].children@.push(child_pid));
                        assert(s2[a].children@.contains(c));
                        let j = choose|j: int| 0 <= j < s2[a].children@.len() && s2[a].children@[j] == c;
                        assert(j < s[a].children@.len());
                        assert(s[a].children@.contains(c));
                    } else {
                        assert(s2[a].children@ == s[a].children@);
                    }
                    assert(in_children(s, a, c));
                    assert(seq_has(s, c));
                    assert(seq_has(s2, c));
                    assert(s2[a].proc_id == s[a].proc_id);
                }
            }
        }
        Ok(child_pid)
    }
}

} // verus!

verus! {

/// The cached exit code of a task state (zero for a running task, which no
/// reap ever reads).
pub open spec fn spec_exit_code(st: TaskState) -> i32 {
    match st {
        TaskState::Running => 0,
        TaskState::Exited(code) => code,
    }
}

/// The index of the first child in the list, scanning from `i`, whose task
/// has exited; the list length when none has.
pub open spec fn first_exited(k: Kernel, cs: Seq<u64>, i: int) -> int
    decreases cs.len() - i,
{
    if i < 0 || i >= cs.len() {
        cs.len() as int
    } else if k.spec_proc(cs[i]).state is Exited {
        i
    } else {
        first_exited(k, cs, i + 1)
    }
}

/// What a successful reap of the child at position `k` of the parent's
/// children index leaves behind: the child's ID and encoded status
/// returned, the child's entry removed from the children index exactly
/// once, the child's control block destroyed, and nothing else changed.
pub open spec fn reaped_post(
    pre: Kernel,
    post: Kernel,
    parent: u64,
    k: int,
    r: Result<(u64, i32), WaitStatus>,
) -> bool {
    let cs = pre.spec_proc(parent).children@;
    let c = cs[k];
    let code = spec_exit_code(pre.spec_proc(c).state);
    &&& r == Ok::<(u64, i32), WaitStatus>((c, spec_wait_status_val(code)))
    &&& post.spec_has_proc(parent)
    &&& post.procs@.len() == pre.procs@.len() - 1
    &&& post.spec_proc(parent).children@ == cs.remove(k)
    &&& post.spec_proc(parent) == (TaskExt {
        children: post.spec_proc(parent).children,
        ..pre.spec_proc(parent)
    })
    &&& !post.spec_has_proc(c)
    &&& forall|q: u64| q != c ==> post.spec_has_proc(q) == pre.spec_has_proc(q)
    &&& forall|q: u64|
        q != c && q != parent && pre.spec_has_proc(q) ==> post.spec_proc(q) == pre.spec_proc(q)
    &&& post.next_pid == pre.next_pid
    &&& post.max_tasks == pre.max_tasks
    &&& post.next_ns_id == pre.next_ns_id
    &&& post.aspaces@ == pre.aspaces@
    &&& post.handler_tables@ == pre.handler_tables@
}

/// What one reap probe does. A non-positive target probes all children
/// (there is no process-group support: any non-positive target means any
/// child): with no children it fails with `NotExist`; the first child in
/// index order observed exited is reaped — which sibling that is, when
/// several exited concurrently, is deliberately left to the index order of
/// the probe's moment; with children but none exited it fails with
/// `Running`. A positive target considers exactly that child: `NotExist`
/// if it is not in the children index, `Running` if it has not exited,
/// otherwise it is reaped. A failed probe changes nothing.
pub open spec fn wait_post(
    pre: Kernel,
    post: Kernel,
    parent: u64,
    pid: i32,
    r: Result<(u64, i32), WaitStatus>,
) -> bool {
    let cs = pre.spec_proc(parent).children@;
    if pid <= 0 {
        if cs.len() == 0 {
            r == Err::<(u64, i32), WaitStatus>(WaitStatus::NotExist) && post == pre
        } else {
            let k = first_exited(pre, cs, 0);
            if k < cs.len() {
                reaped_post(pre, post, parent, k, r)
            } else {
                r == Err::<(u64, i32), WaitStatus>(WaitStatus::Running) && post == pre
            }
        }
    } else {
        let c = pid as u64;
        if !cs.contains(c) {
            r == Err::<(u64, i32), WaitStatus>(WaitStatus::NotExist) && post == pre
        } else {
            let k = choose|k: int| 0 <= k < cs.len() && cs[k] == c;
            if pre.spec_proc(c).state is Exited {
                reaped_post(pre, post, parent, k, r)
            } else {
                r == Err::<(u64, i32), WaitStatus>(WaitStatus::Running) && post == pre
            }
        }
    }
}

impl Kernel {
    /// Reap the child at position `k` of the parent's children index; it
    /// must have exited. Used by the wait probe once it has matched a
    /// child.
    fn reap_child(&mut self, pi: usize, k: usize) -> (r: (u64, i32))
        requires
            old(self).wf(),
            pi < old(self).procs@.len(),
            k < old(self).procs@[pi as int].children@.len(),
            old(self).spec_proc(old(self).procs@[pi as int].children@[k as int]).state
                is Exited,
        ensures
            final (self).wf(),
            reaped_post(
                *old(self),
                *final (self),
                old(self).procs@[pi as int].proc_id,
                k as int,
                Ok(r),
            ),
    {
        let ghost pre = *old(self);
        let ghost s = old(self).procs@;
        let ghost parent = s[pi as int].proc_id;
        let ghost cs = s[pi as int].children@;
        proof {
            lemma_idx_of(s, pi as int);
        }
        let c = self.procs[pi].children[k];
        proof {
            assert(in_children(s, pi as int, c)) by {
                assert(cs[k as int] == c);
            }
            assert(seq_has(s, c) && c != parent);
        }
        let ci = self.find_proc(c).unwrap();
        let st = self.procs[ci].state;
        let code = match st {
            TaskState::Exited(code) => code,
            TaskState::Running => 0,
        };
        proof {
            assert(ci != pi) by {
                assert(s[ci as int].proc_id == c && s[pi as int].proc_id == parent);
            }
            assert(pre.proc_ok(s[pi as int]));
        }
        self.procs[pi].children.remove(k);
        let ghost parent_new = TaskExt { children: self.procs@[pi as int].children, ..s[pi as int] };
        let ghost s_up = self.procs@;
        proof {
            assert(s_up == s.update(pi as int, parent_new));
            lemma_seq_update(s, pi as int, parent_new);
            lemma_nodup_remove(cs, k as int);
            assert(s_up[ci as int] == s[ci as int]);
            lemma_seq_remove(s_up, ci as int);
        }
        self.procs.remove(ci);
        let status = encode_wait_status(code);
        proof {
            let s2 = self.procs@;
            assert(s2 == s_up.remove(ci as int));
            // Index maps between the final table and the intermediate one.
            assert(forall|a: int| 0 <= a < ci ==> s2[a] == s_up[a]);
            assert(forall|a: int| ci <= a < s2.len() ==> s2[a] == s_up[a + 1]);
            // Per-block facts survive: only the parent's children shrank.
            assert forall|a: int| 0 <= a < s2.len() implies self.proc_ok(#[trigger] s2[a]) by {
                let a1: int = if a < ci {
                    a
                } else {
                    a + 1
                };
                assert(s2[a] == s_up[a1]);
                if a1 == pi {
                    assert(pre.proc_ok(s[pi as int]));
                } else {
                    assert(s_up[a1] == s[a1]);
                    assert(pre.proc_ok(s[a1]));
                }
            }
            // The children indices still form a partition.
            assert forall|a: int, b: int, x: u64|
                in_children(s2, a, x) && in_children(s2, b, x) implies a == b by {
                let a1: int = if a < ci {
                    a
                } else {
                    a + 1
                };
                let b1: int = if b < ci {
                    b
                } else {
                    b + 1
                };
                assert(s2[a] == s_up[a1] && s2[b] == s_up[b1]);
                assert(in_children(s, a1, x)) by {
                    if a1 == pi {
                        assert(s_up[a1].children@ == cs.remove(k as int));
                        assert(cs.contains(x)) by {
                            if x == c {
                                assert(!cs.remove(k as int).contains(c));
                            }
                            assert(cs.remove(k as int).contains(x));
                        }
                    } else {
                        assert(s_up[a1] == s[a1]);
                    }
                }
                assert(in_children(s, b1, x)) by {
                    if b1 == pi {
                        assert(s_up[b1].children@ == cs.remove(k as int));
                        assert(cs.contains(x)) by {
                            if x == c {
                                assert(!cs.remove(k as int).contains(c));
                            }
                            assert(cs.remove(k as int).contains(x));
                        }
                    } else {
                        assert(s_up[b1] == s[b1]);
                    }
                }
                assert(a1 == b1);
            }
            assert forall|a: int, x: u64| #[trigger] in_children(s2, a, x) implies seq_has(s2, x)
                && x != s2[a].proc_id by {
                let a1: int = if a < ci {
                    a
                } else {
                    a + 1
                };
                assert(s2[a] == s_up[a1]);
                assert(x != c) by {
                    if x == c {
                        if a1 == pi {
                            assert(s_up[a1].children@ == cs.remove(k as int));
                            assert(!cs.remove(k as int).contains(c));
                        } else {
                            assert(s_up[a1] == s[a1]);
                            assert(in_children(s, a1, c));
                            assert(in_children(s, pi as int, c)) by {
                                assert(cs[k as int] == c);
                            }
                            assert(a1 == pi as int);
                        }
                    }
                }
                assert(in_children(s, a1, x)) by {
                    if a1 == pi {
                        assert(s_up[a1].children@ == cs.remove(k as int));
                        assert(cs.remove(k as int).contains(x));
                        assert(cs.contains(x));
                    } else {
                        assert(s_up[a1] == s[a1]);
                    }
                }
                assert(seq_has(s, x));
                assert(seq_has(s_up, x));
                assert(seq_has(s2, x));
                assert(x != s[a1].proc_id);
            }
            // The lookup facts of the reap.
            assert(self.spec_proc(parent) == parent_new) by {
                assert(seq_has(s_up, parent));
                assert(crate::kernel::seq_proc(s_up, parent) == parent_new);
            }
        }
        (c, status)
    }

    /// One reap probe over the calling task's children: reap a matching
    /// exited child, report `Running` when the match (or, for a
    /// non-positive target, every child) still runs, and `NotExist` when
    /// the target was never a child. The caller loops, yielding between
    /// probes; this layer never blocks internally. The scan and removal
    /// happen in one critical section, so concurrent retries neither
    /// double-remove nor miss a ready child.
    pub fn wait_pid(&mut self, parent: u64, pid: i32) -> (r: Result<(u64, i32), WaitStatus>)
        requires
            old(self).wf(),
            old(self).spec_has_proc(parent),
        ensures
            final (self).wf(),
            wait_post(*old(self), *final (self), parent, pid, r),
    {
        let ghost pre = *old(self);
        let pi = self.find_proc(parent).unwrap();
        let ghost s = self.procs@;
        let ghost cs = s[pi as int].children@;
        let n = self.procs[pi].children.len();
        proof {
            assert(pre.proc_ok(s[pi as int]));
        }

        if pid <= 0 {
            if n == 0 {
                return Err(WaitStatus::NotExist);
            }
            let mut k: usize = 0;
            while k < n
                invariant
                    pre == *old(self),
                    *self == pre,
                    pre.wf(),
                    pi < s.len(),
                    s == self.procs@,
                    s[pi as int].proc_id == parent,
                    pre.spec_has_proc(parent),
                    pre.spec_proc(parent) == s[pi as int],
                    cs == s[pi as int].children@,
                    n == cs.len(),
                    k <= n,
                    pid <= 0,
                    first_exited(pre, cs, 0) == first_exited(pre, cs, k as int),
                decreases n - k,
            {
                let c = self.procs[pi].children[k];
                proof {
                    assert(in_children(s, pi as int, c)) by {
                        assert(cs[k as int] == c);
                    }
                }
                let ci = self.find_proc(c).unwrap();
                let st = self.procs[ci].state;
                match st {
                    TaskState::Exited(_) => {
                        proof {
                            assert(first_exited(pre, cs, k as int) == k as int);
                        }
                        let got = self.reap_child(pi, k);
                        return Ok(got);
                    },
                    TaskState::Running => {
                        proof {
                            assert(!(pre.spec_proc(cs[k as int]).state is Exited));
                        }
                        k = k + 1;
                    },
                }
            }
            proof {
                assert(first_exited(pre, cs, n as int) == cs.len() as int);
            }
            Err(WaitStatus::Running)
        } else {
            let c = pid as u64;
            let mut k: usize = 0;
            while k < n
                invariant
                    pre == *old(self),
                    *self == pre,
                    pre.wf(),
                    pi < s.len(),
                    s == self.procs@,
                    s[pi as int].proc_id == parent,
                    pre.spec_has_proc(parent),
                    pre.spec_proc(parent) == s[pi as int],
                    cs == s[pi as int].children@,
                    n == cs.len(),
                    k <= n,
                    pid > 0,
                    c == pid as u64,
                    forall|j: int| 0 <= j < k ==> cs[j] != c,
                decreases n - k,
            {
                let ck = self.procs[pi].children[k];
                if ck == c {
                    proof {
                        assert(cs[k as int] == c);
                        assert(cs.contains(c));
                        assert(in_children(s, pi as int, c));
                        let k2 = choose|k2: int| 0 <= k2 < cs.len() && cs[k2] == c;
                        assert(cs.no_duplicates());
                        assert(k2 == k as int);
                    }
                    let ci = self.find_proc(c).unwrap();
                    let st = self.procs[ci].state;
                    match st {
                        TaskState::Exited(_) => {
                            let got = self.reap_child(pi, k);
                            return Ok(got);
                        },
                        TaskState::Running => {
                            return Err(WaitStatus::Running);
                        },
                    }
                }
                k = k + 1;
            }
            proof {
                assert(!cs.contains(c)) by {
                    if cs.contains(c) {
                        let j = choose|j: int| 0 <= j < cs.len() && cs[j] == c;
                    }
                }
            }
            Err(WaitStatus::NotExist)
        }
    }
}

} // verus!

verus! {

/// Why a wait call returned without reaping.
#[derive(Clone, Copy, Debug, PartialEq, Eq, Structural)]
pub enum WaitError {
    /// The target never existed as a child of the caller.
    NoSuchChild,
    /// The nonblocking probe found no exited child.
    WouldBlock,
    /// A blocking probe found the match still running: the caller is
    /// expected to yield and retry; this layer never blocks internally.
    Again,
}

/// What one wait call decides from one probe: a reap is handed through; a
/// target that was never a child fails with `NoSuchChild`; a match still
/// running returns `WouldBlock` at once when nonblocking, else asks the
/// caller to yield and retry.
pub open spec fn wait4_post(
    pre: Kernel,
    post: Kernel,
    parent: u64,
    pid: i32,
    nonblocking: bool,
    r: Result<(u64, i32), WaitError>,
) -> bool {
    exists|probe: Result<(u64, i32), WaitStatus>|
        #[trigger] wait_post(pre, post, parent, pid, probe) && r == (match probe {
            Ok(got) => Ok::<(u64, i32), WaitError>(got),
            Err(WaitStatus::NotExist) => Err::<(u64, i32), WaitError>(WaitError::NoSuchChild),
            Err(WaitStatus::Running) => if nonblocking {
                Err::<(u64, i32), WaitError>(WaitError::WouldBlock)
            } else {
                Err::<(u64, i32), WaitError>(WaitError::Again)
            },
            Err(WaitStatus::Exited) => Err::<(u64, i32), WaitError>(WaitError::NoSuchChild),
        })
}

impl Kernel {
    /// One wait call: probe the children once and decide. A reaped child's
    /// ID and encoded status are returned. A target that never was a child
    /// of the caller fails with `NoSuchChild`. When the match (or, waiting
    /// for any child, every child) still runs, a nonblocking wait returns
    /// `WouldBlock` immediately, without suspending the caller; a blocking
    /// one returns `Again`, and the caller yields and calls again.
    pub fn wait4(&mut self, parent: u64, pid: i32, nonblocking: bool) -> (r: Result<
        (u64, i32),
        WaitError,
    >)
        requires
            old(self).wf(),
            old(self).spec_has_proc(parent),
        ensures
            final (self).wf(),
            wait4_post(*old(self), *final (self), parent, pid, nonblocking, r),
    {
        let probe = self.wait_pid(parent, pid);
        match probe {
            Ok(got) => Ok(got),
            Err(WaitStatus::NotExist) => Err(WaitError::NoSuchChild),
            Err(WaitStatus::Running) => {
                if nonblocking {
                    Err(WaitError::WouldBlock)
                } else {
                    Err(WaitError::Again)
                }
            },
            Err(WaitStatus::Exited) => Err(WaitError::NoSuchChild),
        }
    }
}

} // verus!
