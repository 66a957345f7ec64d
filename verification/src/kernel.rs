//! The kernel state this layer manages: the process table and the
//! resources it names (address spaces, signal-handler tables), together
//! with the facts that hold of every reachable state.

use vstd::prelude::*;

use crate::mem::AddrSpace;
use crate::signal::SignalHandler;
use crate::task::TaskExt;
use crate::trap::TrapContext;

verus! {

/// A failure of one operation; never globally fatal.
#[derive(Clone, Copy, Debug, PartialEq, Eq, Structural)]
pub enum KernelError {
    /// Task allocation failed during clone.
    OutOfResources,
    /// The wait target never existed as a child of the caller.
    NoSuchChild,
    /// A nonblocking wait found nothing ready.
    WouldBlock,
    /// The user pointer handed to the kernel was not validated; the write
    /// through it is a documented gap of the tid-clear protocol.
    InvalidAddress,
    /// The request is outside this layer's scope: process-group waits,
    /// job-control stop/continue, real-time signal queueing, and reentrant
    /// signal delivery while a frame is already in flight.
    Unsupported,
}

/// There is an entry with this process ID.
pub open spec fn seq_has(s: Seq<TaskExt>, pid: u64) -> bool {
    exists|i: int| 0 <= i < s.len() && s[i].proc_id == pid
}

/// The index of the entry with this process ID (the IDs are unique in every
/// well-formed table).
pub open spec fn seq_idx(s: Seq<TaskExt>, pid: u64) -> int {
    choose|i: int| 0 <= i < s.len() && s[i].proc_id == pid
}

/// The entry with this process ID.
pub open spec fn seq_proc(s: Seq<TaskExt>, pid: u64) -> TaskExt {
    s[seq_idx(s, pid)]
}

/// No two entries share a process ID.
pub open spec fn pids_unique(s: Seq<TaskExt>) -> bool {
    forall|i: int, j: int| 0 <= i < j < s.len() ==> s[i].proc_id != s[j].proc_id
}

/// `c` stands in the children index of the entry at `i`.
pub open spec fn in_children(s: Seq<TaskExt>, i: int, c: u64) -> bool {
    0 <= i < s.len() && s[i].children@.contains(c)
}

/// The kernel state: the process table and the shared resources its
/// entries name. Address spaces and handler tables are owned here and
/// named by indices, so sharing decisions made at clone time stay visible.
#[derive(Clone, Debug)]
pub struct Kernel {
    /// The next process ID to assign; IDs grow and are never reused.
    pub next_pid: u64,
    /// How many tasks the scheduler can hold; task allocation fails beyond
    /// it.
    pub max_tasks: usize,
    /// The next resource-namespace name to assign.
    pub next_ns_id: u64,
    /// The process table: every live or zombie task's control block.
    pub procs: Vec<TaskExt>,
    /// The address spaces tasks run in.
    pub aspaces: Vec<AddrSpace>,
    /// The signal-handler tables tasks name; one table may be shared by
    /// several tasks created with handler sharing.
    pub handler_tables: Vec<SignalHandler>,
}

impl Kernel {
    /// There is a process with this ID.
    pub open spec fn spec_has_proc(self, pid: u64) -> bool {
        seq_has(self.procs@, pid)
    }

    /// The control block of the process with this ID.
    pub open spec fn spec_proc(self, pid: u64) -> TaskExt {
        seq_proc(self.procs@, pid)
    }

    /// What holds of each control block in a well-formed kernel.
    pub open spec fn proc_ok(self, p: TaskExt) -> bool {
        &&& 1 <= p.proc_id < self.next_pid
        &&& p.aspace_id < self.aspaces@.len()
        &&& p.signal.signal_handler < self.handler_tables@.len()
        &&& p.ns_id < self.next_ns_id
        &&& p.children@.no_duplicates()
        &&& p.signal.alternate_stack.sp + p.signal.alternate_stack.size <= usize::MAX
    }

    /// Well-formedness of the kernel state: process IDs and namespace
    /// names are below their allocation counters (so a fresh one never
    /// collides with a live one), process IDs are unique, every named
    /// resource exists, every handler table has its full set of entries,
    /// and the children indices form a partition — no child is indexed
    /// twice, every indexed child is in the table, and no task is its own
    /// child.
    pub open spec fn wf(self) -> bool {
        &&& pids_unique(self.procs@)
        &&& forall|i: int|
            0 <= i < self.procs@.len() ==> self.proc_ok(#[trigger] self.procs@[i])
        &&& forall|i: int|
            0 <= i < self.handler_tables@.len() ==> (#[trigger] self.handler_tables@[i]).wf()
        &&& forall|i: int, j: int, c: u64|
            in_children(self.procs@, i, c) && in_children(self.procs@, j, c) ==> i == j
        &&& forall|i: int, c: u64|
            #[trigger] in_children(self.procs@, i, c) ==> seq_has(self.procs@, c) && c
                != self.procs@[i].proc_id
        &&& self.next_pid >= 1
    }

    /// An empty kernel: no tasks yet, IDs starting at one, room for
    /// `max_tasks` tasks.
    pub fn new(max_tasks: usize) -> (r: Kernel)
        ensures
            r.wf(),
            r.next_pid == 1,
            r.max_tasks == max_tasks,
            r.next_ns_id == 1,
            r.procs@ == Seq::<TaskExt>::empty(),
            r.aspaces@ == Seq::<AddrSpace>::empty(),
            r.handler_tables@ == Seq::<SignalHandler>::empty(),
    {
        Kernel {
            next_pid: 1,
            max_tasks,
            next_ns_id: 1,
            procs: Vec::new(),
            aspaces: Vec::new(),
            handler_tables: Vec::new(),
        }
    }

    /// Find the table index of a process ID.
    pub fn find_proc(&self, pid: u64) -> (r: Option<usize>)
        requires
            pids_unique(self.procs@),
        ensures
            match r {
                Some(i) => {
                    &&& i < self.procs@.len()
                    &&& self.procs@[i as int].proc_id == pid
                    &&& self.spec_has_proc(pid)
                    &&& seq_idx(self.procs@, pid) == i
                    &&& self.spec_proc(pid) == self.procs@[i as int]
                },
                None => !self.spec_has_proc(pid),
            },
    {
        let mut i: usize = 0;
        while i < self.procs.len()
            invariant
                pids_unique(self.procs@),
                i <= self.procs@.len(),
                forall|j: int| 0 <= j < i ==> self.procs@[j].proc_id != pid,
            decreases self.procs@.len() - i,
        {
            if self.procs[i].proc_id == pid {
                proof {
                    lemma_idx_of(self.procs@, i as int);
                }
                return Some(i);
            }
            i = i + 1;
        }
        None
    }

    /// Whether a process with this ID is in the table.
    pub fn has_proc(&self, pid: u64) -> (r: bool)
        requires
            pids_unique(self.procs@),
        ensures
            r == self.spec_has_proc(pid),
    {
        self.find_proc(pid).is_some()
    }
}

/// The entry at a given index is the one its process ID finds.
pub proof fn lemma_idx_of(s: Seq<TaskExt>, i: int)
    requires
        pids_unique(s),
        0 <= i < s.len(),
    ensures
        seq_has(s, s[i].proc_id),
        seq_idx(s, s[i].proc_id) == i,
        seq_proc(s, s[i].proc_id) == s[i],
{
    assert(seq_has(s, s[i].proc_id));
    let j = seq_idx(s, s[i].proc_id);
    assert(0 <= j < s.len() && s[j].proc_id == s[i].proc_id);
    if i < j {
        assert(s[i].proc_id != s[j].proc_id);
    } else if j < i {
        assert(s[j].proc_id != s[i].proc_id);
    }
}

/// Replacing an entry by one with the same process ID leaves every lookup
/// but that ID's untouched.
pub proof fn lemma_seq_update(s: Seq<TaskExt>, i: int, p: TaskExt)
    requires
        pids_unique(s),
        0 <= i < s.len(),
        p.proc_id == s[i].proc_id,
    ensures
        pids_unique(s.update(i, p)),
        forall|q: u64| seq_has(s.update(i, p), q) == seq_has(s, q),
        seq_has(s.update(i, p), p.proc_id),
        seq_idx(s.update(i, p), p.proc_id) == i,
        seq_proc(s.update(i, p), p.proc_id) == p,
        forall|q: u64|
            q != p.proc_id && seq_has(s, q) ==> seq_proc(s.update(i, p), q) == seq_proc(s, q)
                && seq_idx(s.update(i, p), q) == seq_idx(s, q),
{
    let s2 = s.update(i, p);
    assert(forall|k: int| 0 <= k < s.len() ==> s2[k].proc_id == s[k].proc_id);
    assert forall|q: u64| seq_has(s2, q) == seq_has(s, q) by {
        if seq_has(s2, q) {
            let k = choose|k: int| 0 <= k < s2.len() && s2[k].proc_id == q;
            assert(s[k].proc_id == q);
        }
        if seq_has(s, q) {
            let k = choose|k: int| 0 <= k < s.len() && s[k].proc_id == q;
            assert(s2[k].proc_id == q);
        }
    }
    lemma_idx_of(s2, i);
    assert forall|q: u64|
        q != p.proc_id && seq_has(s, q) implies seq_proc(s2, q) == seq_proc(s, q) && seq_idx(
        s2,
        q,
    ) == seq_idx(s, q) by {
        let k = seq_idx(s, q);
        assert(0 <= k < s.len() && s[k].proc_id == q);
        assert(k != i);
        lemma_idx_of(s2, k);
        assert(s2[k] == s[k]);
    }
}

/// Appending an entry with a fresh process ID adds exactly that lookup.
pub proof fn lemma_seq_push(s: Seq<TaskExt>, p: TaskExt)
    requires
        pids_unique(s),
        !seq_has(s, p.proc_id),
    ensures
        pids_unique(s.push(p)),
        seq_has(s.push(p), p.proc_id),
        seq_idx(s.push(p), p.proc_id) == s.len(),
        seq_proc(s.push(p), p.proc_id) == p,
        forall|q: u64| q != p.proc_id ==> seq_has(s.push(p), q) == seq_has(s, q),
        forall|q: u64|
            q != p.proc_id && seq_has(s, q) ==> seq_proc(s.push(p), q) == seq_proc(s, q)
                && seq_idx(s.push(p), q) == seq_idx(s, q),
{
    let s2 = s.push(p);
    assert(pids_unique(s2)) by {
        assert forall|a: int, b: int| 0 <= a < b < s2.len() implies s2[a].proc_id
            != s2[b].proc_id by {
            if b == s.len() {
                assert(s2[b] == p);
                assert(s2[a] == s[a]);
                if s[a].proc_id == p.proc_id {
                    assert(seq_has(s, p.proc_id));
                }
            } else {
                assert(s2[a] == s[a] && s2[b] == s[b]);
            }
        }
    }
    assert(s2[s.len() as int] == p);
    lemma_idx_of(s2, s.len() as int);
    assert forall|q: u64| q != p.proc_id implies seq_has(s2, q) == seq_has(s, q) by {
        if seq_has(s2, q) {
            let k = choose|k: int| 0 <= k < s2.len() && s2[k].proc_id == q;
            assert(k != s.len());
            assert(s[k].proc_id == q);
        }
        if seq_has(s, q) {
            let k = choose|k: int| 0 <= k < s.len() && s[k].proc_id == q;
            assert(s2[k].proc_id == q);
        }
    }
    assert forall|q: u64|
        q != p.proc_id && seq_has(s, q) implies seq_proc(s2, q) == seq_proc(s, q) && seq_idx(
        s2,
        q,
    ) == seq_idx(s, q) by {
        let k = seq_idx(s, q);
        assert(0 <= k < s.len() && s[k].proc_id == q);
        assert(s2[k] == s[k]);
        lemma_idx_of(s2, k);
    }
}

/// Removing an entry removes exactly that lookup.
pub proof fn lemma_seq_remove(s: Seq<TaskExt>, i: int)
    requires
        pids_unique(s),
        0 <= i < s.len(),
    ensures
        pids_unique(s.remove(i)),
        !seq_has(s.remove(i), s[i].proc_id),
        forall|q: u64| q != s[i].proc_id ==> seq_has(s.remove(i), q) == seq_has(s, q),
        forall|q: u64|
            q != s[i].proc_id && seq_has(s, q) ==> seq_proc(s.remove(i), q) == seq_proc(s, q),
{
    let s2 = s.remove(i);
    assert(forall|k: int| 0 <= k < i ==> s2[k] == s[k]);
    assert(forall|k: int| i <= k < s2.len() ==> s2[k] == s[k + 1]);
    assert(pids_unique(s2)) by {
        assert forall|a: int, b: int| 0 <= a < b < s2.len() implies s2[a].proc_id
            != s2[b].proc_id by {
            let a1: int = if a < i { a } else { a + 1 };
            let b1: int = if b < i { b } else { b + 1 };
            assert(s2[a] == s[a1] && s2[b] == s[b1]);
            assert(0 <= a1 < b1 < s.len());
        }
    }
    assert(!seq_has(s2, s[i].proc_id)) by {
        if seq_has(s2, s[i].proc_id) {
            let k = choose|k: int| 0 <= k < s2.len() && s2[k].proc_id == s[i].proc_id;
            let k1: int = if k < i { k } else { k + 1 };
            assert(s[k1].proc_id == s[i].proc_id);
            assert(k1 != i);
            if k1 < i {
                assert(s[k1].proc_id != s[i].proc_id);
            } else {
                assert(s[i].proc_id != s[k1].proc_id);
            }
        }
    }
    assert forall|q: u64| q != s[i].proc_id implies seq_has(s2, q) == seq_has(s, q) by {
        if seq_has(s2, q) {
            let k = choose|k: int| 0 <= k < s2.len() && s2[k].proc_id == q;
            let k1: int = if k < i { k } else { k + 1 };
            assert(s[k1].proc_id == q);
        }
        if seq_has(s, q) {
            let k = choose|k: int| 0 <= k < s.len() && s[k].proc_id == q;
            assert(k != i);
            let k2: int = if k < i { k } else { k - 1 };
            assert(s2[k2].proc_id == q);
        }
    }
    assert forall|q: u64| q != s[i].proc_id && seq_has(s, q) implies seq_proc(s2, q) == seq_proc(
        s,
        q,
    ) by {
        let k = seq_idx(s, q);
        assert(0 <= k < s.len() && s[k].proc_id == q);
        assert(k != i);
        let k2: int = if k < i { k } else { k - 1 };
        assert(s2[k2].proc_id == q);
        assert(s2[k2] == s[k]);
        lemma_idx_of(s2, k2);
    }
}

} // verus!

verus! {

/// Replacing one control block by one with the same process ID and the
/// same children index, without dropping any resource or growing a stale
/// ID, keeps the kernel well-formed; every lookup but that ID's is
/// untouched.
pub proof fn lemma_wf_update(pre: Kernel, post: Kernel, i: int, p: TaskExt)
    requires
        pre.wf(),
        0 <= i < pre.procs@.len(),
        p.proc_id == pre.procs@[i].proc_id,
        p.children@ == pre.procs@[i].children@,
        p.aspace_id < post.aspaces@.len(),
        p.signal.signal_handler < post.handler_tables@.len(),
        p.ns_id == pre.procs@[i].ns_id,
        p.signal.alternate_stack.sp + p.signal.alternate_stack.size <= usize::MAX,
        post.procs@ == pre.procs@.update(i, p),
        post.next_pid == pre.next_pid,
        post.next_ns_id == pre.next_ns_id,
        post.aspaces@.len() == pre.aspaces@.len(),
        post.handler_tables@.len() == pre.handler_tables@.len(),
        forall|j: int|
            0 <= j < post.handler_tables@.len() ==> (#[trigger] post.handler_tables@[j]).wf(),
    ensures
        post.wf(),
        forall|q: u64| post.spec_has_proc(q) == pre.spec_has_proc(q),
        post.spec_proc(p.proc_id) == p,
        seq_idx(post.procs@, p.proc_id) == i,
        forall|q: u64|
            q != p.proc_id && pre.spec_has_proc(q) ==> post.spec_proc(q) == pre.spec_proc(q),
{
    let s = pre.procs@;
    let s2 = post.procs@;
    lemma_seq_update(s, i, p);
    assert(forall|k: int| 0 <= k < s.len() && k != i ==> s2[k] == s[k]);
    assert forall|k: int| 0 <= k < s2.len() implies post.proc_ok(#[trigger] s2[k]) by {
        if k != i {
            assert(pre.proc_ok(s[k]));
        } else {
            assert(pre.proc_ok(s[i]));
        }
    }
    assert(forall|k: int|
        0 <= k < s.len() ==> (#[trigger] s2[k]).children@ == s[k].children@ && s2[k].proc_id
            == s[k].proc_id);
    assert(forall|a: int, c: u64| in_children(s2, a, c) == in_children(s, a, c));
    assert forall|a: int, c: u64| #[trigger] in_children(s2, a, c) implies seq_has(s2, c) && c
        != s2[a].proc_id by {
        assert(in_children(s, a, c));
    }
}

/// What a user-memory write through one task does: the word lands in that
/// task's address space (visible to every task sharing it), every other
/// space is untouched, and no control block changes.
pub open spec fn mem_write_post(pre: Kernel, post: Kernel, pid: u64, addr: usize, val: u64) -> bool {
    &&& post.procs@ == pre.procs@
    &&& post.next_pid == pre.next_pid
    &&& post.max_tasks == pre.max_tasks
    &&& post.next_ns_id == pre.next_ns_id
    &&& post.handler_tables@ == pre.handler_tables@
    &&& post.aspaces@.len() == pre.aspaces@.len()
    &&& post.aspaces@[pre.spec_proc(pid).aspace_id as int].mem() == pre.aspaces@[pre.spec_proc(
        pid,
    ).aspace_id as int].mem().insert(addr, val)
    &&& forall|a: int|
        0 <= a < pre.aspaces@.len() && a != pre.spec_proc(pid).aspace_id ==> post.aspaces@[a]
            == pre.aspaces@[a]
}

impl Kernel {
    /// The liveness of a task, as the scheduler reports it: running, or
    /// exited with its cached code.
    pub fn task_state(&self, pid: u64) -> (r: crate::task::TaskState)
        requires
            self.wf(),
            self.spec_has_proc(pid),
        ensures
            r == self.spec_proc(pid).state,
    {
        let i = self.find_proc(pid).unwrap();
        self.procs[i].state
    }

    /// The process ID a task reports for itself: the identity recorded in
    /// its control block.
    pub fn getpid(&self, pid: u64) -> (r: u64)
        requires
            self.wf(),
            self.spec_has_proc(pid),
        ensures
            r == self.spec_proc(pid).proc_id,
            r == pid,
    {
        let i = self.find_proc(pid).unwrap();
        self.procs[i].proc_id
    }

    /// The parent process ID of a task.
    pub fn getppid(&self, pid: u64) -> (r: u64)
        requires
            self.wf(),
            self.spec_has_proc(pid),
        ensures
            r == self.spec_proc(pid).parent_id,
    {
        let i = self.find_proc(pid).unwrap();
        self.procs[i].get_parent()
    }

    /// Change a task's parent link; the children indices are untouched, so
    /// only the task's original parent can ever reap it.
    pub fn set_parent(&mut self, pid: u64, parent_id: u64)
        requires
            old(self).wf(),
            old(self).spec_has_proc(pid),
        ensures
            final (self).wf(),
            forall|q: u64| final (self).spec_has_proc(q) == old(self).spec_has_proc(q),
            final (self).spec_proc(pid) == (TaskExt { parent_id, ..old(self).spec_proc(pid) }),
            forall|q: u64|
                q != pid && old(self).spec_has_proc(q) ==> final (self).spec_proc(q) == old(
                    self,
                ).spec_proc(q),
            final (self).next_pid == old(self).next_pid,
            final (self).max_tasks == old(self).max_tasks,
            final (self).next_ns_id == old(self).next_ns_id,
            final (self).aspaces@ == old(self).aspaces@,
            final (self).handler_tables@ == old(self).handler_tables@,
    {
        let i = self.find_proc(pid).unwrap();
        self.procs[i].parent_id = parent_id;
        proof {
            lemma_wf_update(
                *old(self),
                *self,
                i as int,
                TaskExt { parent_id, ..old(self).spec_proc(pid) },
            );
        }
    }

    /// Register the address zeroed when the task exits; returns the
    /// caller's own process ID, as the registering syscall does.
    pub fn set_tid_address(&mut self, pid: u64, tid_ptr: u64) -> (r: u64)
        requires
            old(self).wf(),
            old(self).spec_has_proc(pid),
        ensures
            r == pid,
            final (self).wf(),
            forall|q: u64| final (self).spec_has_proc(q) == old(self).spec_has_proc(q),
            final (self).spec_proc(pid) == (TaskExt {
                clear_child_tid: tid_ptr,
                ..old(self).spec_proc(pid)
            }),
            forall|q: u64|
                q != pid && old(self).spec_has_proc(q) ==> final (self).spec_proc(q) == old(
                    self,
                ).spec_proc(q),
            final (self).next_pid == old(self).next_pid,
            final (self).max_tasks == old(self).max_tasks,
            final (self).next_ns_id == old(self).next_ns_id,
            final (self).aspaces@ == old(self).aspaces@,
            final (self).handler_tables@ == old(self).handler_tables@,
    {
        let i = self.find_proc(pid).unwrap();
        self.procs[i].clear_child_tid = tid_ptr;
        proof {
            lemma_wf_update(
                *old(self),
                *self,
                i as int,
                TaskExt { clear_child_tid: tid_ptr, ..old(self).spec_proc(pid) },
            );
        }
        pid
    }

    /// Read a task's saved register image from its kernel stack.
    pub fn read_trapframe_from_kstack(&self, pid: u64) -> (r: TrapContext)
        requires
            self.wf(),
            self.spec_has_proc(pid),
        ensures
            r == self.spec_proc(pid).uctx,
    {
        let i = self.find_proc(pid).unwrap();
        self.procs[i].uctx
    }

    /// Write a task's saved register image to its kernel stack: what the
    /// scheduler later resumes.
    pub fn write_trapframe_to_kstack(&mut self, pid: u64, trap_frame: TrapContext)
        requires
            old(self).wf(),
            old(self).spec_has_proc(pid),
        ensures
            final (self).wf(),
            forall|q: u64| final (self).spec_has_proc(q) == old(self).spec_has_proc(q),
            final (self).spec_proc(pid) == (TaskExt {
                uctx: trap_frame,
                ..old(self).spec_proc(pid)
            }),
            forall|q: u64|
                q != pid && old(self).spec_has_proc(q) ==> final (self).spec_proc(q) == old(
                    self,
                ).spec_proc(q),
            final (self).next_pid == old(self).next_pid,
            final (self).max_tasks == old(self).max_tasks,
            final (self).next_ns_id == old(self).next_ns_id,
            final (self).aspaces@ == old(self).aspaces@,
            final (self).handler_tables@ == old(self).handler_tables@,
    {
        let i = self.find_proc(pid).unwrap();
        self.procs[i].uctx = trap_frame;
        proof {
            lemma_wf_update(
                *old(self),
                *self,
                i as int,
                TaskExt { uctx: trap_frame, ..old(self).spec_proc(pid) },
            );
        }
    }

    /// Write one word of user memory through a task's address space. The
    /// write is visible to every task sharing that space and to no other.
    pub fn mem_write(&mut self, pid: u64, addr: usize, val: u64)
        requires
            old(self).wf(),
            old(self).spec_has_proc(pid),
        ensures
            final (self).wf(),
            mem_write_post(*old(self), *final (self), pid, addr, val),
    {
        let i = self.find_proc(pid).unwrap();
        let a = self.procs[i].aspace_id;
        self.aspaces[a].write(addr, val);
    }

    /// Read one word of user memory through a task's address space: the
    /// latest value written there by any task sharing the space.
    pub fn mem_read(&self, pid: u64, addr: usize) -> (r: Option<u64>)
        requires
            self.wf(),
            self.spec_has_proc(pid),
        ensures
            r == {
                let m = self.aspaces@[self.spec_proc(pid).aspace_id as int].mem();
                if m.dom().contains(addr) {
                    Some(m[addr])
                } else {
                    None
                }
            },
    {
        let i = self.find_proc(pid).unwrap();
        let a = self.procs[i].aspace_id;
        self.aspaces[a].read(addr)
    }

    /// The (user, kernel) time split of a task, in microseconds, packed as
    /// the process-times syscall reports it: this layer does not track
    /// children's times separately and reports the task's own split for
    /// them.
    pub fn times(&self, pid: u64) -> (r: crate::time_stat::Tms)
        requires
            self.wf(),
            self.spec_has_proc(pid),
        ensures
            r.tms_utime == self.spec_proc(pid).time.utime_ns / 1000,
            r.tms_stime == self.spec_proc(pid).time.stime_ns / 1000,
            r.tms_cutime == self.spec_proc(pid).time.utime_ns / 1000,
            r.tms_cstime == self.spec_proc(pid).time.stime_ns / 1000,
    {
        let i = self.find_proc(pid).unwrap();
        let (utime_ns, stime_ns) = self.procs[i].time.output();
        let utime_us = utime_ns / 1000;
        let stime_us = stime_ns / 1000;
        crate::time_stat::Tms {
            tms_utime: utime_us,
            tms_stime: stime_us,
            tms_cutime: utime_us,
            tms_cstime: stime_us,
        }
    }

    /// Install an interval timer on a task; returns whether a timer was
    /// previously active.
    pub fn set_timer(
        &mut self,
        pid: u64,
        timer_interval_ns: usize,
        timer_remained_ns: usize,
        timer_type: usize,
    ) -> (was_previously_active: bool)
        requires
            old(self).wf(),
            old(self).spec_has_proc(pid),
        ensures
            final (self).wf(),
            forall|q: u64| final (self).spec_has_proc(q) == old(self).spec_has_proc(q),
            final (self).spec_proc(pid) == (TaskExt {
                time: crate::time_stat::TimeStat {
                    timer_type: crate::time_stat::TimerType::spec_from_num(timer_type),
                    timer_interval_ns,
                    timer_remained_ns,
                    ..old(self).spec_proc(pid).time
                },
                ..old(self).spec_proc(pid)
            }),
            was_previously_active == (old(self).spec_proc(pid).time.timer_type
                != crate::time_stat::TimerType::NONE),
            forall|q: u64|
                q != pid && old(self).spec_has_proc(q) ==> final (self).spec_proc(q) == old(
                    self,
                ).spec_proc(q),
            final (self).next_pid == old(self).next_pid,
            final (self).max_tasks == old(self).max_tasks,
            final (self).next_ns_id == old(self).next_ns_id,
            final (self).aspaces@ == old(self).aspaces@,
            final (self).handler_tables@ == old(self).handler_tables@,
    {
        let i = self.find_proc(pid).unwrap();
        let was_previously_active = self.procs[i].time.set_timer(
            timer_interval_ns,
            timer_remained_ns,
            timer_type,
        );
        proof {
            lemma_wf_update(*old(self), *self, i as int, self.procs@[i as int]);
        }
        was_previously_active
    }
}

} // verus!

verus! {

/// Appending a value not yet in a duplicate-free sequence keeps it
/// duplicate-free.
pub proof fn lemma_nodup_push(cs: Seq<u64>, c: u64)
    requires
        cs.no_duplicates(),
        !cs.contains(c),
    ensures
        cs.push(c).no_duplicates(),
{
    let cs2 = cs.push(c);
    assert forall|a: int, b: int|
        0 <= a < cs2.len() && 0 <= b < cs2.len() && a != b implies cs2[a] != cs2[b] by {
        if b == cs.len() {
            if cs2[a] == c {
                assert(cs.contains(c)) by {
                    assert(cs[a] == c);
                }
            }
        } else if a == cs.len() {
            if cs2[b] == c {
                assert(cs.contains(c)) by {
                    assert(cs[b] == c);
                }
            }
        }
    }
}

/// Removing one position from a duplicate-free sequence keeps it
/// duplicate-free, removes that value, and keeps every other value.
pub proof fn lemma_nodup_remove(cs: Seq<u64>, k: int)
    requires
        cs.no_duplicates(),
        0 <= k < cs.len(),
    ensures
        cs.remove(k).no_duplicates(),
        !cs.remove(k).contains(cs[k]),
        forall|x: u64| x != cs[k] ==> cs.remove(k).contains(x) == cs.contains(x),
{
    let cs2 = cs.remove(k);
    assert(forall|a: int| 0 <= a < k ==> cs2[a] == cs[a]);
    assert(forall|a: int| k <= a < cs2.len() ==> cs2[a] == cs[a + 1]);
    assert forall|a: int, b: int|
        0 <= a < cs2.len() && 0 <= b < cs2.len() && a != b implies cs2[a] != cs2[b] by {
        let a1: int = if a < k {
            a
        } else {
            a + 1
        };
        let b1: int = if b < k {
            b
        } else {
            b + 1
        };
        assert(cs2[a] == cs[a1] && cs2[b] == cs[b1]);
        assert(a1 != b1);
    }
    assert(!cs2.contains(cs[k])) by {
        if cs2.contains(cs[k]) {
            let a = choose|a: int| 0 <= a < cs2.len() && cs2[a] == cs[k];
            let a1: int = if a < k {
                a
            } else {
                a + 1
            };
            assert(cs[a1] == cs[k]);
            assert(a1 != k);
        }
    }
    assert forall|x: u64| x != cs[k] implies cs2.contains(x) == cs.contains(x) by {
        if cs2.contains(x) {
            let a = choose|a: int| 0 <= a < cs2.len() && cs2[a] == x;
            let a1: int = if a < k {
                a
            } else {
                a + 1
            };
            assert(cs[a1] == x);
        }
        if cs.contains(x) {
            let a = choose|a: int| 0 <= a < cs.len() && cs[a] == x;
            assert(a != k);
            let a2: int = if a < k {
                a
            } else {
                a - 1
            };
            assert(cs2[a2] == x);
        }
    }
}

} // verus!
