//! The per-task extended control block: identity, parent link, children
//! index, address-space and namespace handles, the saved user context, and
//! the task's signal and time-accounting state.

use vstd::prelude::*;

use crate::signal::SignalModule;
use crate::time_stat::TimeStat;
use crate::trap::TrapContext;

verus! {

/// Liveness of a task, as the process layer sees it. An exited task caches
/// its exit code at exit time, because the scheduler may reclaim the task
/// resource before the parent reaps it.
#[derive(Clone, Copy, Debug, PartialEq, Eq, Structural)]
pub enum TaskState {
    /// The task has not exited.
    Running,
    /// The task has exited with the cached exit code; it stays in the
    /// process table as a zombie until reaped.
    Exited(i32),
}

/// Task extended data: the process control block.
#[derive(Clone, Debug)]
pub struct TaskExt {
    /// The process ID: unique among all live entries, never reused while
    /// its process-table entry exists.
    pub proc_id: u64,
    /// The parent process ID; mutable, supporting reparenting. The root
    /// process is its own notional parent.
    pub parent_id: u64,
    /// The children index: a non-owning list of child process IDs, used
    /// only for enumeration and reaping. An entry is removed exactly once,
    /// by a successful reap.
    pub children: Vec<u64>,
    /// User address zeroed on exit when not null, as registered by
    /// `set_tid_address`.
    pub clear_child_tid: u64,
    /// The task's saved user context.
    pub uctx: TrapContext,
    /// Which address space the task runs in: an index into the kernel's
    /// spaces, shared by tasks cloned with address-space sharing.
    pub aspace_id: usize,
    /// Which resource namespace (fd table, current directory) the task
    /// uses: copied at creation unless sharing was requested.
    pub ns_id: u64,
    /// Whether the task runs or has exited.
    pub state: TaskState,
    /// The task's signal module.
    pub signal: SignalModule,
    /// The task's CPU-time accounting.
    pub time: TimeStat,
}

impl TaskExt {
    /// A fresh control block: running, no children, no tid-clear address,
    /// parent defaulted to the root process, fresh signal and time state.
    pub fn new(
        proc_id: u64,
        uctx: TrapContext,
        aspace_id: usize,
        ns_id: u64,
        signal_handler: usize,
    ) -> (r: TaskExt)
        ensures
            r.proc_id == proc_id,
            r.parent_id == 1,
            r.children@ == Seq::<u64>::empty(),
            r.clear_child_tid == 0,
            r.uctx == uctx,
            r.aspace_id == aspace_id,
            r.ns_id == ns_id,
            r.state == TaskState::Running,
            r.signal == SignalModule::spec_init(signal_handler),
            r.time == TimeStat::spec_new(),
    {
        TaskExt {
            proc_id,
            parent_id: 1,
            children: Vec::new(),
            clear_child_tid: 0,
            uctx,
            aspace_id,
            ns_id,
            state: TaskState::Running,
            signal: SignalModule::init_signal(signal_handler),
            time: TimeStat::new(),
        }
    }

    /// The registered tid-clear address.
    pub fn clear_child_tid(&self) -> (r: u64)
        ensures
            r == self.clear_child_tid,
    {
        self.clear_child_tid
    }

    /// Register the tid-clear address.
    pub fn set_clear_child_tid(&mut self, clear_child_tid: u64)
        ensures
            *final (self) == (TaskExt { clear_child_tid, ..*old(self) }),
    {
        self.clear_child_tid = clear_child_tid;
    }

    /// The parent process ID.
    pub fn get_parent(&self) -> (r: u64)
        ensures
            r == self.parent_id,
    {
        self.parent_id
    }

    /// Change the parent link.
    pub fn set_parent(&mut self, parent_id: u64)
        ensures
            *final (self) == (TaskExt { parent_id, ..*old(self) }),
    {
        self.parent_id = parent_id;
    }
}

} // verus!
