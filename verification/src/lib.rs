//! Process lifecycle, CPU-time accounting, and POSIX-style signal delivery
//! for a monolithic-kernel personality.
//!
//! The crate models the kernel's process-control layer: a process table of
//! control blocks with parent/children links, clone/wait/exit lifecycle
//! operations, per-task interval timers, and a per-task signal state machine
//! (pending set, shared handler table, trap-frame swap protocol). The
//! platform collaborators (scheduler, page tables, trap-frame store) are
//! represented by plain values: address spaces and handler tables live in
//! the kernel state and are named by indices, and a task's saved register
//! image is a record of its program counter, stack pointer and return-value
//! register.
//!
//! - [`kernel`] holds the kernel state, its well-formedness invariant and
//!   the per-task bookkeeping operations;
//! - [`lifecycle`] holds spawn, clone, exit and wait/reap;
//! - [`ksignal`] raises, selects and delivers signals on kernel state;
//! - [`signal`], [`action`], [`trap`], [`task`], [`time_stat`], [`mem`] and
//!   [`flags`] define the data model: pending sets, handler tables, signal
//!   actions and dispositions, saved contexts, control blocks, time
//!   accounting, address spaces and flag words;
//! - [`laws`] states and proves the system-wide guarantees over the
//!   operations' postcondition predicates;
//! - [`args`], [`ctl`] and [`dirent`] carry the plain decision and
//!   encoding logic of the surrounding syscall layer: command lines and
//!   environments, control-request decoding, and the directory-entry
//!   binary format.

pub mod action;
pub mod args;
pub mod ctl;
pub mod dirent;
pub mod flags;
pub mod kernel;
pub mod ksignal;
pub mod laws;
pub mod lifecycle;
pub mod mem;
pub mod signal;
pub mod task;
pub mod time_stat;
pub mod trap;

pub use flags::CloneFlags;
pub use flags::WaitFlags;
pub use flags::WaitStatus;
