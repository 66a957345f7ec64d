//! Flag sets for clone and wait, and the transient result of a reap probe.

use vstd::prelude::*;

verus! {

/// Share the virtual memory address space between parent and child.
pub const CLONE_VM: u32 = 0x100;
/// Share filesystem information (current directory).
pub const CLONE_FS: u32 = 0x200;
/// Share the file-descriptor table.
pub const CLONE_FILES: u32 = 0x400;
/// Share the signal-handler table.
pub const CLONE_SIGHAND: u32 = 0x800;

/// Return immediately from a wait when no child has exited.
pub const WNOHANG: u32 = 0x1;

/// Flag set given to clone, deciding which resources the child shares
/// with its parent. Sharing decisions are made once, at creation.
#[derive(Clone, Copy, Debug, PartialEq, Eq, Structural)]
pub struct CloneFlags {
    pub bits: u32,
}

impl CloneFlags {
    /// Wrap a raw flag word.
    pub fn from_bits(bits: u32) -> (r: CloneFlags)
        ensures
            r.bits == bits,
    {
        CloneFlags { bits }
    }

    /// The address-space-sharing flag is set.
    pub open spec fn spec_share_aspace(self) -> bool {
        self.bits & CLONE_VM != 0
    }

    /// The signal-handler-sharing flag is set.
    pub open spec fn spec_share_handlers(self) -> bool {
        self.bits & CLONE_SIGHAND != 0
    }

    /// The file-descriptor-table-sharing flag is set.
    pub open spec fn spec_share_namespace(self) -> bool {
        self.bits & CLONE_FILES != 0
    }

    /// Whether the child shares the parent's address space.
    pub fn share_aspace(self) -> (r: bool)
        ensures
            r == self.spec_share_aspace(),
    {
        self.bits & CLONE_VM != 0
    }

    /// Whether the child shares the parent's signal-handler table.
    pub fn share_handlers(self) -> (r: bool)
        ensures
            r == self.spec_share_handlers(),
    {
        self.bits & CLONE_SIGHAND != 0
    }

    /// Whether the child shares the parent's resource namespace.
    pub fn share_namespace(self) -> (r: bool)
        ensures
            r == self.spec_share_namespace(),
    {
        self.bits & CLONE_FILES != 0
    }
}

/// Flag set given to wait.
#[derive(Clone, Copy, Debug, PartialEq, Eq, Structural)]
pub struct WaitFlags {
    pub bits: u32,
}

impl WaitFlags {
    /// Wrap a raw flag word.
    pub fn from_bits(bits: u32) -> (r: WaitFlags)
        ensures
            r.bits == bits,
    {
        WaitFlags { bits }
    }

    /// The nonblocking flag is set.
    pub open spec fn spec_nohang(self) -> bool {
        self.bits & WNOHANG != 0
    }

    /// Whether the wait should return instead of letting the caller retry.
    pub fn nohang(self) -> (r: bool)
        ensures
            r == self.spec_nohang(),
    {
        self.bits & WNOHANG != 0
    }
}

/// Transient result of a reap probe; never persisted.
#[derive(Clone, Copy, Debug, PartialEq, Eq, Structural)]
pub enum WaitStatus {
    /// The probed child has exited (and was reaped by this probe).
    Exited,
    /// The probed child is still running.
    Running,
    /// The wait target never existed as a child of the caller.
    NotExist,
}

} // verus!
