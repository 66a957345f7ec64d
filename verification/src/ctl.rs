//! Plain decision logic of a few control syscalls: the stat record handed
//! to user space, the architecture-prctl request decoding, and the unlink
//! decision.

use vstd::prelude::*;

verus! {

/// The stat record handed to user space.
#[derive(Clone, Copy, Debug, PartialEq, Eq, Structural)]
pub struct Kstat {
    /// Device.
    pub st_dev: u64,
    /// Inode number.
    pub st_ino: u64,
    /// File type and mode.
    pub st_mode: u32,
    /// Number of hard links.
    pub st_nlink: u32,
    /// User ID.
    pub st_uid: u32,
    /// Group ID.
    pub st_gid: u32,
    /// Device ID.
    pub st_rdev: u64,
    /// Total size.
    pub st_size: u64,
    /// Block size.
    pub st_blksize: u32,
    /// Number of blocks.
    pub st_blocks: u64,
    /// Time of last access, seconds part.
    pub st_atime_sec: isize,
    /// Time of last access, nanoseconds part.
    pub st_atime_nsec: isize,
    /// Time of last modification, seconds part.
    pub st_mtime_sec: isize,
    /// Time of last modification, nanoseconds part.
    pub st_mtime_nsec: isize,
    /// Time of last status change, seconds part.
    pub st_ctime_sec: isize,
    /// Time of last status change, nanoseconds part.
    pub st_ctime_nsec: isize,
}

impl Default for Kstat {
    /// An all-zero record.
    fn default() -> (r: Kstat)
        ensures
            r == Kstat::spec_zero(),
    {
        Kstat {
            st_dev: 0,
            st_ino: 0,
            st_mode: 0,
            st_nlink: 0,
            st_uid: 0,
            st_gid: 0,
            st_rdev: 0,
            st_size: 0,
            st_blksize: 0,
            st_blocks: 0,
            st_atime_sec: 0,
            st_atime_nsec: 0,
            st_mtime_sec: 0,
            st_mtime_nsec: 0,
            st_ctime_sec: 0,
            st_ctime_nsec: 0,
        }
    }
}

impl Kstat {
    /// The all-zero record.
    pub open spec fn spec_zero() -> Kstat {
        Kstat {
            st_dev: 0,
            st_ino: 0,
            st_mode: 0,
            st_nlink: 0,
            st_uid: 0,
            st_gid: 0,
            st_rdev: 0,
            st_size: 0,
            st_blksize: 0,
            st_blocks: 0,
            st_atime_sec: 0,
            st_atime_nsec: 0,
            st_mtime_sec: 0,
            st_mtime_nsec: 0,
            st_ctime_sec: 0,
            st_ctime_nsec: 0,
        }
    }
}

/// Set the file-system-base segment register.
pub const ARCH_SET_FS: i32 = 0x1002;

/// Get the file-system-base segment register.
pub const ARCH_GET_FS: i32 = 0x1003;

/// Set the general-base segment register.
pub const ARCH_SET_GS: i32 = 0x1001;

/// Get the general-base segment register.
pub const ARCH_GET_GS: i32 = 0x1004;

/// Query the cpuid-faulting flag.
pub const ARCH_GET_CPUID: i32 = 0x1011;

/// Set the cpuid-faulting flag.
pub const ARCH_SET_CPUID: i32 = 0x1012;

/// What an architecture-prctl request asks the register layer to do; the
/// register access itself is the architecture layer's concern.
#[derive(Clone, Copy, Debug, PartialEq, Eq, Structural)]
pub enum ArchPrctlPlan {
    /// Write the given value to the file-system base.
    WriteFsBase(u64),
    /// Read the file-system base into the given user address.
    ReadFsBase(u64),
    /// Write the given value to the general base.
    WriteGsBase(u64),
    /// Read the general base into the given user address.
    ReadGsBase(u64),
    /// The request code is not served.
    Unsupported,
}

/// Decode an architecture-prctl request into the register access it asks
/// for; the cpuid-faulting codes and unknown codes are not served.
pub fn arch_prctl_plan(code: i32, addr: u64) -> (r: ArchPrctlPlan)
    ensures
        code == ARCH_SET_FS ==> r == ArchPrctlPlan::WriteFsBase(addr),
        code == ARCH_GET_FS ==> r == ArchPrctlPlan::ReadFsBase(addr),
        code == ARCH_SET_GS ==> r == ArchPrctlPlan::WriteGsBase(addr),
        code == ARCH_GET_GS ==> r == ArchPrctlPlan::ReadGsBase(addr),
        code != ARCH_SET_FS && code != ARCH_GET_FS && code != ARCH_SET_GS && code != ARCH_GET_GS
            ==> r == ArchPrctlPlan::Unsupported,
{
    if code == ARCH_SET_FS {
        ArchPrctlPlan::WriteFsBase(addr)
    } else if code == ARCH_GET_FS {
        ArchPrctlPlan::ReadFsBase(addr)
    } else if code == ARCH_SET_GS {
        ArchPrctlPlan::WriteGsBase(addr)
    } else if code == ARCH_GET_GS {
        ArchPrctlPlan::ReadGsBase(addr)
    } else {
        ArchPrctlPlan::Unsupported
    }
}

/// The unlink flag that asks for directory removal.
pub const AT_REMOVEDIR: usize = 0x200;

/// What an unlink request does.
#[derive(Clone, Copy, Debug, PartialEq, Eq, Structural)]
pub enum UnlinkPlan {
    /// Remove the target as a directory.
    RemoveDirectory,
    /// Remove the target's link.
    RemoveFile,
    /// Refuse: the target is a directory but directory removal was not
    /// asked for.
    RefuseDirectory,
}

/// Decide an unlink request from its flags and whether the target is a
/// directory.
pub fn unlinkat_plan(flags: usize, target_is_dir: bool) -> (r: UnlinkPlan)
    ensures
        flags == AT_REMOVEDIR ==> r == UnlinkPlan::RemoveDirectory,
        flags != AT_REMOVEDIR && target_is_dir ==> r == UnlinkPlan::RefuseDirectory,
        flags != AT_REMOVEDIR && !target_is_dir ==> r == UnlinkPlan::RemoveFile,
{
    if flags == AT_REMOVEDIR {
        UnlinkPlan::RemoveDirectory
    } else if target_is_dir {
        UnlinkPlan::RefuseDirectory
    } else {
        UnlinkPlan::RemoveFile
    }
}

} // verus!

verus! {

/// The bytes of the one filesystem type the mount call serves.
pub open spec fn spec_vfat_name() -> Seq<u8> {
    seq![118u8, 102u8, 97u8, 116u8]
}

/// What a mount request does.
#[derive(Clone, Copy, Debug, PartialEq, Eq, Structural)]
pub enum MountPlan {
    /// Mount the device at the mount point.
    Proceed,
    /// Refuse: the device path names a directory.
    RefuseDeviceDirectory,
    /// Refuse: only the vfat filesystem type is served.
    RefuseFilesystemType,
}

/// Whether two byte strings are equal.
fn bytes_eq(a: &[u8], b: &[u8]) -> (r: bool)
    ensures
        r == (a@ == b@),
{
    if a.len() != b.len() {
        proof {
            assert(a@.len() != b@.len());
        }
        return false;
    }
    let mut i: usize = 0;
    while i < a.len()
        invariant
            i <= a@.len(),
            a@.len() == b@.len(),
            forall|j: int| 0 <= j < i ==> a@[j] == b@[j],
        decreases a@.len() - i,
    {
        if a[i] != b[i] {
            return false;
        }
        i = i + 1;
    }
    proof {
        assert(a@ =~= b@);
    }
    true
}

/// Decide a mount request from what was looked up about it: the device
/// must not be a directory, and only the vfat filesystem type is served.
pub fn mount_plan(special_is_dir: bool, fstype: &[u8]) -> (r: MountPlan)
    ensures
        special_is_dir ==> r == MountPlan::RefuseDeviceDirectory,
        !special_is_dir && fstype@ != spec_vfat_name() ==> r == MountPlan::RefuseFilesystemType,
        !special_is_dir && fstype@ == spec_vfat_name() ==> r == MountPlan::Proceed,
{
    if special_is_dir {
        return MountPlan::RefuseDeviceDirectory;
    }
    let vfat: [u8; 4] = [118, 102, 97, 116];
    if bytes_eq(fstype, vfat.as_slice()) {
        proof {
            assert(vfat@ =~= spec_vfat_name());
        }
        MountPlan::Proceed
    } else {
        proof {
            assert(vfat@ =~= spec_vfat_name());
        }
        MountPlan::RefuseFilesystemType
    }
}

} // verus!
