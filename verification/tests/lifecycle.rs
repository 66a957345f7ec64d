use proc_core::flags::CLONE_FILES;
use proc_core::flags::CLONE_SIGHAND;
use proc_core::flags::CLONE_VM;
use proc_core::flags::WaitStatus;
use proc_core::kernel::Kernel;
use proc_core::kernel::KernelError;
use proc_core::lifecycle::WaitError;
use proc_core::lifecycle::encode_wait_status;
use proc_core::mem::AddrSpace;
use proc_core::task::TaskState;
use proc_core::trap::TrapContext;

fn boot(max_tasks: usize) -> (Kernel, u64) {
    let mut k = Kernel::new(max_tasks);
    let root = k.spawn_user_task(AddrSpace::new(), TrapContext::new(0x40_0000, 0x7fff_0000));
    (k, root)
}

#[test]
fn spawn_assigns_first_pid_and_self_parent() {
    let (k, root) = boot(16);
    assert_eq!(root, 1);
    assert_eq!(k.getppid(root), 1);
    assert!(matches!(k.task_state(root), TaskState::Running));
}

#[test]
fn clone_returns_fresh_pid_and_links_child() {
    let (mut k, root) = boot(16);
    let child = k.clone_task(root, 0, None, 0, 0, 0).unwrap();
    assert_eq!(child, 2);
    assert_eq!(k.getppid(child), root);
    assert!(matches!(k.task_state(child), TaskState::Running));
}

#[test]
fn clone_seeds_child_context_from_parent_frame() {
    let (mut k, root) = boot(16);
    let parent_frame = k.read_trapframe_from_kstack(root);
    let child = k.clone_task(root, 0, None, 0, 0, 0).unwrap();
    let child_frame = k.read_trapframe_from_kstack(child);
    assert_eq!(child_frame.ret, 0);
    assert_eq!(child_frame.pc, parent_frame.pc + 4);
    assert_eq!(child_frame.sp, parent_frame.sp);
}

#[test]
fn clone_with_stack_overwrites_child_stack_pointer() {
    let (mut k, root) = boot(16);
    let child = k.clone_task(root, 0, Some(0x9000_0000), 0, 0, 0).unwrap();
    let child_frame = k.read_trapframe_from_kstack(child);
    assert_eq!(child_frame.sp, 0x9000_0000);
}

#[test]
fn pids_stay_unique_across_clones_and_reaps() {
    let (mut k, root) = boot(32);
    let mut pids = vec![root];
    for _ in 0..5 {
        pids.push(k.clone_task(root, 0, None, 0, 0, 0).unwrap());
    }
    // Reap one child and clone again: the freed ID is never reused.
    let gone = pids[3];
    k.exit(gone, 0);
    let reaped = k.wait_pid(root, gone as i32).unwrap();
    assert_eq!(reaped.0, gone);
    pids.push(k.clone_task(root, 0, None, 0, 0, 0).unwrap());
    for i in 0..pids.len() {
        for j in 0..i {
            assert_ne!(pids[i], pids[j]);
        }
    }
}

#[test]
fn clone_fails_cleanly_when_out_of_tasks() {
    let (mut k, root) = boot(1);
    let r = k.clone_task(root, 0, None, 0, 0, 0);
    assert_eq!(r, Err(KernelError::OutOfResources));
    // Nothing was partially registered.
    assert!(!k.has_proc(2));
    let probe = k.wait_pid(root, -1);
    assert_eq!(probe, Err(WaitStatus::NotExist));
}

#[test]
fn shared_address_space_makes_writes_visible() {
    let (mut k, root) = boot(16);
    let child = k.clone_task(root, CLONE_VM as usize, None, 0, 0, 0).unwrap();
    k.mem_write(child, 0x1234, 77);
    assert_eq!(k.mem_read(root, 0x1234), Some(77));
    k.mem_write(root, 0x1234, 78);
    assert_eq!(k.mem_read(child, 0x1234), Some(78));
}

#[test]
fn private_address_space_isolates_writes() {
    let (mut k, root) = boot(16);
    k.mem_write(root, 0x1234, 1);
    let child = k.clone_task(root, 0, None, 0, 0, 0).unwrap();
    // The child starts from a copy of the parent's memory.
    assert_eq!(k.mem_read(child, 0x1234), Some(1));
    k.mem_write(child, 0x1234, 2);
    assert_eq!(k.mem_read(root, 0x1234), Some(1));
    k.mem_write(root, 0x5678, 3);
    assert_eq!(k.mem_read(child, 0x5678), None);
}

#[test]
fn wait_reaps_child_exactly_once() {
    let (mut k, root) = boot(16);
    let child = k.clone_task(root, 0, None, 0, 0, 0).unwrap();
    k.exit(child, 7);
    let first = k.wait4(root, child as i32, false);
    assert_eq!(first, Ok((child, 7 << 8)));
    let second = k.wait4(root, child as i32, false);
    assert_eq!(second, Err(WaitError::NoSuchChild));
    // The reaped control block is gone from the table.
    assert!(!k.has_proc(child));
}

#[test]
fn exit_code_is_shifted_into_wait_status() {
    let (mut k, root) = boot(16);
    let child = k.clone_task(root, 0, None, 0, 0, 0).unwrap();
    k.exit(child, 5);
    let got = k.wait4(root, child as i32, false).unwrap();
    assert_eq!(got.1, 1280);
}

#[test]
fn wait_status_encoding_takes_low_byte() {
    assert_eq!(encode_wait_status(5), 1280);
    assert_eq!(encode_wait_status(0), 0);
    assert_eq!(encode_wait_status(300), 44 * 256);
    assert_eq!(encode_wait_status(-1), 255 * 256);
}

#[test]
fn nonblocking_wait_returns_would_block() {
    let (mut k, root) = boot(16);
    let _child = k.clone_task(root, 0, None, 0, 0, 0).unwrap();
    let r = k.wait4(root, -1, true);
    assert_eq!(r, Err(WaitError::WouldBlock));
    // A blocking caller is asked to yield and retry instead.
    let r = k.wait4(root, -1, false);
    assert_eq!(r, Err(WaitError::Again));
}

#[test]
fn wait_without_children_reports_no_child() {
    let (mut k, root) = boot(16);
    assert_eq!(k.wait_pid(root, -1), Err(WaitStatus::NotExist));
    assert_eq!(k.wait4(root, -1, true), Err(WaitError::NoSuchChild));
    assert_eq!(k.wait4(root, 42, false), Err(WaitError::NoSuchChild));
}

#[test]
fn wait_any_reaps_first_exited_in_index_order() {
    let (mut k, root) = boot(16);
    let c1 = k.clone_task(root, 0, None, 0, 0, 0).unwrap();
    let c2 = k.clone_task(root, 0, None, 0, 0, 0).unwrap();
    k.exit(c2, 1);
    let got = k.wait_pid(root, -1).unwrap();
    assert_eq!(got.0, c2);
    k.exit(c1, 2);
    let got = k.wait_pid(root, 0).unwrap();
    assert_eq!(got.0, c1);
}

#[test]
fn exit_zeroes_registered_tid_address() {
    let (mut k, root) = boot(16);
    let child = k.clone_task(root, CLONE_VM as usize, None, 0, 0, 0).unwrap();
    k.mem_write(child, 0x6000, 999);
    let back = k.set_tid_address(child, 0x6000);
    assert_eq!(back, child);
    k.exit(child, 0);
    assert_eq!(k.mem_read(root, 0x6000), Some(0));
}

#[test]
fn exit_without_tid_address_writes_nothing() {
    let (mut k, root) = boot(16);
    let child = k.clone_task(root, CLONE_VM as usize, None, 0, 0, 0).unwrap();
    k.exit(child, 0);
    assert_eq!(k.mem_read(root, 0), None);
}

#[test]
fn namespace_and_handler_sharing_follow_their_flags() {
    let (mut k, root) = boot(16);
    let shared = k
        .clone_task(root, (CLONE_FILES | CLONE_SIGHAND) as usize, None, 0, 0, 0)
        .unwrap();
    let private = k.clone_task(root, 0, None, 0, 0, 0).unwrap();
    let root_pcb = &k.procs[0];
    let shared_idx = (shared - 1) as usize;
    let private_idx = (private - 1) as usize;
    assert_eq!(k.procs[shared_idx].ns_id, root_pcb.ns_id);
    assert_eq!(
        k.procs[shared_idx].signal.signal_handler,
        root_pcb.signal.signal_handler
    );
    assert_ne!(k.procs[private_idx].ns_id, root_pcb.ns_id);
    assert_ne!(
        k.procs[private_idx].signal.signal_handler,
        root_pcb.signal.signal_handler
    );
}

#[test]
fn set_parent_supports_reparenting() {
    let (mut k, root) = boot(16);
    let c1 = k.clone_task(root, 0, None, 0, 0, 0).unwrap();
    let c2 = k.clone_task(c1, 0, None, 0, 0, 0).unwrap();
    assert_eq!(k.getppid(c2), c1);
    k.set_parent(c2, root);
    assert_eq!(k.getppid(c2), root);
}

#[test]
fn getpid_reports_the_recorded_identity() {
    let (mut k, root) = boot(16);
    assert_eq!(k.getpid(root), root);
    let child = k.clone_task(root, 0, None, 0, 0, 0).unwrap();
    assert_eq!(k.getpid(child), child);
}

#[test]
fn exit_group_skips_the_tid_clear_write() {
    let (mut k, root) = boot(16);
    let child = k.clone_task(root, CLONE_VM as usize, None, 0, 0, 0).unwrap();
    k.mem_write(child, 0x6000, 999);
    k.set_tid_address(child, 0x6000);
    k.exit_group(child, 0);
    // The group-exit path bypasses the tid-clear protocol: the word keeps
    // its value.
    assert_eq!(k.mem_read(root, 0x6000), Some(999));
    let got = k.wait4(root, child as i32, false).unwrap();
    assert_eq!(got.0, child);
}

#[test]
fn exit_group_ends_the_calling_task() {
    let (mut k, root) = boot(16);
    let child = k.clone_task(root, 0, None, 0, 0, 0).unwrap();
    k.exit_group(child, 3);
    let got = k.wait4(root, child as i32, false).unwrap();
    assert_eq!(got, (child, 3 << 8));
}
