use proc_core::action::SA_ONSTACK;
use proc_core::action::SA_RESTART;
use proc_core::action::SA_RESTORER;
use proc_core::action::SA_SIGINFO;
use proc_core::action::SIG_IGN;
use proc_core::action::SigAction;
use proc_core::action::SigActionFlags;
use proc_core::action::SignalDefault;
use proc_core::action::SignalNo;
use proc_core::kernel::Kernel;
use proc_core::kernel::KernelError;
use proc_core::ksignal::SIGNAL_TRAMPOLINE;
use proc_core::mem::AddrSpace;
use proc_core::signal::DeliveryPlan;
use proc_core::signal::SignalStack;
use proc_core::task::TaskState;
use proc_core::trap::TrapContext;

fn boot() -> (Kernel, u64) {
    let mut k = Kernel::new(16);
    let root = k.spawn_user_task(AddrSpace::new(), TrapContext::new(0x40_0000, 0x7fff_0000));
    (k, root)
}

fn action(handler: usize, flags: u32, restorer: usize) -> SigAction {
    SigAction {
        sa_handler: handler,
        sa_flags: SigActionFlags::from_bits(flags),
        restorer,
        sa_mask: 0,
    }
}

#[test]
fn terminate_class_signal_ends_the_task() {
    let (mut k, root) = boot();
    k.raise(root, SignalNo::SIGKILL);
    let plan = k.begin_delivery(root, SignalNo::SIGKILL).unwrap();
    assert_eq!(plan, DeliveryPlan::Terminated { core_dump: false });
    assert!(matches!(k.task_state(root), TaskState::Exited(9)));
    assert_eq!(k.get_exit_signal(root), Some(SignalNo::SIGKILL));
}

#[test]
fn core_class_signal_ends_the_task_with_dump() {
    let (mut k, root) = boot();
    k.raise(root, SignalNo::SIGSEGV);
    let plan = k.begin_delivery(root, SignalNo::SIGSEGV).unwrap();
    assert_eq!(plan, DeliveryPlan::Terminated { core_dump: true });
    assert!(matches!(k.task_state(root), TaskState::Exited(11)));
}

#[test]
fn ignore_class_signal_leaves_the_task_running() {
    let (mut k, root) = boot();
    k.raise(root, SignalNo::SIGCHLD);
    let plan = k.begin_delivery(root, SignalNo::SIGCHLD).unwrap();
    assert_eq!(plan, DeliveryPlan::Ignored);
    assert!(matches!(k.task_state(root), TaskState::Running));
    assert_eq!(k.next_deliverable(root), None);
}

#[test]
fn stop_and_continue_are_coarse_no_ops() {
    let (mut k, root) = boot();
    k.raise(root, SignalNo::SIGSTOP);
    assert_eq!(
        k.begin_delivery(root, SignalNo::SIGSTOP).unwrap(),
        DeliveryPlan::Stopped
    );
    k.raise(root, SignalNo::SIGCONT);
    assert_eq!(
        k.begin_delivery(root, SignalNo::SIGCONT).unwrap(),
        DeliveryPlan::Continued
    );
    assert!(matches!(k.task_state(root), TaskState::Running));
}

#[test]
fn installed_ignore_consumes_the_pending_bit() {
    let (mut k, root) = boot();
    k.install_action(root, SignalNo::SIGTERM, action(SIG_IGN, 0, 0));
    k.raise(root, SignalNo::SIGTERM);
    assert_eq!(
        k.begin_delivery(root, SignalNo::SIGTERM).unwrap(),
        DeliveryPlan::Ignored
    );
    assert!(matches!(k.task_state(root), TaskState::Running));
    assert_eq!(k.next_deliverable(root), None);
}

#[test]
fn restart_flag_round_trip() {
    let (mut k, root) = boot();
    k.install_action(root, SignalNo::SIGUSR1, action(0x5000, SA_RESTART, 0));
    assert_eq!(k.should_restart_syscall(root), None);
    k.raise(root, SignalNo::SIGUSR1);
    assert_eq!(k.should_restart_syscall(root), Some(true));
}

#[test]
fn restart_flag_absent_says_no_restart() {
    let (mut k, root) = boot();
    k.install_action(root, SignalNo::SIGUSR1, action(0x5000, 0, 0));
    k.raise(root, SignalNo::SIGUSR1);
    assert_eq!(k.should_restart_syscall(root), Some(false));
}

#[test]
fn handler_delivery_swaps_the_trap_frame() {
    let (mut k, root) = boot();
    let before = k.read_trapframe_from_kstack(root);
    k.install_action(root, SignalNo::SIGUSR2, action(0x5000, 0, 0));
    k.raise(root, SignalNo::SIGUSR2);
    let plan = k.begin_delivery(root, SignalNo::SIGUSR2).unwrap();
    assert_eq!(
        plan,
        DeliveryPlan::Handler {
            pc: 0x5000,
            sp: before.sp,
            ra: SIGNAL_TRAMPOLINE
        }
    );
    let during = k.read_trapframe_from_kstack(root);
    assert_eq!(during.pc, 0x5000);
    assert_eq!(during.sp, before.sp);
}

#[test]
fn signal_frame_round_trip_restores_pc_and_sp() {
    let (mut k, root) = boot();
    let before = k.read_trapframe_from_kstack(root);
    k.install_action(root, SignalNo::SIGUSR2, action(0x5000, 0, 0));
    k.raise(root, SignalNo::SIGUSR2);
    k.begin_delivery(root, SignalNo::SIGUSR2).unwrap();
    let restored = k.load_trap_for_signal(root, 0xdead);
    assert!(restored);
    let after = k.read_trapframe_from_kstack(root);
    assert_eq!(after.pc, before.pc);
    assert_eq!(after.sp, before.sp);
    assert_eq!(after.ret, before.ret);
}

#[test]
fn siginfo_delivery_takes_pc_from_user_context() {
    let (mut k, root) = boot();
    let before = k.read_trapframe_from_kstack(root);
    k.install_action(root, SignalNo::SIGUSR2, action(0x5000, SA_SIGINFO, 0));
    k.raise(root, SignalNo::SIGUSR2);
    k.begin_delivery(root, SignalNo::SIGUSR2).unwrap();
    assert!(k.load_trap_for_signal(root, 0x7777));
    let after = k.read_trapframe_from_kstack(root);
    assert_eq!(after.pc, 0x7777);
    assert_eq!(after.sp, before.sp);
}

#[test]
fn completing_without_a_frame_in_flight_is_benign() {
    let (mut k, root) = boot();
    let before = k.read_trapframe_from_kstack(root);
    assert!(!k.load_trap_for_signal(root, 0x7777));
    assert_eq!(k.read_trapframe_from_kstack(root), before);
}

#[test]
fn reentrant_delivery_is_rejected() {
    let (mut k, root) = boot();
    k.install_action(root, SignalNo::SIGUSR1, action(0x5000, 0, 0));
    k.install_action(root, SignalNo::SIGUSR2, action(0x6000, 0, 0));
    k.raise(root, SignalNo::SIGUSR1);
    k.raise(root, SignalNo::SIGUSR2);
    k.begin_delivery(root, SignalNo::SIGUSR1).unwrap();
    let second = k.begin_delivery(root, SignalNo::SIGUSR2);
    assert_eq!(second, Err(KernelError::Unsupported));
}

#[test]
fn alternate_stack_is_used_when_asked_for() {
    let (mut k, root) = boot();
    k.set_alternate_stack(root, SignalStack { sp: 0x9000, size: 0x1000 });
    assert_eq!(
        k.get_alternate_stack(root),
        SignalStack { sp: 0x9000, size: 0x1000 }
    );
    k.install_action(root, SignalNo::SIGUSR1, action(0x5000, SA_ONSTACK, 0));
    k.raise(root, SignalNo::SIGUSR1);
    let plan = k.begin_delivery(root, SignalNo::SIGUSR1).unwrap();
    assert_eq!(
        plan,
        DeliveryPlan::Handler {
            pc: 0x5000,
            sp: 0xa000,
            ra: SIGNAL_TRAMPOLINE
        }
    );
}

#[test]
fn unconfigured_alternate_stack_falls_back_to_user_stack() {
    let (mut k, root) = boot();
    let before = k.read_trapframe_from_kstack(root);
    k.install_action(root, SignalNo::SIGUSR1, action(0x5000, SA_ONSTACK, 0));
    k.raise(root, SignalNo::SIGUSR1);
    let plan = k.begin_delivery(root, SignalNo::SIGUSR1).unwrap();
    assert_eq!(
        plan,
        DeliveryPlan::Handler {
            pc: 0x5000,
            sp: before.sp,
            ra: SIGNAL_TRAMPOLINE
        }
    );
}

#[test]
fn registered_restorer_becomes_the_return_address() {
    let (mut k, root) = boot();
    k.install_action(root, SignalNo::SIGUSR1, action(0x5000, SA_RESTORER, 0x7777));
    k.raise(root, SignalNo::SIGUSR1);
    let plan = k.begin_delivery(root, SignalNo::SIGUSR1).unwrap();
    assert!(matches!(plan, DeliveryPlan::Handler { ra: 0x7777, .. }));
}

#[test]
fn next_deliverable_picks_the_lowest_number() {
    let (mut k, root) = boot();
    k.raise(root, SignalNo::SIGTERM);
    k.raise(root, SignalNo::SIGINT);
    assert_eq!(k.next_deliverable(root), Some(SignalNo::SIGINT));
}

#[test]
fn raising_twice_pends_once() {
    let (mut k, root) = boot();
    k.install_action(root, SignalNo::SIGUSR1, action(SIG_IGN, 0, 0));
    k.raise(root, SignalNo::SIGUSR1);
    k.raise(root, SignalNo::SIGUSR1);
    k.begin_delivery(root, SignalNo::SIGUSR1).unwrap();
    assert_eq!(k.next_deliverable(root), None);
}

#[test]
fn handler_sharing_is_decided_at_clone() {
    let (mut k, root) = boot();
    let sharer = k
        .clone_task(root, proc_core::flags::CLONE_SIGHAND as usize, None, 0, 0, 0)
        .unwrap();
    let loner = k.clone_task(root, 0, None, 0, 0, 0).unwrap();
    k.install_action(root, SignalNo::SIGUSR1, action(0x5000, SA_RESTART, 0));
    assert_eq!(k.query_action(sharer, SignalNo::SIGUSR1).sa_handler, 0x5000);
    assert_eq!(k.query_action(loner, SignalNo::SIGUSR1).sa_handler, 0);
}

#[test]
fn default_disposition_table_spot_checks() {
    assert!(matches!(
        SignalDefault::get_action(SignalNo::SIGABRT),
        SignalDefault::Core
    ));
    assert!(matches!(
        SignalDefault::get_action(SignalNo::SIGCHLD),
        SignalDefault::Ignore
    ));
    assert!(matches!(
        SignalDefault::get_action(SignalNo::SIGCONT),
        SignalDefault::Cont
    ));
    assert!(matches!(
        SignalDefault::get_action(SignalNo::SIGTSTP),
        SignalDefault::Stop
    ));
    assert!(matches!(
        SignalDefault::get_action(SignalNo::SIGKILL),
        SignalDefault::Terminate
    ));
    assert!(matches!(
        SignalDefault::get_action(SignalNo::SIGTRAP),
        SignalDefault::Terminate
    ));
}

#[test]
fn get_storer_needs_the_restorer_flag() {
    let with_flag = action(0x5000, SA_RESTORER, 0x7777);
    assert_eq!(with_flag.get_storer(), Some(0x7777));
    let without = action(0x5000, 0, 0x7777);
    assert_eq!(without.get_storer(), None);
}

#[test]
fn need_restart_reads_the_restart_flag() {
    assert!(action(0x5000, SA_RESTART, 0).need_restart());
    assert!(!action(0x5000, 0, 0).need_restart());
}

#[test]
fn signal_numbers_round_trip() {
    let all = [
        SignalNo::SIGHUP,
        SignalNo::SIGINT,
        SignalNo::SIGKILL,
        SignalNo::SIGUSR1,
        SignalNo::SIGCHLD,
        SignalNo::SIGSYS,
    ];
    for sig in all {
        assert_eq!(SignalNo::from_num(sig.num()), Some(sig));
    }
    assert_eq!(SignalNo::from_num(0), None);
    assert_eq!(SignalNo::from_num(32), None);
    assert_eq!(SignalNo::SIGKILL.num(), 9);
}
