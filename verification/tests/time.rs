use proc_core::kernel::Kernel;
use proc_core::mem::AddrSpace;
use proc_core::time_stat::TimeStat;
use proc_core::time_stat::TimerType;
use proc_core::trap::TrapContext;

#[test]
fn timer_decrements_and_clamps_at_zero() {
    let mut t = TimeStat::new();
    let was_previously_active = t.set_timer(1_000_000, 1_000_000, 0);
    assert!(!was_previously_active);
    t.switch_into_kernel_mode(600_000);
    assert_eq!(t.timer_remained_ns, 400_000);
    t.switch_into_kernel_mode(1_100_000);
    assert_eq!(t.timer_remained_ns, 0);
}

#[test]
fn timer_kind_decoding() {
    assert_eq!(TimerType::from(0), TimerType::REAL);
    assert_eq!(TimerType::from(1), TimerType::VIRTUAL);
    assert_eq!(TimerType::from(2), TimerType::PROF);
    assert_eq!(TimerType::from(3), TimerType::NONE);
    assert_eq!(TimerType::from(usize::MAX), TimerType::NONE);
}

#[test]
fn set_timer_reports_whether_a_timer_was_active() {
    let mut t = TimeStat::new();
    // Nothing was installed yet.
    assert!(!t.set_timer(10, 10, 2));
    assert_eq!(t.timer_interval_ns, 10);
    assert_eq!(t.timer_remained_ns, 10);
    // The prof timer was active when it is replaced.
    assert!(t.set_timer(20, 20, 0));
    // Disabling reports the active real timer; a second disable reports
    // none.
    assert!(t.set_timer(0, 0, 99));
    assert_eq!(t.timer_type, TimerType::NONE);
    assert!(!t.set_timer(0, 0, 99));
}

#[test]
fn kernel_entry_credits_user_time() {
    let mut t = TimeStat::new();
    t.switch_into_kernel_mode(5_000);
    assert_eq!(t.output(), (5_000, 0));
    assert_eq!(t.kernel_timestamp, 5_000);
}

#[test]
fn user_entry_credits_kernel_time() {
    let mut t = TimeStat::new();
    t.switch_into_kernel_mode(5_000);
    t.switch_into_user_mode(8_000);
    assert_eq!(t.output(), (5_000, 3_000));
    assert_eq!(t.user_timestamp, 8_000);
    // The mode-switch timestamp moves on, so the next delta starts here.
    assert_eq!(t.kernel_timestamp, 8_000);
}

#[test]
fn mode_switches_never_double_count_a_span() {
    let mut t = TimeStat::new();
    t.switch_into_kernel_mode(5_000);
    t.switch_into_user_mode(8_000);
    t.switch_into_kernel_mode(10_000);
    // The kernel span 5000..8000 is credited once, to kernel time; the
    // user span 8000..10000 once, to user time.
    assert_eq!(t.output(), (7_000, 3_000));
}

#[test]
fn switching_out_credits_kernel_time() {
    let mut t = TimeStat::new();
    t.switch_from_old_task(4_000);
    assert_eq!(t.output(), (0, 4_000));
}

#[test]
fn switching_in_credits_nothing() {
    let mut t = TimeStat::new();
    t.switch_to_new_task(9_000);
    assert_eq!(t.output(), (0, 0));
    assert_eq!(t.kernel_timestamp, 9_000);
}

#[test]
fn virtual_timer_only_runs_on_kernel_entry() {
    let mut t = TimeStat::new();
    t.set_timer(0, 1_000, 1);
    t.switch_into_user_mode(100);
    assert_eq!(t.timer_remained_ns, 1_000);
    t.switch_to_new_task(200);
    assert_eq!(t.timer_remained_ns, 1_000);
    t.switch_into_kernel_mode(500);
    assert_eq!(t.timer_remained_ns, 700);
}

#[test]
fn wall_clock_timer_keeps_counting_while_descheduled() {
    let mut t = TimeStat::new();
    t.set_timer(0, 1_000, 0);
    t.switch_to_new_task(300);
    assert_eq!(t.timer_remained_ns, 700);
}

#[test]
fn prof_timer_skips_schedule_in() {
    let mut t = TimeStat::new();
    t.set_timer(0, 1_000, 2);
    t.switch_to_new_task(300);
    assert_eq!(t.timer_remained_ns, 1_000);
    t.switch_from_old_task(500);
    assert_eq!(t.timer_remained_ns, 800);
}

#[test]
fn update_timer_never_goes_negative() {
    let mut t = TimeStat::new();
    t.set_timer(0, 100, 0);
    t.update_timer(250);
    assert_eq!(t.timer_remained_ns, 0);
    t.update_timer(50);
    assert_eq!(t.timer_remained_ns, 0);
}

#[test]
fn reset_clears_accumulators_but_keeps_the_timer() {
    let mut t = TimeStat::new();
    t.set_timer(7, 2_000_000, 0);
    t.switch_into_kernel_mode(1_000);
    assert_eq!(t.output(), (1_000, 0));
    t.reset(2_000);
    assert_eq!(t.output(), (0, 0));
    assert_eq!(t.kernel_timestamp, 2_000);
    assert_eq!(t.timer_interval_ns, 7);
    assert_eq!(t.timer_remained_ns, 1_999_000);
}

#[test]
fn default_time_stat_is_fresh() {
    let t = TimeStat::default();
    assert_eq!(t, TimeStat::new());
    assert_eq!(t.timer_type, TimerType::NONE);
}

#[test]
fn process_times_report_microseconds_with_own_split_for_children() {
    let mut k = Kernel::new(4);
    let root = k.spawn_user_task(AddrSpace::new(), TrapContext::new(0x40_0000, 0x7fff_0000));
    k.procs[0].time.switch_into_kernel_mode(5_500);
    k.procs[0].time.switch_into_user_mode(9_000);
    let tms = k.times(root);
    assert_eq!(tms.tms_utime, 5);
    assert_eq!(tms.tms_stime, 3);
    assert_eq!(tms.tms_cutime, 5);
    assert_eq!(tms.tms_cstime, 3);
}

#[test]
fn kernel_set_timer_reaches_the_task() {
    let mut k = Kernel::new(4);
    let root = k.spawn_user_task(AddrSpace::new(), TrapContext::new(0x40_0000, 0x7fff_0000));
    assert!(!k.set_timer(root, 1_000, 1_000, 0));
    assert_eq!(k.procs[0].time.timer_remained_ns, 1_000);
    // Disabling reports that the real timer was active.
    assert!(k.set_timer(root, 0, 0, 7));
    assert!(!k.set_timer(root, 0, 0, 7));
}
