//! Per-task CPU-time accounting and POSIX interval timers.
//!
//! A task's `TimeStat` splits its CPU time into user-mode and kernel-mode
//! nanosecond accumulators, driven by four mode-transition hooks, and tracks
//! at most one active interval timer. The timer only counts its remaining
//! time down to zero (the "fire" condition); raising the corresponding
//! signal and reloading the interval are the caller's responsibility.

use vstd::prelude::*;

verus! {

/// Kind of the active interval timer.
#[derive(Clone, Copy, Debug, PartialEq, Eq, Structural)]
pub enum TimerType {
    /// No timer is active.
    NONE,
    /// Wall-clock timer: counts down whether or not the task runs.
    REAL,
    /// User-mode timer: counts down only while the task runs user code.
    VIRTUAL,
    /// Profiling timer: counts down while the task runs user or kernel code.
    PROF,
}

impl TimerType {
    /// The numeric timer kind used at the syscall boundary: real is 0,
    /// virtual is 1, prof is 2; any other number disables the timer.
    pub open spec fn spec_from_num(num: usize) -> TimerType {
        if num == 0 {
            TimerType::REAL
        } else if num == 1 {
            TimerType::VIRTUAL
        } else if num == 2 {
            TimerType::PROF
        } else {
            TimerType::NONE
        }
    }

    /// Decode a numeric timer kind.
    pub fn from(num: usize) -> (r: TimerType)
        ensures
            r == TimerType::spec_from_num(num),
    {
        if num == 0 {
            TimerType::REAL
        } else if num == 1 {
            TimerType::VIRTUAL
        } else if num == 2 {
            TimerType::PROF
        } else {
            TimerType::NONE
        }
    }
}

/// Result of a process-times query, in microseconds.
#[derive(Clone, Copy, Debug, PartialEq, Eq, Structural)]
pub struct Tms {
    /// User time of the task.
    pub tms_utime: usize,
    /// System time of the task.
    pub tms_stime: usize,
    /// User time of the task's children.
    pub tms_cutime: usize,
    /// System time of the task's children.
    pub tms_cstime: usize,
}

/// Accumulated user/kernel time and the active interval timer of one task.
/// All fields are owned and mutated only on the owning task's own execution
/// path, so no locking is modelled.
#[derive(Clone, Copy, Debug, PartialEq, Eq, Structural)]
pub struct TimeStat {
    /// Accumulated user-mode time in nanoseconds.
    pub utime_ns: usize,
    /// Accumulated kernel-mode time in nanoseconds.
    pub stime_ns: usize,
    /// Timestamp of the latest switch into user mode.
    pub user_timestamp: usize,
    /// Timestamp of the latest mode switch charged to the task.
    pub kernel_timestamp: usize,
    /// Kind of the active timer.
    pub timer_type: TimerType,
    /// Interval of the timer in nanoseconds.
    pub timer_interval_ns: usize,
    /// Remaining time of the timer in nanoseconds; clamps at zero, which is
    /// the fire condition.
    pub timer_remained_ns: usize,
}

/// Remaining timer time after `delta` nanoseconds have been charged:
/// decremented, clamping at zero rather than going negative.
pub open spec fn spec_timer_after(remained: usize, delta: usize) -> usize {
    if remained >= delta {
        (remained - delta) as usize
    } else {
        0
    }
}

impl Default for TimeStat {
    /// A fresh accounting record: everything zero, no timer.
    fn default() -> (r: TimeStat)
        ensures
            r == TimeStat::spec_new(),
    {
        TimeStat::new()
    }
}

impl TimeStat {
    /// The fresh accounting record.
    pub open spec fn spec_new() -> TimeStat {
        TimeStat {
            utime_ns: 0,
            stime_ns: 0,
            user_timestamp: 0,
            kernel_timestamp: 0,
            timer_type: TimerType::NONE,
            timer_interval_ns: 0,
            timer_remained_ns: 0,
        }
    }

    /// Create a fresh accounting record: everything zero, no timer.
    pub fn new() -> (r: TimeStat)
        ensures
            r == TimeStat::spec_new(),
    {
        TimeStat {
            utime_ns: 0,
            stime_ns: 0,
            user_timestamp: 0,
            kernel_timestamp: 0,
            timer_type: TimerType::NONE,
            timer_interval_ns: 0,
            timer_remained_ns: 0,
        }
    }

    /// The accumulated (user, kernel) time split, in nanoseconds.
    pub fn output(&self) -> (r: (usize, usize))
        ensures
            r.0 == self.utime_ns,
            r.1 == self.stime_ns,
    {
        (self.utime_ns, self.stime_ns)
    }

    /// Restart accounting from the given timestamp, clearing the
    /// accumulators; the timer configuration is untouched.
    pub fn reset(&mut self, current_timestamp: usize)
        ensures
            final (self).utime_ns == 0,
            final (self).stime_ns == 0,
            final (self).user_timestamp == 0,
            final (self).kernel_timestamp == current_timestamp,
            final (self).timer_type == old(self).timer_type,
            final (self).timer_interval_ns == old(self).timer_interval_ns,
            final (self).timer_remained_ns == old(self).timer_remained_ns,
    {
        self.utime_ns = 0;
        self.stime_ns = 0;
        self.user_timestamp = 0;
        self.kernel_timestamp = current_timestamp;
    }

    /// Hook for a user-to-kernel transition: the elapsed time since the last
    /// recorded switch was spent in user mode, so it is credited to the user
    /// accumulator, and any active timer (of whatever kind) is decremented.
    pub fn switch_into_kernel_mode(&mut self, current_timestamp: usize)
        requires
            old(self).kernel_timestamp <= current_timestamp,
            old(self).utime_ns + (current_timestamp - old(self).kernel_timestamp) <= usize::MAX,
        ensures
            final (self).utime_ns == old(self).utime_ns + (current_timestamp - old(
                self,
            ).kernel_timestamp),
            final (self).kernel_timestamp == current_timestamp,
            final (self).timer_remained_ns == if old(self).timer_type != TimerType::NONE {
                spec_timer_after(
                    old(self).timer_remained_ns,
                    (current_timestamp - old(self).kernel_timestamp) as usize,
                )
            } else {
                old(self).timer_remained_ns
            },
            final (self).stime_ns == old(self).stime_ns,
            final (self).user_timestamp == old(self).user_timestamp,
            final (self).timer_type == old(self).timer_type,
            final (self).timer_interval_ns == old(self).timer_interval_ns,
    {
        let now_time_ns = current_timestamp;
        let delta = now_time_ns - self.kernel_timestamp;
        self.utime_ns = self.utime_ns + delta;
        self.kernel_timestamp = now_time_ns;
        if self.timer_type != TimerType::NONE {
            self.update_timer(delta);
        }
    }

    /// Hook for a kernel-to-user transition: the elapsed time was spent in
    /// kernel mode and is credited there, the mode-switch timestamp moves
    /// to now (so the next hook's delta starts here, never double-counting
    /// the span just credited), and real and prof timers are decremented.
    pub fn switch_into_user_mode(&mut self, current_timestamp: usize)
        requires
            old(self).kernel_timestamp <= current_timestamp,
            old(self).stime_ns + (current_timestamp - old(self).kernel_timestamp) <= usize::MAX,
        ensures
            final (self).stime_ns == old(self).stime_ns + (current_timestamp - old(
                self,
            ).kernel_timestamp),
            final (self).user_timestamp == current_timestamp,
            final (self).timer_remained_ns == if old(self).timer_type == TimerType::REAL || old(
                self,
            ).timer_type == TimerType::PROF {
                spec_timer_after(
                    old(self).timer_remained_ns,
                    (current_timestamp - old(self).kernel_timestamp) as usize,
                )
            } else {
                old(self).timer_remained_ns
            },
            final (self).utime_ns == old(self).utime_ns,
            final (self).kernel_timestamp == current_timestamp,
            final (self).timer_type == old(self).timer_type,
            final (self).timer_interval_ns == old(self).timer_interval_ns,
    {
        let now_time_ns = current_timestamp;
        let delta = now_time_ns - self.kernel_timestamp;
        self.stime_ns = self.stime_ns + delta;
        self.user_timestamp = now_time_ns;
        self.kernel_timestamp = now_time_ns;
        if self.timer_type == TimerType::REAL || self.timer_type == TimerType::PROF {
            self.update_timer(delta);
        }
    }

    /// Hook for the scheduler taking the task off the CPU: the elapsed time
    /// was spent in kernel mode; real and prof timers are decremented.
    pub fn switch_from_old_task(&mut self, current_timestamp: usize)
        requires
            old(self).kernel_timestamp <= current_timestamp,
            old(self).stime_ns + (current_timestamp - old(self).kernel_timestamp) <= usize::MAX,
        ensures
            final (self).stime_ns == old(self).stime_ns + (current_timestamp - old(
                self,
            ).kernel_timestamp),
            final (self).kernel_timestamp == current_timestamp,
            final (self).timer_remained_ns == if old(self).timer_type == TimerType::REAL || old(
                self,
            ).timer_type == TimerType::PROF {
                spec_timer_after(
                    old(self).timer_remained_ns,
                    (current_timestamp - old(self).kernel_timestamp) as usize,
                )
            } else {
                old(self).timer_remained_ns
            },
            final (self).utime_ns == old(self).utime_ns,
            final (self).user_timestamp == old(self).user_timestamp,
            final (self).timer_type == old(self).timer_type,
            final (self).timer_interval_ns == old(self).timer_interval_ns,
    {
        let now_time_ns = current_timestamp;
        let delta = now_time_ns - self.kernel_timestamp;
        self.stime_ns = self.stime_ns + delta;
        self.kernel_timestamp = now_time_ns;
        if self.timer_type == TimerType::REAL || self.timer_type == TimerType::PROF {
            self.update_timer(delta);
        }
    }

    /// Hook for the scheduler putting the task on the CPU: the time since
    /// the last switch was spent off the CPU, so nothing is credited; only a
    /// wall-clock timer keeps counting while the task is not running.
    pub fn switch_to_new_task(&mut self, current_timestamp: usize)
        requires
            old(self).kernel_timestamp <= current_timestamp,
        ensures
            final (self).kernel_timestamp == current_timestamp,
            final (self).timer_remained_ns == if old(self).timer_type == TimerType::REAL {
                spec_timer_after(
                    old(self).timer_remained_ns,
                    (current_timestamp - old(self).kernel_timestamp) as usize,
                )
            } else {
                old(self).timer_remained_ns
            },
            final (self).utime_ns == old(self).utime_ns,
            final (self).stime_ns == old(self).stime_ns,
            final (self).user_timestamp == old(self).user_timestamp,
            final (self).timer_type == old(self).timer_type,
            final (self).timer_interval_ns == old(self).timer_interval_ns,
    {
        let now_time_ns = current_timestamp;
        let delta = now_time_ns - self.kernel_timestamp;
        self.kernel_timestamp = now_time_ns;
        if self.timer_type == TimerType::REAL {
            self.update_timer(delta);
        }
    }

    /// Install a new timer configuration; a numeric kind outside the known
    /// kinds disables the timer. Returns whether a timer was active before
    /// the call.
    pub fn set_timer(
        &mut self,
        timer_interval_ns: usize,
        timer_remained_ns: usize,
        timer_type: usize,
    ) -> (was_previously_active: bool)
        ensures
            final (self).timer_type == TimerType::spec_from_num(timer_type),
            final (self).timer_interval_ns == timer_interval_ns,
            final (self).timer_remained_ns == timer_remained_ns,
            was_previously_active == (old(self).timer_type != TimerType::NONE),
            final (self).utime_ns == old(self).utime_ns,
            final (self).stime_ns == old(self).stime_ns,
            final (self).user_timestamp == old(self).user_timestamp,
            final (self).kernel_timestamp == old(self).kernel_timestamp,
    {
        let was_previously_active = self.timer_type != TimerType::NONE;
        self.timer_type = TimerType::from(timer_type);
        self.timer_interval_ns = timer_interval_ns;
        self.timer_remained_ns = timer_remained_ns;
        was_previously_active
    }

    /// Charge `delta` nanoseconds against the remaining timer time. The
    /// remaining time never goes negative: it clamps at zero, which is the
    /// fire condition observed by the caller.
    pub fn update_timer(&mut self, delta: usize)
        ensures
            final (self).timer_remained_ns == spec_timer_after(
                old(self).timer_remained_ns,
                delta,
            ),
            final (self).utime_ns == old(self).utime_ns,
            final (self).stime_ns == old(self).stime_ns,
            final (self).user_timestamp == old(self).user_timestamp,
            final (self).kernel_timestamp == old(self).kernel_timestamp,
            final (self).timer_type == old(self).timer_type,
            final (self).timer_interval_ns == old(self).timer_interval_ns,
    {
        if self.timer_remained_ns >= delta {
            self.timer_remained_ns = self.timer_remained_ns - delta;
        } else {
            self.timer_remained_ns = 0;
        }
    }
}

} // verus!
