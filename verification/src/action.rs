//! Signal numbers, signal actions and the default-disposition table.

use vstd::prelude::*;

verus! {

/// Handler value representing the default disposition.
pub const SIG_DFL: usize = 0;

/// Handler value representing "ignore the signal".
pub const SIG_IGN: usize = 1;

/// Use a three-argument, siginfo-style handler invocation.
pub const SA_SIGINFO: u32 = 0x4;

/// Run the handler on the alternate signal stack, if one is configured.
pub const SA_ONSTACK: u32 = 0x8000000;

/// Transparently restart an interrupted system call after the handler.
pub const SA_RESTART: u32 = 0x10000000;

/// Do not automatically block the signal while its handler runs.
pub const SA_NODEFER: u32 = 0x40000000;

/// Restore the default disposition upon entry to the handler.
pub const SA_RESETHAND: u32 = 0x80000000;

/// Use the registered restorer as the handler's return trampoline.
pub const SA_RESTORER: u32 = 0x4000000;

/// The classic signal numbers. Real-time signals (and queueing of repeated
/// instances of one signal) are out of scope.
#[derive(Clone, Copy, Debug, PartialEq, Eq, Structural)]
pub enum SignalNo {
    SIGHUP,
    SIGINT,
    SIGQUIT,
    SIGILL,
    SIGTRAP,
    SIGABRT,
    SIGBUS,
    SIGFPE,
    SIGKILL,
    SIGUSR1,
    SIGSEGV,
    SIGUSR2,
    SIGPIPE,
    SIGALRM,
    SIGTERM,
    SIGSTKFLT,
    SIGCHLD,
    SIGCONT,
    SIGSTOP,
    SIGTSTP,
    SIGTTIN,
    SIGTTOU,
    SIGURG,
    SIGXCPU,
    SIGXFSZ,
    SIGVTALRM,
    SIGPROF,
    SIGWINCH,
    SIGIO,
    SIGPWR,
    SIGSYS,
}

/// One more than the largest signal number.
pub const MAX_SIG_NUM: usize = 32;

impl SignalNo {
    /// The Linux signal number of this signal.
    pub open spec fn spec_num(self) -> u32 {
        match self {
            SignalNo::SIGHUP => 1,
            SignalNo::SIGINT => 2,
            SignalNo::SIGQUIT => 3,
            SignalNo::SIGILL => 4,
            SignalNo::SIGTRAP => 5,
            SignalNo::SIGABRT => 6,
            SignalNo::SIGBUS => 7,
            SignalNo::SIGFPE => 8,
            SignalNo::SIGKILL => 9,
            SignalNo::SIGUSR1 => 10,
            SignalNo::SIGSEGV => 11,
            SignalNo::SIGUSR2 => 12,
            SignalNo::SIGPIPE => 13,
            SignalNo::SIGALRM => 14,
            SignalNo::SIGTERM => 15,
            SignalNo::SIGSTKFLT => 16,
            SignalNo::SIGCHLD => 17,
            SignalNo::SIGCONT => 18,
            SignalNo::SIGSTOP => 19,
            SignalNo::SIGTSTP => 20,
            SignalNo::SIGTTIN => 21,
            SignalNo::SIGTTOU => 22,
            SignalNo::SIGURG => 23,
            SignalNo::SIGXCPU => 24,
            SignalNo::SIGXFSZ => 25,
            SignalNo::SIGVTALRM => 26,
            SignalNo::SIGPROF => 27,
            SignalNo::SIGWINCH => 28,
            SignalNo::SIGIO => 29,
            SignalNo::SIGPWR => 30,
            SignalNo::SIGSYS => 31,
        }
    }

    /// The signal with the given Linux number, if there is one.
    pub open spec fn spec_from_num(num: u32) -> Option<SignalNo> {
        if num == 1 {
            Some(SignalNo::SIGHUP)
        } else if num == 2 {
            Some(SignalNo::SIGINT)
        } else if num == 3 {
            Some(SignalNo::SIGQUIT)
        } else if num == 4 {
            Some(SignalNo::SIGILL)
        } else if num == 5 {
            Some(SignalNo::SIGTRAP)
        } else if num == 6 {
            Some(SignalNo::SIGABRT)
        } else if num == 7 {
            Some(SignalNo::SIGBUS)
        } else if num == 8 {
            Some(SignalNo::SIGFPE)
        } else if num == 9 {
            Some(SignalNo::SIGKILL)
        } else if num == 10 {
            Some(SignalNo::SIGUSR1)
        } else if num == 11 {
            Some(SignalNo::SIGSEGV)
        } else if num == 12 {
            Some(SignalNo::SIGUSR2)
        } else if num == 13 {
            Some(SignalNo::SIGPIPE)
        } else if num == 14 {
            Some(SignalNo::SIGALRM)
        } else if num == 15 {
            Some(SignalNo::SIGTERM)
        } else if num == 16 {
            Some(SignalNo::SIGSTKFLT)
        } else if num == 17 {
            Some(SignalNo::SIGCHLD)
        } else if num == 18 {
            Some(SignalNo::SIGCONT)
        } else if num == 19 {
            Some(SignalNo::SIGSTOP)
        } else if num == 20 {
            Some(SignalNo::SIGTSTP)
        } else if num == 21 {
            Some(SignalNo::SIGTTIN)
        } else if num == 22 {
            Some(SignalNo::SIGTTOU)
        } else if num == 23 {
            Some(SignalNo::SIGURG)
        } else if num == 24 {
            Some(SignalNo::SIGXCPU)
        } else if num == 25 {
            Some(SignalNo::SIGXFSZ)
        } else if num == 26 {
            Some(SignalNo::SIGVTALRM)
        } else if num == 27 {
            Some(SignalNo::SIGPROF)
        } else if num == 28 {
            Some(SignalNo::SIGWINCH)
        } else if num == 29 {
            Some(SignalNo::SIGIO)
        } else if num == 30 {
            Some(SignalNo::SIGPWR)
        } else if num == 31 {
            Some(SignalNo::SIGSYS)
        } else {
            None
        }
    }

    /// The Linux signal number of this signal.
    pub fn num(self) -> (r: u32)
        ensures
            r == self.spec_num(),
            1 <= r < MAX_SIG_NUM,
    {
        match self {
            SignalNo::SIGHUP => 1,
            SignalNo::SIGINT => 2,
            SignalNo::SIGQUIT => 3,
            SignalNo::SIGILL => 4,
            SignalNo::SIGTRAP => 5,
            SignalNo::SIGABRT => 6,
            SignalNo::SIGBUS => 7,
            SignalNo::SIGFPE => 8,
            SignalNo::SIGKILL => 9,
            SignalNo::SIGUSR1 => 10,
            SignalNo::SIGSEGV => 11,
            SignalNo::SIGUSR2 => 12,
            SignalNo::SIGPIPE => 13,
            SignalNo::SIGALRM => 14,
            SignalNo::SIGTERM => 15,
            SignalNo::SIGSTKFLT => 16,
            SignalNo::SIGCHLD => 17,
            SignalNo::SIGCONT => 18,
            SignalNo::SIGSTOP => 19,
            SignalNo::SIGTSTP => 20,
            SignalNo::SIGTTIN => 21,
            SignalNo::SIGTTOU => 22,
            SignalNo::SIGURG => 23,
            SignalNo::SIGXCPU => 24,
            SignalNo::SIGXFSZ => 25,
            SignalNo::SIGVTALRM => 26,
            SignalNo::SIGPROF => 27,
            SignalNo::SIGWINCH => 28,
            SignalNo::SIGIO => 29,
            SignalNo::SIGPWR => 30,
            SignalNo::SIGSYS => 31,
        }
    }

    /// Decode a Linux signal number.
    pub fn from_num(num: u32) -> (r: Option<SignalNo>)
        ensures
            r == SignalNo::spec_from_num(num),
    {
        if num == 1 {
            Some(SignalNo::SIGHUP)
        } else if num == 2 {
            Some(SignalNo::SIGINT)
        } else if num == 3 {
            Some(SignalNo::SIGQUIT)
        } else if num == 4 {
            Some(SignalNo::SIGILL)
        } else if num == 5 {
            Some(SignalNo::SIGTRAP)
        } else if num == 6 {
            Some(SignalNo::SIGABRT)
        } else if num == 7 {
            Some(SignalNo::SIGBUS)
        } else if num == 8 {
            Some(SignalNo::SIGFPE)
        } else if num == 9 {
            Some(SignalNo::SIGKILL)
        } else if num == 10 {
            Some(SignalNo::SIGUSR1)
        } else if num == 11 {
            Some(SignalNo::SIGSEGV)
        } else if num == 12 {
            Some(SignalNo::SIGUSR2)
        } else if num == 13 {
            Some(SignalNo::SIGPIPE)
        } else if num == 14 {
            Some(SignalNo::SIGALRM)
        } else if num == 15 {
            Some(SignalNo::SIGTERM)
        } else if num == 16 {
            Some(SignalNo::SIGSTKFLT)
        } else if num == 17 {
            Some(SignalNo::SIGCHLD)
        } else if num == 18 {
            Some(SignalNo::SIGCONT)
        } else if num == 19 {
            Some(SignalNo::SIGSTOP)
        } else if num == 20 {
            Some(SignalNo::SIGTSTP)
        } else if num == 21 {
            Some(SignalNo::SIGTTIN)
        } else if num == 22 {
            Some(SignalNo::SIGTTOU)
        } else if num == 23 {
            Some(SignalNo::SIGURG)
        } else if num == 24 {
            Some(SignalNo::SIGXCPU)
        } else if num == 25 {
            Some(SignalNo::SIGXFSZ)
        } else if num == 26 {
            Some(SignalNo::SIGVTALRM)
        } else if num == 27 {
            Some(SignalNo::SIGPROF)
        } else if num == 28 {
            Some(SignalNo::SIGWINCH)
        } else if num == 29 {
            Some(SignalNo::SIGIO)
        } else if num == 30 {
            Some(SignalNo::SIGPWR)
        } else if num == 31 {
            Some(SignalNo::SIGSYS)
        } else {
            None
        }
    }
}

/// The built-in action applied to a signal whose disposition is the default.
#[derive(Clone, Copy, Debug, PartialEq, Eq, Structural)]
pub enum SignalDefault {
    /// Terminate the task.
    Terminate,
    /// Do nothing.
    Ignore,
    /// Terminate the task and dump core.
    Core,
    /// Stop the task.
    Stop,
    /// Resume the task.
    Cont,
}

impl SignalDefault {
    /// The fixed default-disposition table.
    pub open spec fn spec_get_action(signal: SignalNo) -> SignalDefault {
        match signal {
            SignalNo::SIGABRT => SignalDefault::Core,
            SignalNo::SIGALRM => SignalDefault::Terminate,
            SignalNo::SIGBUS => SignalDefault::Core,
            SignalNo::SIGCHLD => SignalDefault::Ignore,
            SignalNo::SIGCONT => SignalDefault::Cont,
            SignalNo::SIGFPE => SignalDefault::Core,
            SignalNo::SIGHUP => SignalDefault::Terminate,
            SignalNo::SIGILL => SignalDefault::Core,
            SignalNo::SIGINT => SignalDefault::Terminate,
            SignalNo::SIGKILL => SignalDefault::Terminate,
            SignalNo::SIGPIPE => SignalDefault::Terminate,
            SignalNo::SIGQUIT => SignalDefault::Core,
            SignalNo::SIGSEGV => SignalDefault::Core,
            SignalNo::SIGSTOP => SignalDefault::Stop,
            SignalNo::SIGTERM => SignalDefault::Terminate,
            SignalNo::SIGTSTP => SignalDefault::Stop,
            SignalNo::SIGTTIN => SignalDefault::Stop,
            SignalNo::SIGTTOU => SignalDefault::Stop,
            SignalNo::SIGUSR1 => SignalDefault::Terminate,
            SignalNo::SIGUSR2 => SignalDefault::Terminate,
            SignalNo::SIGXCPU => SignalDefault::Core,
            SignalNo::SIGXFSZ => SignalDefault::Core,
            SignalNo::SIGVTALRM => SignalDefault::Terminate,
            SignalNo::SIGPROF => SignalDefault::Terminate,
            SignalNo::SIGWINCH => SignalDefault::Ignore,
            SignalNo::SIGIO => SignalDefault::Terminate,
            SignalNo::SIGPWR => SignalDefault::Terminate,
            SignalNo::SIGSYS => SignalDefault::Core,
            _ => SignalDefault::Terminate,
        }
    }

    /// Get the default action of a signal.
    pub fn get_action(signal: SignalNo) -> (r: SignalDefault)
        ensures
            r == SignalDefault::spec_get_action(signal),
    {
        match signal {
            SignalNo::SIGABRT => SignalDefault::Core,
            SignalNo::SIGALRM => SignalDefault::Terminate,
            SignalNo::SIGBUS => SignalDefault::Core,
            SignalNo::SIGCHLD => SignalDefault::Ignore,
            SignalNo::SIGCONT => SignalDefault::Cont,
            SignalNo::SIGFPE => SignalDefault::Core,
            SignalNo::SIGHUP => SignalDefault::Terminate,
            SignalNo::SIGILL => SignalDefault::Core,
            SignalNo::SIGINT => SignalDefault::Terminate,
            SignalNo::SIGKILL => SignalDefault::Terminate,
            SignalNo::SIGPIPE => SignalDefault::Terminate,
            SignalNo::SIGQUIT => SignalDefault::Core,
            SignalNo::SIGSEGV => SignalDefault::Core,
            SignalNo::SIGSTOP => SignalDefault::Stop,
            SignalNo::SIGTERM => SignalDefault::Terminate,
            SignalNo::SIGTSTP => SignalDefault::Stop,
            SignalNo::SIGTTIN => SignalDefault::Stop,
            SignalNo::SIGTTOU => SignalDefault::Stop,
            SignalNo::SIGUSR1 => SignalDefault::Terminate,
            SignalNo::SIGUSR2 => SignalDefault::Terminate,
            SignalNo::SIGXCPU => SignalDefault::Core,
            SignalNo::SIGXFSZ => SignalDefault::Core,
            SignalNo::SIGVTALRM => SignalDefault::Terminate,
            SignalNo::SIGPROF => SignalDefault::Terminate,
            SignalNo::SIGWINCH => SignalDefault::Ignore,
            SignalNo::SIGIO => SignalDefault::Terminate,
            SignalNo::SIGPWR => SignalDefault::Terminate,
            SignalNo::SIGSYS => SignalDefault::Core,
            _ => SignalDefault::Terminate,
        }
    }
}

/// The flag bits of a signal action.
#[derive(Clone, Copy, Debug, PartialEq, Eq, Structural)]
pub struct SigActionFlags {
    pub bits: u32,
}

impl Default for SigActionFlags {
    /// No flags set.
    fn default() -> (r: SigActionFlags)
        ensures
            r.bits == 0,
    {
        SigActionFlags { bits: 0 }
    }
}

impl SigActionFlags {
    /// Wrap a raw flag word.
    pub fn from_bits(bits: u32) -> (r: SigActionFlags)
        ensures
            r.bits == bits,
    {
        SigActionFlags { bits }
    }

    /// All bits of `mask` are set.
    pub open spec fn spec_contains(self, mask: u32) -> bool {
        self.bits & mask == mask
    }

    /// Whether all bits of `mask` are set.
    pub fn contains(self, mask: u32) -> (r: bool)
        ensures
            r == self.spec_contains(mask),
    {
        self.bits & mask == mask
    }
}

/// The disposition and flags installed for one signal number.
#[derive(Clone, Copy, Debug, PartialEq, Eq, Structural)]
pub struct SigAction {
    /// Address of the handler, or `SIG_DFL` or `SIG_IGN`.
    pub sa_handler: usize,
    /// The action's flag bits.
    pub sa_flags: SigActionFlags,
    /// Address of the registered return trampoline, meaningful only with
    /// `SA_RESTORER`.
    pub restorer: usize,
    /// Signals blocked while the handler executes.
    pub sa_mask: usize,
}

impl Default for SigAction {
    /// The default disposition: handler `SIG_DFL`, no flags, no restorer,
    /// empty mask.
    fn default() -> (r: SigAction)
        ensures
            r == SigAction::spec_default(),
    {
        SigAction { sa_handler: SIG_DFL, sa_flags: SigActionFlags { bits: 0 }, restorer: 0, sa_mask: 0 }
    }
}

impl SigAction {
    /// The default disposition entry.
    pub open spec fn spec_default() -> SigAction {
        SigAction { sa_handler: SIG_DFL, sa_flags: SigActionFlags { bits: 0 }, restorer: 0, sa_mask: 0 }
    }

    /// The registered restorer address, when the restorer flag makes it
    /// valid; otherwise the caller falls back to the kernel trampoline.
    pub open spec fn spec_get_storer(self) -> Option<usize> {
        if self.sa_flags.spec_contains(SA_RESTORER) {
            Some(self.restorer)
        } else {
            None
        }
    }

    /// Get the restorer address of the signal action, if the restorer flag
    /// marks it valid.
    pub fn get_storer(&self) -> (r: Option<usize>)
        ensures
            r == self.spec_get_storer(),
    {
        if self.sa_flags.contains(SA_RESTORER) {
            Some(self.restorer)
        } else {
            None
        }
    }

    /// Whether an interrupted syscall should be restarted after this
    /// action's handler returns.
    pub fn need_restart(&self) -> (r: bool)
        ensures
            r == self.sa_flags.spec_contains(SA_RESTART),
    {
        self.sa_flags.contains(SA_RESTART)
    }
}

} // verus!
