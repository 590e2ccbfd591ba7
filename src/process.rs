//! Process reporting: the refresh options, process status and signal names,
//! and the reading of a process's environment entries.

use vstd::prelude::*;
use vstd::std_specs::iter::IteratorSpec;

verus! {

broadcast use vstd::string::group_string_axioms;

/// Process refresh configuration for controlling what information to update
pub struct ProcessRefreshConfig {
    /// Refresh memory information (default: true)
    pub memory: Option<bool>,
    /// Refresh CPU usage information (default: true)
    pub cpu: Option<bool>,
    /// Refresh disk usage information (default: true)
    pub disk_usage: Option<bool>,
    /// Refresh executable path information (default: true)
    pub exe: Option<bool>,
    /// Refresh command line arguments (default: false)
    pub cmd: Option<bool>,
    /// Refresh environment variables (default: false)
    pub environ: Option<bool>,
    /// Refresh current working directory (default: false)
    pub cwd: Option<bool>,
    /// Refresh user information (default: false)
    pub user: Option<bool>,
    /// Refresh tasks/threads information (default: false)
    pub tasks: Option<bool>,
}

/// What one refresh of processes updates, each choice settled.
#[derive(Clone, Copy, Debug, PartialEq, Eq, Structural)]
pub struct ProcessRefreshSelection {
    pub memory: bool,
    pub cpu: bool,
    pub disk_usage: bool,
    pub exe: bool,
    pub cmd: bool,
    pub environ: bool,
    pub cwd: bool,
    pub user: bool,
    pub tasks: bool,
}

/// The selection a configuration asks for: each option as given, or its
/// default when left out. No configuration at all selects the defaults:
/// memory, CPU, disk usage and executable path.
pub open spec fn selection_of(config: Option<ProcessRefreshConfig>) -> ProcessRefreshSelection {
    match config {
        Some(c) => ProcessRefreshSelection {
            memory: c.memory.unwrap_or(true),
            cpu: c.cpu.unwrap_or(true),
            disk_usage: c.disk_usage.unwrap_or(true),
            exe: c.exe.unwrap_or(true),
            cmd: c.cmd.unwrap_or(false),
            environ: c.environ.unwrap_or(false),
            cwd: c.cwd.unwrap_or(false),
            user: c.user.unwrap_or(false),
            tasks: c.tasks.unwrap_or(false),
        },
        None => ProcessRefreshSelection {
            memory: true,
            cpu: true,
            disk_usage: true,
            exe: true,
            cmd: false,
            environ: false,
            cwd: false,
            user: false,
            tasks: false,
        },
    }
}

fn flag_or(flag: Option<bool>, default: bool) -> (r: bool)
    ensures
        r == flag.unwrap_or(default),
{
    match flag {
        Some(b) => b,
        None => default,
    }
}

impl ProcessRefreshConfig {
    /// The selection that `config` asks for.
    pub fn selection(config: &Option<ProcessRefreshConfig>) -> (r: ProcessRefreshSelection)
        ensures
            r == selection_of(*config),
    {
        match config {
            Some(c) => ProcessRefreshSelection {
                memory: flag_or(c.memory, true),
                cpu: flag_or(c.cpu, true),
                disk_usage: flag_or(c.disk_usage, true),
                exe: flag_or(c.exe, true),
                cmd: flag_or(c.cmd, false),
                environ: flag_or(c.environ, false),
                cwd: flag_or(c.cwd, false),
                user: flag_or(c.user, false),
                tasks: flag_or(c.tasks, false),
            },
            None => ProcessRefreshSelection {
                memory: true,
                cpu: true,
                disk_usage: true,
                exe: true,
                cmd: false,
                environ: false,
                cwd: false,
                user: false,
                tasks: false,
            },
        }
    }
}

/// Whether a refresh drops the processes that have ended: as asked, and yes
/// when not asked.
pub fn remove_dead_processes(remove_dead: Option<bool>) -> (r: bool)
    ensures
        r == remove_dead.unwrap_or(true),
{
    flag_or(remove_dead, true)
}

/// Process status enumeration
#[derive(Clone, Copy, Debug, PartialEq, Eq, Structural)]
pub enum ProcessStatus {
    /// Process is idle
    Idle,
    /// Process is running
    Run,
    /// Process is sleeping in an interruptible wait
    Sleep,
    /// Process is stopped
    Stop,
    /// Process is a zombie
    Zombie,
    /// Process is being traced
    Tracing,
    /// Process is dead/uninterruptible sleep
    Dead,
    /// Process is wakekill
    Wakekill,
    /// Process is waking
    Waking,
    /// Process is parked
    Parked,
    /// Process is blocked on a lock
    LockBlocked,
    /// Process is waiting in uninterruptible disk sleep
    UninterruptibleDiskSleep,
    /// Process status is unknown
    Unknown,
}

/// Unix signal enumeration
#[derive(Clone, Copy, Debug, PartialEq, Eq, Structural)]
pub enum Signal {
    /// Hangup detected on controlling terminal
    Hangup,
    /// Interrupt from keyboard
    Interrupt,
    /// Quit from keyboard
    Quit,
    /// Illegal instruction
    Illegal,
    /// Trace/breakpoint trap
    Trap,
    /// Abort signal
    Abort,
    /// IOT trap
    IOT,
    /// Bus error
    Bus,
    /// Floating point exception
    FloatingPointException,
    /// Kill signal
    Kill,
    /// User-defined signal 1
    User1,
    /// Invalid memory reference
    Segv,
    /// User-defined signal 2
    User2,
    /// Broken pipe
    Pipe,
    /// Timer signal
    Alarm,
    /// Termination signal
    Term,
    /// Child stopped or terminated
    Child,
    /// Continue if stopped
    Continue,
    /// Stop process
    Stop,
    /// Stop typed at terminal
    TSTP,
    /// Terminal input for background process
    TTIN,
    /// Terminal output for background process
    TTOU,
    /// Urgent condition on socket
    Urgent,
    /// CPU time limit exceeded
    XCPU,
    /// File size limit exceeded
    XFSZ,
    /// Virtual alarm clock
    VirtualAlarm,
    /// Profiling time expired
    Profiling,
    /// Window resize signal
    Winch,
    /// I/O now possible
    IO,
    /// Pollable event
    Poll,
    /// Power failure
    Power,
    /// Bad argument to routine
    Sys,
}

/// Splits one environment entry at its first `=` into name and value. An entry
/// without `=` is all name, with an empty value.
pub fn split_environ_entry(var: &str) -> (r: (String, String))
    ensures
        !var@.contains('=') ==> r.0@ == var@ && r.1@ == Seq::<char>::empty(),
        var@.contains('=') ==> !r.0@.contains('=') && var@ == r.0@ + seq!['='] + r.1@,
{
    let n = var.unicode_len();
    let mut chars = var.chars();
    let mut i: usize = 0;
    let mut found = false;
    loop
        invariant_except_break
            i <= var@.len(),
            n == var@.len(),
            chars.remaining() == var@.skip(i as int),
            forall|j: int| 0 <= j < i ==> var@[j] != '=',
            !found,
        ensures
            i <= var@.len(),
            forall|j: int| 0 <= j < i ==> var@[j] != '=',
            found ==> i < var@.len() && var@[i as int] == '=',
            !found ==> i == var@.len(),
        decreases var@.len() - i,
    {
        match chars.next() {
            Some(c) => {
                if c == '=' {
                    found = true;
                    break;
                }
                i = i + 1;
            },
            None => {
                break;
            },
        }
    }
    if found {
        let name = var.substring_char(0, i);
        let value = var.substring_char(i + 1, n);
        assert(var@ =~= name@ + seq!['='] + value@);
        assert(!name@.contains('=')) by {
            assert forall|j: int| 0 <= j < name@.len() implies name@[j] != '=' by {
                assert(name@[j] == var@[j]);
            }
        }
        (String::from_str(name), String::from_str(value))
    } else {
        (String::from_str(var), String::new())
    }
}

} // verus!
