//! Lifecycle of the supervised chromedriver subprocess.
//!
//! The supervisor owns exactly one subprocess. Its life is the state machine
//! `Running -> Exited`: the transition happens either autonomously (the child
//! exits) or through `kill`, and nothing ever leaves `Exited`. The launch
//! command line, the child-side privilege drop, and the teardown decision are
//! all built and checked here; the caller performs the OS spawn, the
//! non-blocking exit-status polls, and the signal delivery, and reports each
//! observation back to the model.

use vstd::prelude::*;
use vstd::string::StringExecFns;

use crate::decimal::dec_seq;
use crate::decimal::u16_to_decimal;
use crate::error::Error;

verus! {

/// The steps a spawn performs, in the order they happen in the child.
#[derive(Debug)]
pub enum SpawnStep {
    /// The supervisor forks a child process.
    Fork,
    /// The child clears its effective capability set.
    DropPrivileges,
    /// The child replaces its image with the driver program.
    Exec,
}

/// The fixed order of the spawn steps: the privilege drop stands strictly
/// between the fork and the exec.
pub open spec fn spawn_sequence() -> Seq<SpawnStep> {
    seq![SpawnStep::Fork, SpawnStep::DropPrivileges, SpawnStep::Exec]
}

/// The privilege drop is attempted before the child's program image is
/// replaced: in the spawn sequence, every `DropPrivileges` step stands
/// before every `Exec` step.
pub proof fn lemma_privilege_drop_precedes_exec()
    ensures
        forall|i: int, j: int|
            0 <= i < spawn_sequence().len() && 0 <= j < spawn_sequence().len()
                && spawn_sequence()[i] is DropPrivileges && spawn_sequence()[j] is Exec ==> i < j,
{
}

/// The command line a supervised driver is launched with.
#[derive(Debug)]
pub struct LaunchCommand {
    /// Path of the driver executable.
    pub program: String,
    /// Arguments handed to it.
    pub args: Vec<String>,
}

/// Builds the launch command for `program` on `port`: the driver is invoked
/// as `<program> --port=<port> --verbose`.
pub fn launch_command(program: &str, port: u16) -> (c: LaunchCommand)
    ensures
        c.program@ == program@,
        c.args.deep_view() =~= seq!["--port="@ + dec_seq(port as nat), "--verbose"@],
{
    let mut port_arg = String::from_str("--port=");
    let digits = u16_to_decimal(port);
    port_arg.append(digits.as_str());
    let mut args: Vec<String> = Vec::new();
    args.push(port_arg);
    args.push(String::from_str("--verbose"));
    LaunchCommand { program: String::from_str(program), args }
}

/// Relies on `caps::clear(None, CapSet::Effective)`: clears the effective
/// capability set of the calling process, returning `Err` when the
/// underlying capability syscalls fail. Whether it succeeds depends on the
/// state of the process and the OS, so nothing is promised of the outcome.
#[verifier::external_body]
fn clear_effective_caps() -> Result<(), caps::errors::CapsError> {
    caps::clear(None, caps::CapSet::Effective)
}

/// What the child does after its setup ran.
#[derive(Debug)]
pub enum ChildAction {
    /// Replace the process image with the driver program.
    Exec,
    /// Exit immediately; the driver program never runs.
    Abort,
}

/// The child-side setup: attempts the privilege drop and reports the
/// outcome. An `Err` is always the privilege-drop kind.
pub fn child_setup() -> (r: Result<(), Error>)
    ensures
        r matches Err(e) ==> e is CapSetError,
{
    match clear_effective_caps() {
        Ok(()) => Ok(()),
        Err(e) => Err(Error::CapSetError(e)),
    }
}

/// The child proceeds to exec exactly when its setup succeeded: a child
/// whose privilege drop failed aborts before the driver program (and with
/// it the listening port) is ever reached.
pub fn child_action_after_setup(setup: &Result<(), Error>) -> (a: ChildAction)
    ensures
        a is Exec <==> setup is Ok,
{
    match setup {
        Ok(()) => ChildAction::Exec,
        Err(_) => ChildAction::Abort,
    }
}

/// What `start` hands back once the OS answered the spawn: the handle for
/// a running driver on `port` when the spawn succeeded, and the
/// spawn-failure error, wrapping the underlying OS error, when it did not.
pub fn start_result(port: u16, spawn: Result<(), std::io::Error>) -> (r: Result<
    ChromeDriver,
    Error,
>)
    ensures
        spawn is Ok ==> (r matches Ok(d) && d == spec_started(port)),
        spawn matches Err(e) ==> (r matches Err(err) && err matches
            Error::ChromeDriverStartError(inner) && inner == e),
{
    match spawn {
        Ok(()) => Ok(ChromeDriver::new(port)),
        Err(e) => Err(Error::ChromeDriverStartError(e)),
    }
}

/// The observable life of the subprocess.
#[derive(Debug)]
pub enum Phase {
    /// No exit status has been observed yet.
    Running,
    /// An exit status has been observed; terminal.
    Exited,
}

/// A handle on one supervised chromedriver process: the fixed listening
/// port and the phase of its life.
#[derive(Debug)]
pub struct ChromeDriver {
    /// The port the driver was told to listen on; immutable after start.
    pub port: u16,
    /// Where in its life the process stands.
    pub phase: Phase,
}

/// The handle a successful `start` hands back: running, on `port`.
pub open spec fn spec_started(port: u16) -> ChromeDriver {
    ChromeDriver { port, phase: Phase::Running }
}

/// The handle after one exit-status observation: an observed exit is
/// terminal, and an already-exited process stays exited.
pub open spec fn spec_observe(d: ChromeDriver, exited: bool) -> ChromeDriver {
    if exited {
        ChromeDriver { port: d.port, phase: Phase::Exited }
    } else {
        d
    }
}

/// The handle after `kill`: the termination signal moves a running process
/// to `Exited`, and an exited one stays exited.
pub open spec fn spec_kill(d: ChromeDriver) -> ChromeDriver {
    ChromeDriver { port: d.port, phase: Phase::Exited }
}

/// The handle after teardown: killed if it was still running, untouched
/// otherwise.
pub open spec fn spec_teardown(d: ChromeDriver) -> ChromeDriver {
    if d.phase is Running {
        spec_kill(d)
    } else {
        d
    }
}

impl ChromeDriver {
    /// True while no exit status has been observed.
    pub open spec fn spec_alive(self) -> bool {
        self.phase is Running
    }

    /// The handle for a driver process that was just spawned successfully
    /// on `port`: alive until an exit is observed.
    pub fn new(port: u16) -> (d: ChromeDriver)
        ensures
            d == spec_started(port),
            d.spec_alive(),
    {
        ChromeDriver { port, phase: Phase::Running }
    }

    /// Records one non-blocking poll of the child's exit status, as the
    /// OS reported it. An observed exit is terminal.
    pub fn observe(&mut self, exited: bool)
        ensures
            *final(self) == spec_observe(*old(self), exited),
            final(self).port == old(self).port,
            final(self).spec_alive() == (old(self).spec_alive() && !exited),
    {
        if exited {
            self.phase = Phase::Exited;
        }
    }

    /// True if the process has exited: a pure observer, never a transition.
    pub fn has_exited(&self) -> (b: bool)
        ensures
            b == !self.spec_alive(),
    {
        match self.phase {
            Phase::Running => false,
            Phase::Exited => true,
        }
    }

    /// True while the process is running: a pure observer.
    pub fn is_alive(&self) -> (b: bool)
        ensures
            b == self.spec_alive(),
    {
        match self.phase {
            Phase::Running => true,
            Phase::Exited => false,
        }
    }

    /// Records that the termination signal was sent. Returns whether a
    /// signal was owed at all: killing an already-exited process is a
    /// no-op, never an error.
    pub fn kill(&mut self) -> (sent: bool)
        ensures
            *final(self) == spec_kill(*old(self)),
            sent == old(self).spec_alive(),
            !final(self).spec_alive(),
            final(self).port == old(self).port,
    {
        let sent = self.is_alive();
        self.phase = Phase::Exited;
        sent
    }

    /// The teardown decision for every discard path: the child must be
    /// killed exactly when it is still running.
    pub fn teardown_needs_kill(&self) -> (b: bool)
        ensures
            b == self.spec_alive(),
    {
        self.is_alive()
    }

    /// Runs the teardown decision on the handle itself: kill if still
    /// running. Returns whether a kill was performed.
    pub fn teardown(&mut self) -> (killed: bool)
        ensures
            *final(self) == spec_teardown(*old(self)),
            killed == old(self).spec_alive(),
            !final(self).spec_alive(),
    {
        if self.teardown_needs_kill() {
            self.kill();
            true
        } else {
            false
        }
    }
}

/// After a successful start the process is alive, and after `kill` (once
/// the exit it forces is taken into account) it is not.
pub proof fn lemma_start_alive_kill_dead(port: u16, d: ChromeDriver)
    ensures
        spec_started(port).spec_alive(),
        !spec_kill(d).spec_alive(),
{
}

/// No sequence of observations revives an exited process: `Exited` is
/// terminal under both observation and kill.
pub proof fn lemma_exited_is_terminal(d: ChromeDriver, exited: bool)
    ensures
        !d.spec_alive() ==> !spec_observe(d, exited).spec_alive(),
        !d.spec_alive() ==> !spec_kill(d).spec_alive(),
{
}

/// Discarding a supervisor leaves no running child, on every discard path:
/// after teardown the process is never alive, whether the child was still
/// running (it is killed) or had already exited (nothing is done).
pub proof fn lemma_teardown_leaves_nothing_running(d: ChromeDriver)
    ensures
        !spec_teardown(d).spec_alive(),
        d.spec_alive() ==> spec_teardown(d) == spec_kill(d),
        !d.spec_alive() ==> spec_teardown(d) == d,
{
}

} // verus!
