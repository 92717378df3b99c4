//! The runner: one browser process and its life from idle over running to
//! stopped.
//!
//! A runner never handles the process itself. Once the profile has been
//! prepared, `start` hands out the command to spawn; the caller spawns it and
//! reports the outcome with `spawned`. `stop` says whether there is a process
//! to kill; the caller kills it and reports the outcome with `killed`, and
//! only where that allows it waits for the process and reports the outcome
//! with `reaped`.

use crate::command::{
    enabled, env_value, fixed_args, fixed_envs, lemma_fixed_args_last, lemma_fixed_envs_in_force,
    marionette_flag, no_remote_var, no_restart_var, profile_flag, text_args, ArgView, Invocation,
    InvocationView, Stdio,
};
pub use crate::error::RunnerError;
use crate::profile::{directory, obtain, profile_dir, Prepared};
use mozprofile::profile::Profile;
use std::path::PathBuf;
use vstd::prelude::*;

verus! {

/// How a process ended.
#[derive(Debug, Clone, Copy, PartialEq, Eq, Structural)]
pub enum ExitStatus {
    /// It exited with this code.
    Exited(i32),
    /// It was ended by this signal.
    Signaled(i32),
    /// The operating system gave neither a code nor a signal.
    Unknown,
}

impl ExitStatus {
    /// What an exit code and a signal number, as the operating system
    /// reports them, say together.
    pub open spec fn of(code: Option<i32>, signal: Option<i32>) -> ExitStatus {
        match (code, signal) {
            (Some(code), _) => ExitStatus::Exited(code),
            (None, Some(signal)) => ExitStatus::Signaled(signal),
            (None, None) => ExitStatus::Unknown,
        }
    }

    /// The status of a process from what the operating system reports: the
    /// exit code where there is one, else the signal that ended the process.
    pub fn from_raw(code: Option<i32>, signal: Option<i32>) -> (status: ExitStatus)
        ensures
            status == ExitStatus::of(code, signal),
    {
        match code {
            Some(code) => ExitStatus::Exited(code),
            None => match signal {
                Some(signal) => ExitStatus::Signaled(signal),
                None => ExitStatus::Unknown,
            },
        }
    }
}

/// Where a runner stands.
pub enum Phase {
    /// No process was started yet.
    Idle,
    /// A process was started and has not been seen to end.
    Running,
    /// The process has ended with this status.
    Stopped(ExitStatus),
}

/// What a caller who wants the process gone has to do.
#[derive(Debug, Clone, Copy, PartialEq, Eq, Structural)]
pub enum StopAction {
    /// Kill the process and report the outcome with `killed`. Where that
    /// returns `Ok`, wait for the process and report the outcome with
    /// `reaped`; where it returns the failure, do not wait.
    Kill,
    /// Nothing: no process is running, and this is the last known exit
    /// status, if there is one.
    Done(Option<ExitStatus>),
}

/// The exit status that a phase carries.
pub open spec fn phase_status(phase: Phase) -> Option<ExitStatus> {
    match phase {
        Phase::Stopped(status) => Some(status),
        _ => None,
    }
}

/// How a stop goes on after the kill: with the wait where the kill
/// succeeded, and else not at all, the failure of the kill being that of the
/// stop.
pub open spec fn killed_result(outcome: Result<(), std::io::Error>) -> Result<(), RunnerError> {
    match outcome {
        Ok(()) => Ok(()),
        Err(e) => Err(RunnerError::Io(e)),
    }
}

/// What every runner offers, whichever application it runs.
pub trait Runner {
    /// The handle of a spawned process.
    type Process;

    /// Where the runner stands.
    spec fn phase(&self) -> Phase;

    /// Hands out the command to spawn, in exchange for the proof that the
    /// profile has been prepared. The runner stays idle until the outcome of
    /// the spawn is reported.
    fn start(&mut self, prepared: Prepared) -> (launch: Invocation)
        requires
            old(self).phase() is Idle,
        ensures
            final(self).phase() is Idle,
    ;

    /// Takes the outcome of the spawn: with a handle the runner is running;
    /// with a failure it stays idle and reports the failure.
    fn spawned(&mut self, outcome: Result<Self::Process, std::io::Error>) -> (started: Result<
        (),
        RunnerError,
    >)
        requires
            old(self).phase() is Idle,
        ensures
            match outcome {
                Ok(_) => started is Ok && final(self).phase() is Running,
                Err(e) => final(self).phase() is Idle && started == Err::<(), RunnerError>(
                    RunnerError::Io(e),
                ),
            },
    ;

    /// Adds the runner's arguments, environment and streams to a command.
    /// The program stays, and what the command already held stays in front.
    fn build_command(&self, command: &mut Invocation)
        ensures
            final(command)@.program == old(command)@.program,
            old(command)@.args.is_prefix_of(final(command)@.args),
            old(command)@.envs.is_prefix_of(final(command)@.envs),
    ;

    /// Whether a process was started and has not been seen to end.
    fn is_running(&self) -> (running: bool)
        ensures
            running == (self.phase() is Running),
    ;

    /// Says what stopping takes: a kill if a process is running, and else
    /// nothing, with the last known exit status.
    fn stop(&self) -> (action: StopAction)
        ensures
            action == (if self.phase() is Running {
                StopAction::Kill
            } else {
                StopAction::Done(phase_status(self.phase()))
            }),
    ;

    /// Takes the outcome of the kill and says how the stop goes on: after a
    /// kill that succeeded the process is waited for; after one that failed
    /// the stop has failed with that failure, and there is no wait.
    fn killed(&self, outcome: Result<(), std::io::Error>) -> (next: Result<(), RunnerError>)
        ensures
            next == killed_result(outcome),
    ;

    /// Takes the outcome of waiting for the killed process. While a process
    /// is running, a status stops the runner and a failure leaves it
    /// running. Without a running process nothing changes and the last known
    /// status is returned.
    fn reaped(&mut self, outcome: Result<ExitStatus, std::io::Error>) -> (stopped: Result<
        Option<ExitStatus>,
        RunnerError,
    >)
        ensures
            old(self).phase() is Running ==> match outcome {
                Ok(status) => final(self).phase() == Phase::Stopped(status) && stopped == Ok::<
                    Option<ExitStatus>,
                    RunnerError,
                >(Some(status)),
                Err(e) => final(self).phase() is Running && stopped == Err::<
                    Option<ExitStatus>,
                    RunnerError,
                >(RunnerError::Io(e)),
            },
            !(old(self).phase() is Running) ==> final(self).phase() == old(self).phase()
                && stopped == Ok::<Option<ExitStatus>, RunnerError>(phase_status(old(self).phase())),
    ;
}

/// A runner for Firefox. `H` is the handle of the spawned process, which the
/// runner owns from the spawn until the process has been reaped.
pub struct FirefoxRunner<H> {
    /// The executable.
    pub binary: PathBuf,
    /// Extra arguments, in the order in which the browser is to see them.
    pub args: Vec<String>,
    /// The running process, if there is one.
    pub process: Option<H>,
    /// The status with which the process ended, once it has.
    pub ret_code: Option<ExitStatus>,
    /// The profile that the browser runs on.
    pub profile: Profile,
}

impl<H> FirefoxRunner<H> {
    /// Whether no process was started yet.
    pub open spec fn idle(&self) -> bool {
        self.process is None && self.ret_code is None
    }

    /// Whether a process was started and has not been seen to end.
    pub open spec fn running(&self) -> bool {
        self.process is Some && self.ret_code is None
    }

    /// What `build_command` makes of a command.
    pub open spec fn built(&self, before: InvocationView) -> InvocationView {
        InvocationView {
            program: before.program,
            args: before.args + text_args(self.args@) + fixed_args(profile_dir(self.profile)),
            envs: before.envs + fixed_envs(),
            stdout: Stdio::Inherit,
            stderr: Stdio::Inherit,
        }
    }

    /// The command that `start` hands out.
    pub open spec fn launch(&self) -> InvocationView {
        InvocationView {
            program: self.binary,
            args: text_args(self.args@) + fixed_args(profile_dir(self.profile)),
            envs: fixed_envs(),
            stdout: Stdio::Inherit,
            stderr: Stdio::Inherit,
        }
    }

    /// The runner after `spawned`.
    pub open spec fn after_spawned(self, outcome: Result<H, std::io::Error>) -> Self {
        match outcome {
            Ok(handle) => FirefoxRunner { process: Some(handle), ..self },
            Err(_) => self,
        }
    }

    /// What `spawned` returns.
    pub open spec fn spawned_result(outcome: Result<H, std::io::Error>) -> Result<
        (),
        RunnerError,
    > {
        match outcome {
            Ok(_) => Ok(()),
            Err(e) => Err(RunnerError::Io(e)),
        }
    }

    /// What `stop` returns.
    pub open spec fn stop_action(&self) -> StopAction {
        if self.running() {
            StopAction::Kill
        } else {
            StopAction::Done(self.ret_code)
        }
    }

    /// The runner after `reaped`.
    pub open spec fn after_reaped(self, outcome: Result<ExitStatus, std::io::Error>) -> Self {
        match outcome {
            Ok(status) if self.running() => FirefoxRunner {
                process: None,
                ret_code: Some(status),
                ..self
            },
            _ => self,
        }
    }

    /// What `reaped` returns.
    pub open spec fn reaped_result(&self, outcome: Result<ExitStatus, std::io::Error>) -> Result<
        Option<ExitStatus>,
        RunnerError,
    > {
        if self.running() {
            match outcome {
                Ok(status) => Ok(Some(status)),
                Err(e) => Err(RunnerError::Io(e)),
            }
        } else {
            Ok(self.ret_code)
        }
    }

    /// An idle runner for `binary` with no extra arguments, on the given
    /// profile or, where none is given, on a new one in a fresh temporary
    /// directory.
    ///
    /// With a profile this cannot fail. Without one it fails exactly when
    /// the new profile cannot be created.
    pub fn new(binary: PathBuf, profile: Option<Profile>) -> (made: Result<
        FirefoxRunner<H>,
        RunnerError,
    >)
        ensures
            profile matches Some(given) ==> made matches Ok(runner) && runner.profile == given,
            made matches Ok(runner) ==> runner.binary == binary && runner.args@
                == Seq::<String>::empty() && runner.idle(),
            made matches Err(e) ==> profile is None && e is Profile,
    {
        match obtain(profile) {
            Ok(prof) => Ok(
                FirefoxRunner {
                    binary,
                    args: Vec::new(),
                    process: None,
                    ret_code: None,
                    profile: prof,
                },
            ),
            Err(e) => Err(e),
        }
    }
}

impl<H> Runner for FirefoxRunner<H> {
    type Process = H;

    open spec fn phase(&self) -> Phase {
        match self.ret_code {
            Some(status) => Phase::Stopped(status),
            None => if self.process is Some {
                Phase::Running
            } else {
                Phase::Idle
            },
        }
    }

    /// Hands out the runner's launch command and changes nothing.
    fn start(&mut self, prepared: Prepared) -> (launch: Invocation)
        ensures
            *final(self) == *old(self),
            launch@ == old(self).launch(),
    {
        let mut command = Invocation::new(self.binary.clone());
        self.build_command(&mut command);
        assert(command@.args =~= old(self).launch().args);
        assert(command@.envs =~= old(self).launch().envs);
        command
    }

    fn spawned(&mut self, outcome: Result<H, std::io::Error>) -> (started: Result<(), RunnerError>)
        ensures
            *final(self) == old(self).after_spawned(outcome),
            started == Self::spawned_result(outcome),
    {
        match outcome {
            Ok(handle) => {
                self.process = Some(handle);
                Ok(())
            },
            Err(e) => Err(RunnerError::from(e)),
        }
    }

    /// Adds, behind what the command holds: the extra arguments in their
    /// order, the remote-control flag, the profile flag and the profile's
    /// directory; the two fixed bindings of the environment; and makes the
    /// child inherit both output streams.
    fn build_command(&self, command: &mut Invocation)
        ensures
            final(command)@ == self.built(old(command)@),
    {
        command.args(&self.args);
        command.arg("--marionette");
        command.arg("--profile");
        command.arg_path(directory(&self.profile));
        command.stdout(Stdio::Inherit);
        command.stderr(Stdio::Inherit);
        command.env("MOZ_NO_REMOTE", "1");
        command.env("NO_EM_RESTART", "1");
        assert(command@.args =~= self.built(old(command)@).args);
        assert(command@.envs =~= self.built(old(command)@).envs);
    }

    fn is_running(&self) -> (running: bool)
        ensures
            running == self.running(),
    {
        self.process.is_some() && self.ret_code.is_none()
    }

    fn stop(&self) -> (action: StopAction)
        ensures
            action == self.stop_action(),
    {
        if self.is_running() {
            StopAction::Kill
        } else {
            StopAction::Done(self.ret_code)
        }
    }

    fn killed(&self, outcome: Result<(), std::io::Error>) -> (next: Result<(), RunnerError>) {
        match outcome {
            Ok(()) => Ok(()),
            Err(e) => Err(RunnerError::from(e)),
        }
    }

    fn reaped(&mut self, outcome: Result<ExitStatus, std::io::Error>) -> (stopped: Result<
        Option<ExitStatus>,
        RunnerError,
    >)
        ensures
            *final(self) == old(self).after_reaped(outcome),
            stopped == old(self).reaped_result(outcome),
    {
        if self.is_running() {
            match outcome {
                Ok(status) => {
                    self.process = None;
                    self.ret_code = Some(status);
                    Ok(Some(status))
                },
                Err(e) => Err(RunnerError::from(e)),
            }
        } else {
            Ok(self.ret_code)
        }
    }
}

/// Whatever extra arguments a runner carries and whatever a command held
/// before, the command that the runner builds ends with the remote-control
/// flag, the profile flag and the profile's directory; the extra arguments
/// stand directly before these, in their order; and both fixed variables are
/// bound to the enabled value. The same holds of the command that `start`
/// hands out.
pub proof fn lemma_built_command<H>(runner: FirefoxRunner<H>, before: InvocationView)
    ensures
        ({
            let args = runner.built(before).args;
            let extra = runner.args@;
            &&& args.len() == before.args.len() + extra.len() + 3
            &&& args[args.len() - 3] == ArgView::Text(marionette_flag())
            &&& args[args.len() - 2] == ArgView::Text(profile_flag())
            &&& args[args.len() - 1] == ArgView::Path(profile_dir(runner.profile))
            &&& forall|i: int|
                0 <= i < extra.len() ==> #[trigger] args[before.args.len() + i] == ArgView::Text(
                    extra[i]@,
                )
        }),
        env_value(runner.built(before).envs, no_remote_var()) == Some(enabled()),
        env_value(runner.built(before).envs, no_restart_var()) == Some(enabled()),
        runner.launch() == runner.built(
            InvocationView {
                program: runner.binary,
                args: Seq::empty(),
                envs: Seq::empty(),
                stdout: Stdio::Unset,
                stderr: Stdio::Unset,
            },
        ),
{
    lemma_fixed_args_last(before.args, runner.args@, profile_dir(runner.profile));
    lemma_fixed_envs_in_force(before.envs);
    assert(Seq::<ArgView>::empty() + text_args(runner.args@) =~= text_args(runner.args@));
    assert(Seq::<(Seq<char>, Seq<char>)>::empty() + fixed_envs() =~= fixed_envs());
}

/// A runner that was never started is not running, and stopping it does
/// nothing and yields no exit status.
pub proof fn lemma_never_started<H>(
    runner: FirefoxRunner<H>,
    outcome: Result<ExitStatus, std::io::Error>,
)
    requires
        runner.idle(),
    ensures
        !runner.running(),
        runner.stop_action() == StopAction::Done(None),
        runner.after_reaped(outcome) == runner,
        runner.reaped_result(outcome) == Ok::<Option<ExitStatus>, RunnerError>(None),
{
}

/// Once a spawn has been reported to an idle runner it is running, and it
/// stays so through every failed attempt to stop it: a kill that failed ends
/// the attempt with that failure before any wait, and a wait that failed
/// leaves the runner as it was. The first attempt that succeeds leaves it not
/// running, without a handle and with the exit status that was reported.
pub proof fn lemma_running_until_stopped<H>(
    runner: FirefoxRunner<H>,
    handle: H,
    failure: std::io::Error,
    status: ExitStatus,
)
    requires
        runner.idle(),
    ensures
        runner.after_spawned(Ok(handle)).running(),
        runner.after_spawned(Ok(handle)).stop_action() == StopAction::Kill,
        killed_result(Err(failure)) == Err::<(), RunnerError>(RunnerError::Io(failure)),
        killed_result(Ok(())) is Ok,
        runner.after_spawned(Ok(handle)).after_reaped(Err(failure)) == runner.after_spawned(
            Ok(handle),
        ),
        runner.after_spawned(Ok(handle)).reaped_result(Err(failure)) == Err::<
            Option<ExitStatus>,
            RunnerError,
        >(RunnerError::Io(failure)),
        !runner.after_spawned(Ok(handle)).after_reaped(Ok(status)).running(),
        runner.after_spawned(Ok(handle)).after_reaped(Ok(status)).process is None,
        runner.after_spawned(Ok(handle)).after_reaped(Ok(status)).ret_code == Some(status),
{
}

/// A spawn that failed leaves an idle runner idle, so that a start can be
/// tried again.
pub proof fn lemma_failed_spawn_stays_idle<H>(runner: FirefoxRunner<H>, failure: std::io::Error)
    requires
        runner.idle(),
    ensures
        runner.after_spawned(Err(failure)) == runner,
        FirefoxRunner::<H>::spawned_result(Err(failure)) == Err::<(), RunnerError>(
            RunnerError::Io(failure),
        ),
{
}

/// Stopping twice in a row yields the same exit status both times: after a
/// running process has been reaped, a second stop asks for nothing, reports
/// the same status without an error, and changes nothing.
pub proof fn lemma_stop_twice<H>(
    runner: FirefoxRunner<H>,
    status: ExitStatus,
    again: Result<ExitStatus, std::io::Error>,
)
    requires
        runner.running(),
    ensures
        runner.stop_action() == StopAction::Kill,
        runner.reaped_result(Ok(status)) == Ok::<Option<ExitStatus>, RunnerError>(Some(status)),
        runner.after_reaped(Ok(status)).stop_action() == StopAction::Done(Some(status)),
        runner.after_reaped(Ok(status)).reaped_result(again) == Ok::<
            Option<ExitStatus>,
            RunnerError,
        >(Some(status)),
        runner.after_reaped(Ok(status)).after_reaped(again) == runner.after_reaped(Ok(status)),
{
}

/// A runner is running exactly when it holds a process and no exit status,
/// and idle exactly when it holds neither; it is never both.
pub proof fn lemma_phase_of_fields<H>(runner: FirefoxRunner<H>)
    ensures
        runner.running() <==> runner.phase() is Running,
        runner.idle() <==> runner.phase() is Idle,
        !(runner.running() && runner.idle()),
{
}

} // verus!
