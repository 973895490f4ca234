//! Lifecycle of the managed server process.
//!
//! [`ServerController`] keeps the state of the process and decides what is
//! to be done with it; it holds no process handle itself. The caller owns
//! the handle and the input pipe, keeps them behind the same lock as the
//! controller, carries out each action and reports the outcome.
use vstd::prelude::*;
use vstd::string::*;

use std::path::Path;

verus! {

/// Seconds to wait between the halves of a restart.
pub const RESTART_SETTLE_SECS: u64 = 2;

/// Name of the executable that is looked for in a server directory.
pub open spec fn executable_name() -> Seq<char> {
    "bedrock_server.exe"@
}

/// The console line that asks the server to shut down.
pub open spec fn shutdown_command() -> Seq<char> {
    "stop"@
}

/// Where the managed process stands.
#[derive(Clone, Copy, Debug, PartialEq, Eq, Structural)]
pub enum Lifecycle {
    /// No process was started yet.
    NotStarted,
    /// The process was spawned and its input pipe is open.
    Running,
    /// The process was stopped on request.
    Stopped,
}

/// Why an operation on the managed process failed.
#[derive(Clone, Copy, Debug, PartialEq, Eq, Structural)]
pub enum ControllerError {
    /// There is no open input pipe to write to.
    NotRunning,
    /// Writing to the input pipe failed.
    Io,
    /// The executable could not be launched.
    Spawn,
    /// The wait for the process to exit failed.
    Stop,
}

/// What `start` asks for.
#[derive(Clone, Copy, Debug, PartialEq, Eq, Structural)]
pub enum StartAction {
    /// The process runs already: nothing is spawned, the start counts as done.
    AlreadyRunning,
    /// Spawn the process as [`ServerController::launch_plan`] says and
    /// report with [`ServerController::spawn_finished`].
    Spawn,
}

/// What `stop` asks for.
#[derive(Debug, Clone, PartialEq, Eq)]
pub enum StopAction {
    /// There is no process: nothing is written and nothing is waited for.
    Nothing,
    /// Write `line` to the input pipe (a failure is noted, not an obstacle),
    /// wait for the process to exit, then release the pipe and the handle.
    Shutdown { line: String },
}

/// What a poll of the process handle found.
#[derive(Clone, Copy, Debug, PartialEq, Eq, Structural)]
pub enum PollOutcome {
    /// The process has not exited.
    Alive,
    /// The process has exited.
    Exited,
    /// The poll itself failed, or there is no handle to poll.
    Failed,
}

/// How the wait that follows a stop ended.
#[derive(Clone, Copy, Debug, PartialEq, Eq)]
pub enum WaitOutcome {
    /// There was no process to wait for.
    NoProcess,
    /// The process has exited; `code` is its exit code, where it has one.
    Exited { code: Option<i32> },
    /// The wait itself failed.
    Failed,
}

/// How to spawn the server: the executable and the directory to run it in.
#[derive(Debug, Clone, PartialEq, Eq)]
pub struct LaunchPlan {
    pub work_dir: String,
    pub exe_path: String,
}

/// What the first half of a restart asks for: the stop, and the pause to
/// make before the second half.
#[derive(Debug, Clone, PartialEq, Eq)]
pub struct RestartPlan {
    pub stop: StopAction,
    pub settle_secs: u64,
}

/// The state after a stop: a running process is stopped, any other state
/// stays.
pub open spec fn after_stop(state: Lifecycle) -> Lifecycle {
    match state {
        Lifecycle::Running => Lifecycle::Stopped,
        other => other,
    }
}

/// The state after an attempt to spawn: running when it succeeded, as
/// before when it failed.
pub open spec fn after_spawn(state: Lifecycle, launched: bool) -> Lifecycle {
    if launched {
        Lifecycle::Running
    } else {
        state
    }
}

/// The result of a stop, given how the wait for the process ended: a
/// failed wait is a failed stop, anything else is a stop that is done.
pub open spec fn stop_result(outcome: WaitOutcome) -> Result<(), ControllerError> {
    match outcome {
        WaitOutcome::Failed => Err(ControllerError::Stop),
        _ => Ok(()),
    }
}

/// The exit code that a wait brought.
pub open spec fn exit_of(outcome: WaitOutcome) -> Option<i32> {
    match outcome {
        WaitOutcome::Exited { code } => code,
        _ => None,
    }
}

/// The result of a restart, given how its two halves ended: the error of
/// the stop where the stop failed, the spawn error where the stop was done
/// and the process could not be launched, success where both were done.
pub open spec fn restart_result(outcome: WaitOutcome, launched: bool) -> Result<
    (),
    ControllerError,
> {
    match stop_result(outcome) {
        Err(e) => Err(e),
        Ok(_) => if launched {
            Ok(())
        } else {
            Err(ControllerError::Spawn)
        },
    }
}

/// What `start` asks for in a state.
pub open spec fn start_action(state: Lifecycle) -> StartAction {
    match state {
        Lifecycle::Running => StartAction::AlreadyRunning,
        _ => StartAction::Spawn,
    }
}

/// The line that carries a command to the server's console.
pub open spec fn command_line(cmd: Seq<char>) -> Seq<char> {
    cmd + "\n"@
}

/// The launch plan for a configured path, given what the path operations
/// of the platform returned: the path's parent directory, if it has one,
/// and the path joined with the executable's name.
///
/// A path that names a file is the executable itself and runs in its
/// parent directory, or in `.` where it has none. Any other path is taken
/// for the server directory, which holds the executable.
pub open spec fn launch_plan_of(
    path: Seq<char>,
    is_file: bool,
    parent: Option<Seq<char>>,
    joined: Seq<char>,
) -> (Seq<char>, Seq<char>) {
    if is_file {
        (
            match parent {
                Some(dir) => dir,
                None => "."@,
            },
            path,
        )
    } else {
        (path, joined)
    }
}

/// The text of an optional string.
pub open spec fn text_of(value: Option<String>) -> Option<Seq<char>> {
    match value {
        Some(text) => Some(text@),
        None => None,
    }
}

/// Whether `name` is a plain file name: not empty, not beginning with a
/// dot, and without a path separator or a drive colon.
pub open spec fn is_plain_name(name: Seq<char>) -> bool {
    &&& name.len() > 0
    &&& name[0] != '.'
    &&& forall|i: int|
        0 <= i < name.len() ==> (#[trigger] name[i]) != '/' && name[i] != '\\' && name[i] != ':'
}

/// Whether `text` begins with `head` and is longer than it.
pub open spec fn is_proper_prefix(head: Seq<char>, text: Seq<char>) -> bool {
    head.len() < text.len() && text.take(head.len() as int) == head
}

/// Whether `text` ends with `tail`.
pub open spec fn ends_with(text: Seq<char>, tail: Seq<char>) -> bool {
    text.len() >= tail.len() && text.skip(text.len() - tail.len()) == tail
}

/// `Path::parent` of the standard library, on a path given as text: the
/// path without its last component, or nothing where it ends in a root or
/// is empty. What counts as a component depends on the platform; a parent
/// that is returned is the beginning of the path, and shorter than it.
#[verifier::external_body]
fn parent_dir(path: &str) -> (r: Option<String>)
    ensures
        r matches Some(dir) ==> is_proper_prefix(dir@, path@),
{
    Path::new(path).parent().map(|dir| dir.to_string_lossy().into_owned())
}

/// `Path::join` of the standard library, on paths given as text: `dir`
/// extended by `name`, with the separator of the platform where one is
/// needed. A plain file name is appended as it is, so the result ends with
/// it.
#[verifier::external_body]
fn join_path(dir: &str, name: &str) -> (r: String)
    requires
        is_plain_name(name@),
    ensures
        ends_with(r@, name@),
{
    Path::new(dir).join(name).to_string_lossy().into_owned()
}

/// Puts a launch plan together from a configured path and the results of
/// the platform's path operations.
pub fn plan_launch(path: &str, is_file: bool, parent: Option<String>, joined: String) -> (r:
    LaunchPlan)
    ensures
        (r.work_dir@, r.exe_path@) == launch_plan_of(path@, is_file, text_of(parent), joined@),
{
    if is_file {
        let work_dir = match parent {
            Some(dir) => dir,
            None => String::from_str("."),
        };
        LaunchPlan { work_dir, exe_path: String::from_str(path) }
    } else {
        LaunchPlan { work_dir: String::from_str(path), exe_path: joined }
    }
}

/// Controller of the managed server process.
///
/// An exit status is on record only while the process is stopped: it is
/// recorded after a stop and dropped when the process is spawned again.
pub struct ServerController {
    server_path: String,
    state: Lifecycle,
    last_exit: Option<i32>,
}

impl ServerController {
    #[verifier::type_invariant]
    spec fn exit_known_only_when_stopped(&self) -> bool {
        self.last_exit is Some ==> self.state == Lifecycle::Stopped
    }

    /// The exit code that the process ended with at the last stop, where
    /// the wait for it gave one.
    pub closed spec fn exit_code(&self) -> Option<i32> {
        self.last_exit
    }

    /// The configured path: the executable or the directory that holds it.
    pub closed spec fn path(&self) -> Seq<char> {
        self.server_path@
    }

    /// Where the process stands.
    pub closed spec fn lifecycle(&self) -> Lifecycle {
        self.state
    }

    /// Whether the input pipe of the process is open: exactly while the
    /// process is running.
    pub open spec fn pipe_open(&self) -> bool {
        self.lifecycle() == Lifecycle::Running
    }

    /// A controller for the server at `server_path`; nothing is started.
    pub fn new(server_path: String) -> (r: Self)
        ensures
            r.path() == server_path@,
            r.lifecycle() == Lifecycle::NotStarted,
            r.exit_code() is None,
    {
        ServerController { server_path, state: Lifecycle::NotStarted, last_exit: None }
    }

    /// The exit code on record.
    pub fn last_exit(&self) -> (r: Option<i32>)
        ensures
            r == self.exit_code(),
            r is Some ==> self.lifecycle() == Lifecycle::Stopped,
    {
        proof {
            use_type_invariant(self);
        }
        self.last_exit
    }

    /// Where the process stands.
    pub fn state(&self) -> (r: Lifecycle)
        ensures
            r == self.lifecycle(),
    {
        self.state
    }

    /// The configured path.
    pub fn server_path(&self) -> (r: &str)
        ensures
            r@ == self.path(),
    {
        self.server_path.as_str()
    }

    /// Begins a start. While the process runs nothing is spawned and the
    /// start counts as done; otherwise the process is to be spawned.
    pub fn start(&self) -> (r: StartAction)
        ensures
            r == start_action(self.lifecycle()),
    {
        match self.state {
            Lifecycle::Running => StartAction::AlreadyRunning,
            _ => StartAction::Spawn,
        }
    }

    /// How to spawn the process. `path_is_file` says whether the configured
    /// path names an existing file.
    ///
    /// A file is the executable itself and runs in its parent directory,
    /// which the path begins with, or in `.` where it has none. Any other
    /// path is taken for the server directory: the process runs there, and
    /// the executable is the directory joined with the executable's name.
    pub fn launch_plan(&self, path_is_file: bool) -> (r: LaunchPlan)
        ensures
            path_is_file ==> r.exe_path@ == self.path() && (r.work_dir@ == "."@
                || is_proper_prefix(r.work_dir@, self.path())),
            !path_is_file ==> r.work_dir@ == self.path() && ends_with(
                r.exe_path@,
                executable_name(),
            ),
    {
        proof {
            lemma_executable_name_is_plain();
        }
        let parent = parent_dir(self.server_path.as_str());
        let joined = join_path(self.server_path.as_str(), "bedrock_server.exe");
        plan_launch(self.server_path.as_str(), path_is_file, parent, joined)
    }

    /// Ends a start: records whether the process was spawned with its input
    /// pipe. On success the process is running and no exit status is on
    /// record; on failure nothing changes and the spawn error is returned.
    pub fn spawn_finished(&mut self, launched: bool) -> (r: Result<(), ControllerError>)
        ensures
            final(self).lifecycle() == after_spawn(old(self).lifecycle(), launched),
            final(self).path() == old(self).path(),
            final(self).exit_code() == if launched {
                None
            } else {
                old(self).exit_code()
            },
            r == if launched {
                Ok::<(), ControllerError>(())
            } else {
                Err::<(), ControllerError>(ControllerError::Spawn)
            },
    {
        if launched {
            self.last_exit = None;
            self.state = Lifecycle::Running;
            Ok(())
        } else {
            Err(ControllerError::Spawn)
        }
    }

    /// The line to write to the input pipe for the console command `cmd`:
    /// the command, unchanged, and a line feed. Without an open pipe there
    /// is nothing to write and the command fails as not running.
    pub fn send_command(&self, cmd: &str) -> (r: Result<String, ControllerError>)
        ensures
            match r {
                Ok(line) => self.pipe_open() && line@ == command_line(cmd@),
                Err(e) => !self.pipe_open() && e == ControllerError::NotRunning,
            },
    {
        match self.state {
            Lifecycle::Running => {
                let mut line = String::from_str(cmd);
                line.append("\n");
                Ok(line)
            },
            _ => Err(ControllerError::NotRunning),
        }
    }

    /// The result of a command whose line was handed to the input pipe:
    /// done when it was written and flushed, an I/O error when not.
    pub fn write_finished(written: bool) -> (r: Result<(), ControllerError>)
        ensures
            r == if written {
                Ok::<(), ControllerError>(())
            } else {
                Err::<(), ControllerError>(ControllerError::Io)
            },
    {
        if written {
            Ok(())
        } else {
            Err(ControllerError::Io)
        }
    }

    /// Stops the process. A running process is sent the shutdown command
    /// and waited for, and counts as stopped from here on; in any other
    /// state there is no process to touch and nothing changes.
    pub fn stop(&mut self) -> (r: StopAction)
        ensures
            final(self).lifecycle() == after_stop(old(self).lifecycle()),
            final(self).path() == old(self).path(),
            final(self).exit_code() == old(self).exit_code(),
            match r {
                StopAction::Shutdown { line } => old(self).pipe_open() && line@ == command_line(
                    shutdown_command(),
                ),
                StopAction::Nothing => !old(self).pipe_open(),
            },
    {
        match self.send_command("stop") {
            Ok(line) => {
                self.state = Lifecycle::Stopped;
                StopAction::Shutdown { line }
            },
            Err(_) => StopAction::Nothing,
        }
    }

    /// Ends a stop: records how the wait for the process ended. A failed
    /// wait is reported as a failed stop. The exit code is kept while the
    /// process is stopped; in any other state there was no process to wait
    /// for and no code is recorded.
    pub fn stop_finished(&mut self, outcome: WaitOutcome) -> (r: Result<(), ControllerError>)
        ensures
            r == stop_result(outcome),
            final(self).lifecycle() == old(self).lifecycle(),
            final(self).path() == old(self).path(),
            final(self).exit_code() == if old(self).lifecycle() == Lifecycle::Stopped {
                exit_of(outcome)
            } else {
                old(self).exit_code()
            },
    {
        match self.state {
            Lifecycle::Stopped => {
                self.last_exit = match outcome {
                    WaitOutcome::Exited { code } => code,
                    _ => None,
                };
            },
            _ => {},
        }
        match outcome {
            WaitOutcome::Failed => Err(ControllerError::Stop),
            _ => Ok(()),
        }
    }

    /// Begins a restart with its first half, the stop. The controller is
    /// left as the stop leaves it. The caller carries out the stop and goes
    /// on with [`ServerController::resume_restart`].
    pub fn restart(&mut self) -> (r: RestartPlan)
        ensures
            final(self).lifecycle() == after_stop(old(self).lifecycle()),
            final(self).path() == old(self).path(),
            final(self).exit_code() == old(self).exit_code(),
            match r.stop {
                StopAction::Shutdown { line } => old(self).pipe_open() && line@ == command_line(
                    shutdown_command(),
                ),
                StopAction::Nothing => !old(self).pipe_open(),
            },
            r.settle_secs == RESTART_SETTLE_SECS,
    {
        let stop = self.stop();
        RestartPlan { stop, settle_secs: RESTART_SETTLE_SECS }
    }

    /// Goes on with a restart after its first half: records how the stop
    /// ended, as [`ServerController::stop_finished`] does. Where the stop
    /// failed the restart ends here with the error of the stop and nothing
    /// is started. Otherwise the second half is due after the pause: what
    /// `start` asks for, whose outcome
    /// [`ServerController::spawn_finished`] records and returns.
    pub fn resume_restart(&mut self, outcome: WaitOutcome) -> (r: Result<
        StartAction,
        ControllerError,
    >)
        ensures
            r == match stop_result(outcome) {
                Err(e) => Err::<StartAction, ControllerError>(e),
                Ok(_) => Ok::<StartAction, ControllerError>(start_action(old(self).lifecycle())),
            },
            final(self).lifecycle() == old(self).lifecycle(),
            final(self).path() == old(self).path(),
            final(self).exit_code() == if old(self).lifecycle() == Lifecycle::Stopped {
                exit_of(outcome)
            } else {
                old(self).exit_code()
            },
    {
        match self.stop_finished(outcome) {
            Ok(_) => Ok(self.start()),
            Err(e) => Err(e),
        }
    }

    /// Whether the process runs, given a fresh poll of its handle. The
    /// recorded state is not touched, whatever the poll found.
    pub fn is_running(&self, poll: PollOutcome) -> (r: bool)
        ensures
            r == (self.lifecycle() == Lifecycle::Running && poll == PollOutcome::Alive),
    {
        match self.state {
            Lifecycle::Running => match poll {
                PollOutcome::Alive => true,
                _ => false,
            },
            _ => false,
        }
    }
}

/// The name of the executable is a plain file name.
proof fn lemma_executable_name_is_plain()
    ensures
        is_plain_name(executable_name()),
        executable_name() == "bedrock_server.exe"@,
{
    reveal_strlit("bedrock_server.exe");
    let name = executable_name();
    assert(name.len() == 18);
    assert forall|i: int| 0 <= i < name.len() implies (#[trigger] name[i]) != '/' && name[i]
        != '\\' && name[i] != ':' by {
        assert(0 <= i < 18);
    }
}

/// A restart stops the server and starts it again, and hides the failure
/// of neither half. Whatever the state before, the stop leaves no running
/// process. Where the stop failed, the restart ends with the error of the
/// stop. Where it was done, the start that follows always spawns: the
/// server runs afterwards if that spawn succeeded, and is left as the stop
/// left it, with the spawn error, if not. The two errors differ, and the
/// restart succeeds only if both halves did. A running server therefore
/// goes to stopped and on to running, and stays stopped where it could not
/// be launched again.
pub proof fn lemma_restart_outcome(before: Lifecycle, outcome: WaitOutcome, launched: bool)
    ensures
        after_stop(before) != Lifecycle::Running,
        before == Lifecycle::Running ==> after_stop(before) == Lifecycle::Stopped,
        start_action(after_stop(before)) == StartAction::Spawn,
        after_spawn(after_stop(before), launched) == if launched {
            Lifecycle::Running
        } else {
            after_stop(before)
        },
        restart_result(outcome, launched) is Ok <==> stop_result(outcome) is Ok && launched,
        stop_result(outcome) is Err ==> restart_result(outcome, launched) == Err::<
            (),
            ControllerError,
        >(ControllerError::Stop),
        stop_result(outcome) is Ok && !launched ==> restart_result(outcome, launched) == Err::<
            (),
            ControllerError,
        >(ControllerError::Spawn),
        ControllerError::Stop != ControllerError::Spawn,
{
}

} // verus!
