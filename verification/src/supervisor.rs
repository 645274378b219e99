//! The launch decision logic and the per-process state machine.
//!
//! One `Supervisor` value accompanies one launch attempt from start to
//! finish. The caller checks that the entry script exists, attempts the
//! spawn, and reports each outcome here; the supervisor decides what the
//! caller gets back — the acknowledgment naming the process identifier,
//! or which error — and tracks the phase the launched process is in. The
//! filesystem probe and the spawn syscall themselves happen outside the
//! library; every decision about their outcomes is verified here.

use vstd::prelude::*;

use crate::drain::StreamTag;
use crate::messages::launch_message;
use crate::messages::spec_launch_message;
use crate::paths::entry_script_name;
use crate::paths::interpreter_name;
use crate::paths::resolve_backend_path;
use crate::paths::spec_backend_path;
use crate::paths::BuildMode;
use crate::paths::LaunchEnvironment;

verus! {

/// How a launch attempt starts the backend: the interpreter to invoke and
/// the entry script handed to it as its only argument. Built once per
/// attempt and never changed.
pub struct LaunchDescriptor {
    /// The interpreter's program name.
    pub program: String,
    /// The resolved path of the backend entry script.
    pub script_path: String,
}

/// Why a launch attempt failed. Each failure is reported once,
/// synchronously, to the caller; the application carries on without a
/// backend.
#[derive(Clone, Debug, PartialEq, Eq)]
pub enum LaunchError {
    /// The entry script was not at the resolved path; nothing was spawned.
    BackendNotFound {
        /// The path that was attempted.
        path: String,
    },
    /// The operating system refused to create the process.
    SpawnFailed {
        /// The operating system's description of the refusal.
        detail: String,
    },
    /// The child was created but one of its output pipes could not be
    /// obtained; this launch attempt is abandoned.
    StreamCaptureFailed {
        /// The stream whose pipe was missing.
        stream: StreamTag,
    },
}

/// The message a launch error carries to the log.
pub open spec fn spec_error_message(e: LaunchError) -> Seq<char> {
    match e {
        LaunchError::BackendNotFound { path } => "Python script not found at: "@ + path@,
        LaunchError::SpawnFailed { detail } => "Failed to spawn python process: "@ + detail@,
        LaunchError::StreamCaptureFailed { stream } => match stream {
            StreamTag::Stdout => "Failed to capture stdout"@,
            StreamTag::Stderr => "Failed to capture stderr"@,
        },
    }
}

impl LaunchError {
    /// Describes the failure for the log.
    pub fn message(&self) -> (r: String)
        ensures
            r@ == spec_error_message(*self),
    {
        match self {
            LaunchError::BackendNotFound { path } => {
                let mut r = "Python script not found at: ".to_owned();
                r.append(path.as_str());
                r
            },
            LaunchError::SpawnFailed { detail } => {
                let mut r = "Failed to spawn python process: ".to_owned();
                r.append(detail.as_str());
                r
            },
            LaunchError::StreamCaptureFailed { stream } => match stream {
                StreamTag::Stdout => "Failed to capture stdout".to_owned(),
                StreamTag::Stderr => "Failed to capture stderr".to_owned(),
            },
        }
    }
}

/// What the spawn attempt came back with. The caller reports it verbatim;
/// the supervisor decides what it means.
pub enum SpawnOutcome {
    /// The operating system created the process.
    Spawned {
        /// The child's process identifier, if the platform supplied one.
        pid: Option<u64>,
        /// A pipe for the child's standard output was obtained.
        stdout_captured: bool,
        /// A pipe for the child's standard error was obtained.
        stderr_captured: bool,
    },
    /// The operating system refused to create the process.
    Refused {
        /// The operating system's description of the refusal.
        detail: String,
    },
}

/// Where a launched process is in its life. `Running` covers "process
/// alive, pipes handed to the drain task"; the drain task's own progress
/// is tracked by [`crate::drain::DrainTask`].
#[derive(Clone, Copy, Debug, PartialEq, Eq, Structural)]
pub enum Phase {
    /// Nothing has happened yet.
    NotStarted,
    /// The entry script was found; the spawn is being attempted.
    Spawning,
    /// The process is alive and its pipes are being drained.
    Running,
    /// Both pipes have closed; the exit wait is in progress.
    Draining,
    /// The process's exit has been observed. Terminal.
    Exited,
    /// The launch attempt failed. Terminal: there is no retry.
    Failed,
}

/// The launch state machine's edges: every step a supervisor can take.
/// `Failed` and `Exited` have no outgoing edge — a failed launch is
/// reported once and never retried, and an exited process is done.
pub open spec fn phase_step(pre: Phase, post: Phase) -> bool {
    match (pre, post) {
        (Phase::NotStarted, Phase::Spawning) => true,
        (Phase::NotStarted, Phase::Failed) => true,
        (Phase::Spawning, Phase::Running) => true,
        (Phase::Spawning, Phase::Failed) => true,
        (Phase::Running, Phase::Draining) => true,
        (Phase::Draining, Phase::Exited) => true,
        _ => false,
    }
}

/// A failed launch is terminal: no step leaves `Failed`, so in particular
/// a launch that found no entry script never reaches `Spawning`, and no
/// process is ever created for it.
pub proof fn lemma_failed_is_terminal(post: Phase)
    ensures
        !phase_step(Phase::Failed, post),
{
}

/// An exited process is done: no step leaves `Exited`.
pub proof fn lemma_exited_is_terminal(post: Phase)
    ensures
        !phase_step(Phase::Exited, post),
{
}

/// Termination is entirely reactive: the only step out of the exit wait
/// is the process's own exit. The supervisor has no edge that kills the
/// child, times the wait out, or abandons it.
pub proof fn lemma_exit_wait_only_observes(post: Phase)
    ensures
        phase_step(Phase::Draining, post) ==> post == Phase::Exited,
{
}

/// One launch attempt's supervisor: its immutable descriptor and the
/// phase the launched process is in. Every method steps the phase along
/// an edge of [`phase_step`] and never touches the descriptor.
pub struct Supervisor {
    /// How the backend is to be started.
    pub descriptor: LaunchDescriptor,
    /// Where the launched process is in its life.
    pub phase: Phase,
}

impl LaunchDescriptor {
    /// The descriptor for a backend launch under `env` in the given build
    /// mode: the interpreter invoking the entry script resolved for that
    /// mode, with no further arguments.
    pub fn for_environment(mode: BuildMode, env: &LaunchEnvironment) -> (d: LaunchDescriptor)
        ensures
            d.program@ == "python3"@,
            d.script_path@ == spec_backend_path(
                mode,
                env.current_dir@,
                env.resource_dir@,
                "flask_api.py"@,
            ),
    {
        let entry = entry_script_name();
        let script_path = resolve_backend_path(mode, env, entry);
        LaunchDescriptor { program: interpreter_name().to_owned(), script_path }
    }
}

impl Supervisor {
    /// A supervisor for one fresh launch attempt.
    pub fn new(descriptor: LaunchDescriptor) -> (s: Supervisor)
        ensures
            s.phase == Phase::NotStarted,
            s.descriptor == descriptor,
    {
        Supervisor { descriptor, phase: Phase::NotStarted }
    }

    /// Decides the precondition check: the caller reports whether the
    /// entry script exists at the descriptor's path. If it does, the
    /// spawn may proceed; if not, the attempt fails with
    /// `BackendNotFound` carrying the attempted path, and the caller
    /// must not spawn anything.
    pub fn check_script(&mut self, exists: bool) -> (r: Result<(), LaunchError>)
        requires
            old(self).phase == Phase::NotStarted,
        ensures
            final(self).descriptor == old(self).descriptor,
            phase_step(old(self).phase, final(self).phase),
            exists ==> r is Ok && final(self).phase == Phase::Spawning,
            !exists ==> final(self).phase == Phase::Failed && (r matches Err(
                LaunchError::BackendNotFound { path },
            ) && path@ == old(self).descriptor.script_path@),
    {
        if exists {
            self.phase = Phase::Spawning;
            Ok(())
        } else {
            self.phase = Phase::Failed;
            Err(LaunchError::BackendNotFound { path: self.descriptor.script_path.clone() })
        }
    }

    /// Decides the spawn's outcome. A refusal by the operating system
    /// fails the attempt with `SpawnFailed`; a created process whose
    /// standard-output or standard-error pipe is missing fails it with
    /// `StreamCaptureFailed` for that stream (standard output is checked
    /// first); otherwise the process is running and the caller receives,
    /// at once and without waiting for the process to finish, the
    /// acknowledgment naming the process identifier.
    pub fn record_spawn(&mut self, outcome: SpawnOutcome) -> (r: Result<String, LaunchError>)
        requires
            old(self).phase == Phase::Spawning,
        ensures
            final(self).descriptor == old(self).descriptor,
            phase_step(old(self).phase, final(self).phase),
            (match outcome {
                SpawnOutcome::Refused { detail } => final(self).phase == Phase::Failed && (
                r matches Err(LaunchError::SpawnFailed { detail: d }) && d@ == detail@),
                SpawnOutcome::Spawned { pid, stdout_captured, stderr_captured } => {
                    if !stdout_captured {
                        final(self).phase == Phase::Failed && r == Err::<String, LaunchError>(
                            LaunchError::StreamCaptureFailed { stream: StreamTag::Stdout },
                        )
                    } else if !stderr_captured {
                        final(self).phase == Phase::Failed && r == Err::<String, LaunchError>(
                            LaunchError::StreamCaptureFailed { stream: StreamTag::Stderr },
                        )
                    } else {
                        final(self).phase == Phase::Running && (r matches Ok(m) && m@
                            == spec_launch_message(pid) && m@.len() > 0)
                    }
                },
            }),
    {
        match outcome {
            SpawnOutcome::Refused { detail } => {
                self.phase = Phase::Failed;
                Err(LaunchError::SpawnFailed { detail })
            },
            SpawnOutcome::Spawned { pid, stdout_captured, stderr_captured } => {
                if !stdout_captured {
                    self.phase = Phase::Failed;
                    Err(LaunchError::StreamCaptureFailed { stream: StreamTag::Stdout })
                } else if !stderr_captured {
                    self.phase = Phase::Failed;
                    Err(LaunchError::StreamCaptureFailed { stream: StreamTag::Stderr })
                } else {
                    self.phase = Phase::Running;
                    Ok(launch_message(pid))
                }
            },
        }
    }

    /// Records that both output pipes have closed and the exit wait has
    /// begun.
    pub fn begin_exit_wait(&mut self)
        requires
            old(self).phase == Phase::Running,
        ensures
            final(self).descriptor == old(self).descriptor,
            phase_step(old(self).phase, final(self).phase),
            final(self).phase == Phase::Draining,
    {
        self.phase = Phase::Draining;
    }

    /// Records that the wait for the process's exit returned. The exit
    /// status is logged by the caller and not kept: nothing downstream is
    /// told how the backend ended.
    pub fn record_exit(&mut self)
        requires
            old(self).phase == Phase::Draining,
        ensures
            final(self).descriptor == old(self).descriptor,
            phase_step(old(self).phase, final(self).phase),
            final(self).phase == Phase::Exited,
    {
        self.phase = Phase::Exited;
    }
}

} // verus!
