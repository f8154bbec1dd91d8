use vstd::prelude::*;

verus! {

/// What the process runner observed for one invocation.
#[derive(Debug)]
pub enum RunReport {
    /// The process could not be started (missing program, no permission, no shell).
    SpawnFailed { message: String },
    /// The process ran to its end.
    Exited { success: bool, code: Option<i32>, stdout: Vec<u8>, stderr: Vec<u8> },
    /// The deadline passed before the process ended; the runner ended it.
    DeadlineElapsed,
}

/// The terminal result of one invocation.
#[derive(Debug)]
pub enum Outcome {
    /// The process exited with success; its standard output, as captured.
    Success(Vec<u8>),
    /// The process exited with failure (remote command or SSH client); its
    /// standard error, as captured, and its exit code where there is one.
    RemoteFailure { stderr: Vec<u8>, code: Option<i32> },
    /// The process could not be started.
    SpawnFailure(String),
    /// The deadline passed first.
    TimedOut,
}

/// Exit code of a process-style interface: 0 on success, the remote exit code
/// (else 1) on failure, 127 when nothing could be started, 124 on a timeout.
pub open spec fn exit_code_of(o: Outcome) -> i32 {
    match o {
        Outcome::Success(_) => 0,
        Outcome::RemoteFailure { code, .. } => match code {
            Some(c) => if c != 0 { c } else { 1 },
            None => 1,
        },
        Outcome::SpawnFailure(_) => 127,
        Outcome::TimedOut => 124,
    }
}

/// The outcome that an observation stands for.
pub open spec fn outcome_of(report: RunReport) -> Outcome {
    match report {
        RunReport::SpawnFailed { message } => Outcome::SpawnFailure(message),
        RunReport::Exited { success, code, stdout, stderr } => if success {
            Outcome::Success(stdout)
        } else {
            Outcome::RemoteFailure { stderr, code }
        },
        RunReport::DeadlineElapsed => Outcome::TimedOut,
    }
}

/// Classifies what the runner observed. Output is carried as it was captured: a
/// process that ends with success gives exactly its standard output; a failed
/// start gives a spawn failure, never a timeout or a remote failure; a passed
/// deadline gives a timeout.
pub fn classify(report: RunReport) -> (o: Outcome)
    ensures
        o == outcome_of(report),
        report matches RunReport::Exited { success: true, stdout, .. } ==> o == Outcome::Success(
            stdout,
        ),
        report is SpawnFailed ==> o is SpawnFailure,
        report is DeadlineElapsed ==> o is TimedOut,
{
    match report {
        RunReport::SpawnFailed { message } => Outcome::SpawnFailure(message),
        RunReport::Exited { success, code, stdout, stderr } => {
            if success {
                Outcome::Success(stdout)
            } else {
                Outcome::RemoteFailure { stderr, code }
            }
        },
        RunReport::DeadlineElapsed => Outcome::TimedOut,
    }
}

impl Outcome {
    /// The exit code that a command-line front end reports for this outcome.
    pub fn exit_code(&self) -> (r: i32)
        ensures
            r == exit_code_of(*self),
    {
        match self {
            Outcome::Success(_) => 0,
            Outcome::RemoteFailure { code, .. } => match code {
                Some(c) => if *c != 0 {
                    *c
                } else {
                    1
                },
                None => 1,
            },
            Outcome::SpawnFailure(_) => 127,
            Outcome::TimedOut => 124,
        }
    }
}

} // verus!
