use vstd::prelude::*;
use crate::invocation::{
    build_ssh_command, invocation_for, platform_for, ClientKind, Invocation, InvocationModel,
};
use crate::outcome::{classify, outcome_of, Outcome, RunReport};

verus! {

/// One call: run `command` as `user` on `host`.
#[derive(Debug)]
pub struct SshRequest {
    pub user: String,
    pub host: String,
    pub command: String,
    /// The credential; `None` asks for it on the terminal. An empty one means
    /// key-based or passwordless authentication.
    pub password: Option<String>,
    /// Executable for the native platform; `None` takes the default one.
    pub ssh_exe: Option<String>,
    pub kind: ClientKind,
    /// Deadline in seconds for the process; `None` waits as long as it runs.
    pub timeout_secs: Option<u64>,
}

/// What the caller does next.
#[derive(Debug)]
pub enum Step {
    /// Show `message`, then read a hidden line from the terminal.
    Prompt { message: String },
    /// Start `invocation`, and wait for it at most `timeout_secs` seconds if given.
    Run { invocation: Invocation, timeout_secs: Option<u64> },
    /// The call is over.
    Finished(Outcome),
}

/// The prompt that asks for the password of `user@host`.
pub open spec fn prompt_text(user: Seq<char>, host: Seq<char>) -> Seq<char> {
    "\u{1f510} Enter SSH password for "@ + user + "@"@ + host + ": "@
}

/// The view of an optional string.
pub open spec fn opt_view(p: Option<String>) -> Option<Seq<char>> {
    match p {
        Some(s) => Some(s@),
        None => None,
    }
}

/// The invocation that a request calls for with a given credential.
pub open spec fn request_invocation(req: SshRequest, password: Seq<char>) -> InvocationModel {
    invocation_for(
        platform_for(req.kind, opt_view(req.ssh_exe)),
        req.user@,
        req.host@,
        req.command@,
        password,
    )
}

/// The step that runs the request with a given credential.
pub open spec fn is_run_with(s: Step, req: SshRequest, password: Seq<char>) -> bool {
    s matches Step::Run { invocation, timeout_secs } && invocation@ == request_invocation(
        req,
        password,
    ) && timeout_secs == req.timeout_secs
}

impl SshRequest {
    fn run_with(&self, password: &str) -> (s: Step)
        ensures
            is_run_with(s, *self, password@),
    {
        let invocation = match &self.ssh_exe {
            Some(p) => build_ssh_command(
                self.user.as_str(),
                self.host.as_str(),
                self.command.as_str(),
                password,
                Some(p.as_str()),
                self.kind,
            ),
            None => build_ssh_command(
                self.user.as_str(),
                self.host.as_str(),
                self.command.as_str(),
                password,
                None,
                self.kind,
            ),
        };
        Step::Run { invocation, timeout_secs: self.timeout_secs }
    }

    /// The first step: run at once with a supplied credential (an empty one
    /// included), else ask for one.
    pub fn first_step(&self) -> (s: Step)
        ensures
            match self.password {
                Some(p) => is_run_with(s, *self, p@),
                None => s matches Step::Prompt { message } && message@ == prompt_text(
                    self.user@,
                    self.host@,
                ),
            },
    {
        match &self.password {
            Some(p) => self.run_with(p.as_str()),
            None => {
                let mut message = String::from_str("\u{1f510} Enter SSH password for ");
                message.append(self.user.as_str());
                message.append("@");
                message.append(self.host.as_str());
                message.append(": ");
                Step::Prompt { message }
            },
        }
    }

    /// The step after the terminal gave `entered`: run with it.
    pub fn after_password(&self, entered: &str) -> (s: Step)
        ensures
            is_run_with(s, *self, entered@),
    {
        self.run_with(entered)
    }

    /// The step after the process was run: the call ends with its outcome.
    pub fn after_run(report: RunReport) -> (s: Step)
        ensures
            s matches Step::Finished(o) && o == outcome_of(report),
    {
        Step::Finished(classify(report))
    }
}

} // verus!
