use vstd::prelude::*;

verus! {

/// Executable used on the native-client platform when the caller names none.
pub const DEFAULT_WINDOWS_SSH_EXE: &'static str = "C:\\Windows\\System32\\OpenSSH\\ssh.exe";

/// The two ways a host exposes an SSH client.
#[derive(Clone, Copy, Debug, PartialEq, Eq, Structural)]
pub enum ClientKind {
    /// An OpenSSH executable run directly with an argument list.
    Native,
    /// `ssh` (or `sshpass`) run through `sh -c`.
    Shell,
}

/// A platform profile: the client kind, with the executable path where it needs one.
#[derive(Debug)]
pub enum Platform {
    Native { exe: String },
    Shell,
}

/// Mathematical model of a `Platform`.
pub enum PlatformModel {
    Native { exe: Seq<char> },
    Shell,
}

impl View for Platform {
    type V = PlatformModel;

    open spec fn view(&self) -> PlatformModel {
        match self {
            Platform::Native { exe } => PlatformModel::Native { exe: exe@ },
            Platform::Shell => PlatformModel::Shell,
        }
    }
}

/// A ready-to-run process: the program and its arguments.
#[derive(Debug)]
pub struct Invocation {
    pub program: String,
    pub args: Vec<String>,
}

/// Mathematical model of an `Invocation`.
pub struct InvocationModel {
    pub program: Seq<char>,
    pub args: Seq<Seq<char>>,
}

impl View for Invocation {
    type V = InvocationModel;

    open spec fn view(&self) -> InvocationModel {
        InvocationModel { program: self.program@, args: self.args@.map_values(|a: String| a@) }
    }
}

/// The platform profile for a client kind: on the native platform the caller's
/// executable path, else the default one.
pub open spec fn platform_for(kind: ClientKind, ssh_exe: Option<Seq<char>>) -> PlatformModel {
    match kind {
        ClientKind::Native => PlatformModel::Native {
            exe: match ssh_exe {
                Some(p) => p,
                None => DEFAULT_WINDOWS_SSH_EXE@,
            },
        },
        ClientKind::Shell => PlatformModel::Shell,
    }
}

/// The view of an optional path.
pub open spec fn path_view(p: Option<&str>) -> Option<Seq<char>> {
    match p {
        Some(s) => Some(s@),
        None => None,
    }
}

/// `user@host`.
pub open spec fn destination(user: Seq<char>, host: Seq<char>) -> Seq<char> {
    user + "@"@ + host
}

/// Script run by the shell when no password is given. Host-key checking is
/// switched off on purpose: the library serves automation against trusted hosts.
/// The command is put between single quotes as it is, without escaping.
pub open spec fn ssh_script(user: Seq<char>, host: Seq<char>, command: Seq<char>) -> Seq<char> {
    "ssh -o StrictHostKeyChecking=no "@ + destination(user, host) + " '"@ + command + "'"@
}

/// Script run by the shell when a password is given: `sshpass` feeds it to `ssh`.
/// The password is put between single quotes as it is, without escaping.
pub open spec fn sshpass_script(
    user: Seq<char>,
    host: Seq<char>,
    command: Seq<char>,
    password: Seq<char>,
) -> Seq<char> {
    "sshpass -p '"@ + password + "' "@ + ssh_script(user, host, command)
}

/// The invocation that a platform, a target, a command and a credential call for.
pub open spec fn invocation_for(
    platform: PlatformModel,
    user: Seq<char>,
    host: Seq<char>,
    command: Seq<char>,
    password: Seq<char>,
) -> InvocationModel {
    match platform {
        PlatformModel::Native { exe } => InvocationModel {
            program: exe,
            args: seq!["-o"@, "StrictHostKeyChecking=no"@, destination(user, host), command],
        },
        PlatformModel::Shell => InvocationModel {
            program: "sh"@,
            args: seq![
                "-c"@,
                if password.len() == 0 {
                    ssh_script(user, host, command)
                } else {
                    sshpass_script(user, host, command, password)
                },
            ],
        },
    }
}

/// The platform profile for a client kind. On the native platform a supplied
/// path is used as it is, and the default path when none is supplied.
pub fn resolve_platform(kind: ClientKind, ssh_exe: Option<&str>) -> (r: Platform)
    ensures
        r@ == platform_for(kind, path_view(ssh_exe)),
{
    match kind {
        ClientKind::Native => {
            let exe = match ssh_exe {
                Some(p) => String::from_str(p),
                None => String::from_str(DEFAULT_WINDOWS_SSH_EXE),
            };
            Platform::Native { exe }
        },
        ClientKind::Shell => Platform::Shell,
    }
}

fn destination_string(user: &str, host: &str) -> (r: String)
    ensures
        r@ == destination(user@, host@),
{
    let mut d = String::from_str(user);
    d.append("@");
    d.append(host);
    d
}

/// Builds the process invocation for one remote command. Pure: no I/O.
///
/// On the native platform the executable runs with `-o StrictHostKeyChecking=no`,
/// `user@host` and the command, and the password is never passed. On the shell
/// platform `sh -c` runs `ssh`, or `sshpass -p` in front of it when the password
/// is not empty.
pub fn build_invocation(
    user: &str,
    host: &str,
    command: &str,
    password: &str,
    platform: &Platform,
) -> (r: Invocation)
    ensures
        r@ == invocation_for(platform@, user@, host@, command@, password@),
{
    match platform {
        Platform::Native { exe } => {
            let mut args: Vec<String> = Vec::new();
            args.push(String::from_str("-o"));
            args.push(String::from_str("StrictHostKeyChecking=no"));
            args.push(destination_string(user, host));
            args.push(String::from_str(command));
            let r = Invocation { program: exe.clone(), args };
            assert(r@.args =~= invocation_for(platform@, user@, host@, command@, password@).args);
            r
        },
        Platform::Shell => {
            let mut script = String::new();
            if !password.is_empty() {
                script.append("sshpass -p '");
                script.append(password);
                script.append("' ");
            }
            script.append("ssh -o StrictHostKeyChecking=no ");
            script.append(&destination_string(user, host));
            script.append(" '");
            script.append(command);
            script.append("'");
            assert(script@ =~= invocation_for(platform@, user@, host@, command@, password@).args[1]);
            let mut args: Vec<String> = Vec::new();
            args.push(String::from_str("-c"));
            args.push(script);
            let r = Invocation { program: String::from_str("sh"), args };
            assert(r@.args =~= invocation_for(platform@, user@, host@, command@, password@).args);
            r
        },
    }
}

/// Builds the invocation for a client kind, with the executable path that the
/// caller chose for the native platform, or the default one.
pub fn build_ssh_command(
    user: &str,
    host: &str,
    command: &str,
    password: &str,
    ssh_exe: Option<&str>,
    kind: ClientKind,
) -> (r: Invocation)
    ensures
        r@ == invocation_for(platform_for(kind, path_view(ssh_exe)), user@, host@, command@, password@),
{
    let platform = resolve_platform(kind, ssh_exe);
    build_invocation(user, host, command, password, &platform)
}

/// With an empty password the shell platform runs exactly
/// `ssh -o StrictHostKeyChecking=no {user}@{host} '{command}'` through `sh -c`.
pub proof fn shell_script_without_password(user: Seq<char>, host: Seq<char>, command: Seq<char>)
    ensures
        invocation_for(PlatformModel::Shell, user, host, command, Seq::empty()) == (InvocationModel {
            program: "sh"@,
            args: seq![
                "-c"@,
                "ssh -o StrictHostKeyChecking=no "@ + user + "@"@ + host + " '"@ + command + "'"@,
            ],
        }),
{
    let m = invocation_for(PlatformModel::Shell, user, host, command, Seq::empty());
    assert(m.args[1] =~= "ssh -o StrictHostKeyChecking=no "@ + user + "@"@ + host + " '"@ + command
        + "'"@);
    assert(m.args =~= seq![
        "-c"@,
        "ssh -o StrictHostKeyChecking=no "@ + user + "@"@ + host + " '"@ + command + "'"@,
    ]);
}

/// With a non-empty password the shell platform runs exactly
/// `sshpass -p '{password}' ssh -o StrictHostKeyChecking=no {user}@{host} '{command}'`
/// through `sh -c`.
pub proof fn shell_script_with_password(
    user: Seq<char>,
    host: Seq<char>,
    command: Seq<char>,
    password: Seq<char>,
)
    requires
        password.len() > 0,
    ensures
        invocation_for(PlatformModel::Shell, user, host, command, password) == (InvocationModel {
            program: "sh"@,
            args: seq![
                "-c"@,
                "sshpass -p '"@ + password + "' "@ + "ssh -o StrictHostKeyChecking=no "@ + user
                    + "@"@ + host + " '"@ + command + "'"@,
            ],
        }),
{
    let m = invocation_for(PlatformModel::Shell, user, host, command, password);
    assert(m.args[1] =~= "sshpass -p '"@ + password + "' "@ + "ssh -o StrictHostKeyChecking=no "@
        + user + "@"@ + host + " '"@ + command + "'"@);
    assert(m.args =~= seq![
        "-c"@,
        "sshpass -p '"@ + password + "' "@ + "ssh -o StrictHostKeyChecking=no "@ + user + "@"@
            + host + " '"@ + command + "'"@,
    ]);
}

/// On the native platform the chosen executable runs with
/// `["-o", "StrictHostKeyChecking=no", "{user}@{host}", "{command}"]`, whatever the
/// credential: two credentials give the same invocation.
pub proof fn native_ignores_credential(
    exe: Seq<char>,
    user: Seq<char>,
    host: Seq<char>,
    command: Seq<char>,
    password1: Seq<char>,
    password2: Seq<char>,
)
    ensures
        invocation_for(PlatformModel::Native { exe }, user, host, command, password1) == (
        InvocationModel {
            program: exe,
            args: seq!["-o"@, "StrictHostKeyChecking=no"@, user + "@"@ + host, command],
        }),
        invocation_for(PlatformModel::Native { exe }, user, host, command, password1)
            == invocation_for(PlatformModel::Native { exe }, user, host, command, password2),
{
}

/// A supplied executable path replaces the default one as it is; without one the
/// default path is used.
pub proof fn override_replaces_default(path: Seq<char>)
    ensures
        platform_for(ClientKind::Native, Some(path)) == (PlatformModel::Native { exe: path }),
        platform_for(ClientKind::Native, None) == (PlatformModel::Native {
            exe: DEFAULT_WINDOWS_SSH_EXE@,
        }),
{
}

/// Building twice from the same inputs gives the same program and the same
/// arguments, character for character: the builder keeps no state.
pub proof fn build_is_repeatable(
    first: Invocation,
    second: Invocation,
    user: Seq<char>,
    host: Seq<char>,
    command: Seq<char>,
    password: Seq<char>,
    platform: PlatformModel,
)
    requires
        first@ == invocation_for(platform, user, host, command, password),
        second@ == invocation_for(platform, user, host, command, password),
    ensures
        first.program@ == second.program@,
        first.args@.len() == second.args@.len(),
        forall|i: int|
            0 <= i < first.args@.len() ==> #[trigger] first.args@[i]@ == second.args@[i]@,
{
    assert(first@.args.len() == first.args@.len());
    assert(second@.args.len() == second.args@.len());
    assert forall|i: int| 0 <= i < first.args@.len() implies #[trigger] first.args@[i]@
        == second.args@[i]@ by {
        assert(first@.args[i] == second@.args[i]);
    }
}

} // verus!
