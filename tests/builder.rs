use ssh_runner::{
    build_invocation, build_ssh_command, resolve_platform, ClientKind, Platform,
    DEFAULT_WINDOWS_SSH_EXE,
};

#[test]
fn shell_without_password_runs_plain_ssh() {
    let inv = build_invocation("ubuntu", "192.168.1.100", "whoami", "", &Platform::Shell);
    assert_eq!(inv.program, "sh");
    assert_eq!(
        inv.args,
        vec!["-c", "ssh -o StrictHostKeyChecking=no ubuntu@192.168.1.100 'whoami'"]
    );
}

#[test]
fn shell_with_password_runs_sshpass() {
    let inv = build_invocation("admin", "example.org", "ls -l /", "pw", &Platform::Shell);
    assert_eq!(inv.program, "sh");
    assert_eq!(
        inv.args,
        vec!["-c", "sshpass -p 'pw' ssh -o StrictHostKeyChecking=no admin@example.org 'ls -l /'"]
    );
}

#[test]
fn shell_keeps_quotes_unescaped() {
    let inv = build_invocation("u", "h", "echo 'hi'", "a'b", &Platform::Shell);
    assert_eq!(
        inv.args[1],
        "sshpass -p 'a'b' ssh -o StrictHostKeyChecking=no u@h 'echo 'hi''"
    );
}

#[test]
fn native_passes_arguments_without_password() {
    let platform = Platform::Native { exe: "/usr/bin/ssh".to_string() };
    let a = build_invocation("root", "10.0.0.5", "uname -a", "", &platform);
    let b = build_invocation("root", "10.0.0.5", "uname -a", "secret", &platform);
    assert_eq!(a.program, "/usr/bin/ssh");
    assert_eq!(a.args, vec!["-o", "StrictHostKeyChecking=no", "root@10.0.0.5", "uname -a"]);
    assert_eq!(b.program, a.program);
    assert_eq!(b.args, a.args);
}

#[test]
fn override_path_replaces_default() {
    match resolve_platform(ClientKind::Native, Some("D:\\tools\\ssh.exe")) {
        Platform::Native { exe } => assert_eq!(exe, "D:\\tools\\ssh.exe"),
        Platform::Shell => panic!("expected the native platform"),
    }
    match resolve_platform(ClientKind::Native, None) {
        Platform::Native { exe } => assert_eq!(exe, "C:\\Windows\\System32\\OpenSSH\\ssh.exe"),
        Platform::Shell => panic!("expected the native platform"),
    }
    assert!(matches!(resolve_platform(ClientKind::Shell, Some("x")), Platform::Shell));
}

#[test]
fn build_ssh_command_uses_default_exe() {
    let inv = build_ssh_command("root", "h", "id", "pw", None, ClientKind::Native);
    assert_eq!(inv.program, DEFAULT_WINDOWS_SSH_EXE);
    assert_eq!(inv.args, vec!["-o", "StrictHostKeyChecking=no", "root@h", "id"]);
    let inv = build_ssh_command("root", "h", "id", "pw", Some("ssh"), ClientKind::Native);
    assert_eq!(inv.program, "ssh");
    let inv = build_ssh_command("root", "h", "id", "", Some("ssh"), ClientKind::Shell);
    assert_eq!(inv.program, "sh");
    assert_eq!(inv.args, vec!["-c", "ssh -o StrictHostKeyChecking=no root@h 'id'"]);
}

#[test]
fn building_twice_gives_identical_invocations() {
    for platform in [Platform::Shell, Platform::Native { exe: "ssh.exe".to_string() }] {
        let a = build_invocation("root", "10.0.0.5", "uname -a", "secret", &platform);
        let b = build_invocation("root", "10.0.0.5", "uname -a", "secret", &platform);
        assert_eq!(a.program.as_bytes(), b.program.as_bytes());
        assert_eq!(a.args, b.args);
    }
}

#[test]
fn empty_fields_still_build() {
    let inv = build_invocation("", "", "", "", &Platform::Shell);
    assert_eq!(inv.args, vec!["-c", "ssh -o StrictHostKeyChecking=no @ ''"]);
}
