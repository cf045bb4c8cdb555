use scs_connection::{needs_shell, new_system_command, shell_char, Platform};

#[test]
fn plain_program_needs_no_shell() {
    assert!(!needs_shell("ls", false));
    assert!(!needs_shell("", false));
    let c = new_system_command("ls".to_string(), &Platform::Linux, None, false);
    assert_eq!(c.program, "ls");
    assert!(c.args.is_empty());
    assert!(!c.raw_args);
}

#[test]
fn shell_syntax_needs_shell() {
    for s in ["ls -l", "a|b", "echo $HOME", "x=1", "*.rs", "a\tb", "100%", "~/bin"].iter() {
        assert!(needs_shell(s, false), "{}", s);
    }
    assert!(shell_char('`'));
    assert!(!shell_char('a'));
    assert!(!shell_char('/'));
}

#[test]
fn missing_absolute_path_needs_shell() {
    assert!(needs_shell("/no/such/program", true));
    let c = new_system_command("/no/such/program".to_string(), &Platform::Linux, None, true);
    assert_eq!(c.program, "/bin/sh");
}

#[test]
fn shell_per_platform() {
    let unix = new_system_command("a && b".to_string(), &Platform::MacOS, None, false);
    assert_eq!(unix.program, "/bin/sh");
    assert_eq!(unix.args, vec!["-c".to_string(), "a && b".to_string()]);
    assert!(!unix.raw_args);

    let win = new_system_command("a && b".to_string(), &Platform::Windows, None, false);
    assert_eq!(win.program, "cmd.exe");
    assert_eq!(win.args, vec!["/c".to_string(), "a && b".to_string()]);
    assert!(win.raw_args);

    let spec = new_system_command("a && b".to_string(), &Platform::Windows, Some("pwsh.exe".to_string()), false);
    assert_eq!(spec.program, "pwsh.exe");
}
