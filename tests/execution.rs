use std::time::Duration;

use shell_exec::{Argument, EnvCollector, Execution, Script, Shell, ShellError, WaitOutcome};

fn pairs(v: &[(&str, &str)]) -> Vec<(String, String)> {
    v.iter().map(|(k, x)| (k.to_string(), x.to_string())).collect()
}

#[test]
fn collector_lists_names_for_the_bridge() {
    let mut c = EnvCollector::new(Shell::Wsl);
    c.acc("INPUT", "world");
    c.acc("OTHER", "x");
    assert_eq!(c.collect(), Some(("WSLENV".to_string(), "INPUT:OTHER:".to_string())));
    assert_eq!(EnvCollector::new(Shell::Wsl).collect(), None);
    let mut s = EnvCollector::new(Shell::Sh);
    s.acc("INPUT", "world");
    assert_eq!(s.collect(), None);
}

#[test]
fn environment_keeps_entries_and_adds_forwarding() {
    let envs = pairs(&[("TEST", "{\"hello\":\"world\"}"), ("B", "2")]);
    let wsl = Execution::new(Shell::Wsl, Duration::from_millis(10000), "echo".to_string());
    let r = wsl.environment(&envs);
    assert_eq!(r.len(), 3);
    assert_eq!(&r[..2], &envs[..]);
    assert_eq!(r[2], ("WSLENV".to_string(), "TEST:B:".to_string()));
    let sh = Execution::new(Shell::Sh, Duration::from_millis(10000), "echo".to_string());
    assert_eq!(sh.environment(&envs), envs);
    assert!(wsl.environment(&Vec::new()).is_empty());
}

#[test]
fn arguments_end_with_the_script() {
    let e = Execution::new(Shell::Wsl, Duration::from_millis(10000), "INPUT=$(cat);\necho \"hello $INPUT\"".to_string());
    let text = e.script_text();
    assert_eq!(text, "\nINPUT=$(cat);\necho \"hello $INPUT\"");
    let script = Script::Inline { raw: text.clone(), shell: Shell::Wsl };
    let args = e.arguments(&script);
    assert_eq!(args.len(), 3);
    assert!(matches!(args[0], Argument::Normal("bash")));
    assert!(matches!(args[1], Argument::Normal("-c")));
    assert!(matches!(args[2], Argument::Raw(t) if t == text));
}

#[test]
fn request_accessors() {
    let e = Execution::new(Shell::Sh, Duration::from_millis(200), "echo \"$TEST\"".to_string())
        .with_init(Some("export TEST=\"HELLO WORLD!\"".to_string()));
    assert_eq!(e.shell(), Shell::Sh);
    assert_eq!(e.timeout(), Duration::from_millis(200));
    assert_eq!(e.script_text(), "export TEST=\"HELLO WORLD!\" > /dev/null 2>&1\necho \"$TEST\"");
}

#[test]
fn success_output_is_right_trimmed() {
    let r = WaitOutcome::Exited { success: true, stdout: b"ABC\n \n".to_vec(), stderr: b"noise".to_vec() }.resolve();
    assert_eq!(r.unwrap(), b"ABC".to_vec());
    let r = WaitOutcome::Exited { success: true, stdout: b"  a b\t\r\n".to_vec(), stderr: Vec::new() }.resolve();
    assert_eq!(r.unwrap(), b"  a b".to_vec());
}

#[test]
fn failure_carries_stderr_and_drops_stdout() {
    let r = WaitOutcome::Exited { success: false, stdout: b"partial".to_vec(), stderr: b"sh: 1: exit 7\n".to_vec() }.resolve();
    match r {
        Err(ShellError::Failure(m)) => assert_eq!(m, "sh: 1: exit 7\n"),
        other => panic!("unexpected {:?}", other),
    }
    let r = WaitOutcome::Exited { success: false, stdout: Vec::new(), stderr: vec![b'a', 0xff, b'b'] }.resolve();
    match r {
        Err(ShellError::Failure(m)) => assert_eq!(m, "a\u{FFFD}b"),
        other => panic!("unexpected {:?}", other),
    }
}

#[test]
fn timeout_and_read_errors() {
    assert!(matches!(WaitOutcome::TimedOut.resolve(), Err(ShellError::Timeout)));
    let e = std::io::Error::new(std::io::ErrorKind::BrokenPipe, "pipe");
    assert!(matches!(WaitOutcome::ReadFailed(e).resolve(), Err(ShellError::FailedOutput(_))));
}

#[test]
fn uppercased_input_comes_back_trimmed() {
    let r = WaitOutcome::Exited { success: true, stdout: b"ABC\n".to_vec(), stderr: Vec::new() }.resolve();
    assert_eq!(r.unwrap(), b"ABC".to_vec());
}

#[test]
fn non_zero_exit_is_failure_not_timeout() {
    let r = WaitOutcome::Exited { success: false, stdout: Vec::new(), stderr: Vec::new() }.resolve();
    assert!(matches!(r, Err(ShellError::Failure(ref m)) if m.is_empty()));
}
