use shell_exec::script::{compose, fix_newlines, init_line, script_text};
use shell_exec::{Argument, Script, Shell};

#[test]
fn init_line_discards_stderr() {
    assert_eq!(init_line("export A=1", Shell::Sh), "export A=1 > /dev/null 2>&1");
    assert_eq!(init_line("set A=1", Shell::Cmd), "set A=1 2> nul");
    assert_eq!(init_line("$A = 1", Shell::Powershell), "$A = 1 2>$null");
}

#[test]
fn newlines_follow_the_shell() {
    assert_eq!(fix_newlines(Shell::Cmd, "a\nb\r\nc\n"), "a\r\nb\r\nc");
    assert_eq!(fix_newlines(Shell::Powershell, "a\n\nb"), "a\r\n\r\nb");
    assert_eq!(fix_newlines(Shell::Sh, "a\r\nb\n"), "a\nb");
    assert_eq!(fix_newlines(Shell::Sh, ""), "");
    assert_eq!(fix_newlines(Shell::Sh, "\n"), "");
    assert_eq!(fix_newlines(Shell::Bash, "x\ry"), "x\ry");
}

#[test]
fn init_text_is_trimmed_and_quieted() {
    let s = script_text(Shell::Sh, "echo \"$TEST\"", Some("  export TEST=\"HELLO WORLD!\"\n"));
    assert_eq!(s, "export TEST=\"HELLO WORLD!\" > /dev/null 2>&1\necho \"$TEST\"");
}

#[test]
fn default_init_lines() {
    assert_eq!(script_text(Shell::Bash, "cat -", None), "source ~/.bashrc > /dev/null 2>&1\ncat -");
    assert_eq!(script_text(Shell::Zsh, "cat -", Some("   ")), "source ~/.zshrc > /dev/null 2>&1\ncat -");
    assert_eq!(script_text(Shell::Cmd, "echo hi\nexit", None), "@echo off\r\necho hi\r\nexit");
    assert_eq!(script_text(Shell::Sh, "echo hi", None), "\necho hi");
    assert_eq!(script_text(Shell::Wsl, "echo hi", None), "\necho hi");
}

#[test]
fn compose_takes_trimmed_text() {
    assert_eq!(compose(Shell::Powershell, "b", Some("a")), "a 2>$null\r\nb");
    assert_eq!(compose(Shell::Powershell, "b", Some("")), "\r\nb");
}

#[test]
fn inline_argument_kinds() {
    let wsl = Script::Inline { raw: "echo \"x\"".to_string(), shell: Shell::Wsl };
    assert!(matches!(wsl.argument(), Argument::Raw("echo \"x\"")));
    let sh = Script::Inline { raw: "echo x".to_string(), shell: Shell::Sh };
    assert!(matches!(sh.argument(), Argument::Normal("echo x")));
}

#[test]
fn batch_file_is_removed_with_its_script() {
    let suffix = Shell::Cmd.script_suffix().unwrap();
    let file = tempfile::Builder::new().suffix(suffix).tempfile().unwrap();
    let path = file.into_temp_path();
    let kept = path.to_path_buf();
    assert!(kept.to_string_lossy().ends_with(".bat"));
    assert!(kept.exists());
    let script = Script::File(path);
    match script.argument() {
        Argument::Path(p) => assert_eq!(p, kept.as_path()),
        _ => panic!("a file script is passed by path"),
    }
    drop(script);
    assert!(!kept.exists());
}
