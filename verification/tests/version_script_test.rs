use bflow::version_script::{choose_script, interpret, spawn_failure_message, ScriptCli, SCRIPT_UNIX, SCRIPT_WINDOWS};

#[test]
fn interpret_exit_zero_is_ok() {
    let path = ".bflow/set-version.sh";
    assert_eq!(interpret(path, Some(0), ""), Ok(()));
}

#[test]
fn interpret_nonzero_exit_names_path_code_stderr_and_remedy() {
    let path = ".bflow/set-version.sh";
    let err = interpret(path, Some(3), "boom\n").unwrap_err();
    assert!(err.contains(".bflow/set-version.sh"), "got: {err}");
    assert!(err.contains("exit 3"), "got: {err}");
    assert!(err.contains("boom"), "got: {err}");
    assert!(err.contains("Fix the script, then re-run the command."), "got: {err}");
}

#[test]
fn interpret_signal_termination_names_path() {
    let path = ".bflow/set-version.sh";
    let err = interpret(path, None, "").unwrap_err();
    assert_eq!(err, "Version script .bflow/set-version.sh was terminated by a signal.");
}

#[test]
fn script_cli_display_name_is_the_file_name() {
    let script = ScriptCli::new("/repo/.bflow/set-version.sh".to_string(), "/repo".to_string());
    assert_eq!(script.display_name(), "set-version.sh");
}

#[test]
fn run_in_errors_when_the_script_is_not_under_the_repo_root() {
    let script = ScriptCli::new("/elsewhere/set-version.sh".to_string(), "/repo".to_string());
    let err = script.script_in("/wt").unwrap_err();
    assert!(err.contains("/elsewhere/set-version.sh"), "got: {err}");
    assert!(err.contains("/repo"), "got: {err}");
}

#[test]
fn negative_exit_codes_keep_their_sign() {
    let err = interpret("s", Some(-2), "x").unwrap_err();
    assert_eq!(err, "Version script s failed (exit -2): x\nFix the script, then re-run the command.");
    let err = interpret("s", Some(i32::MIN), "").unwrap_err();
    assert!(err.contains("(exit -2147483648)"), "got: {err}");
}

#[test]
fn platform_pick_and_messages() {
    let own = SCRIPT_UNIX.to_string();
    let other = SCRIPT_WINDOWS.to_string();
    assert_eq!(choose_script(own.clone(), other.clone(), true, true), Ok(Some(own.clone())));
    assert_eq!(choose_script(own.clone(), other.clone(), false, false), Ok(None));
    assert_eq!(
        choose_script(own, other, false, true),
        Err("Found .bflow/set-version.cmd but this platform needs .bflow/set-version.sh. Add .bflow/set-version.sh (or remove .bflow/set-version.cmd).".to_string())
    );
    assert_eq!(
        spawn_failure_message("/s.sh", "denied"),
        "Version script /s.sh could not be run: denied\nMake it executable: chmod +x /s.sh && git update-index --chmod=+x /s.sh, then re-run the command."
    );
}

#[test]
fn script_in_another_tree_keeps_the_relative_place() {
    let script = ScriptCli::new("/repo/.bflow/set-version.sh".to_string(), "/repo".to_string());
    assert_eq!(script.script_in("/wt").unwrap(), "/wt/.bflow/set-version.sh");
}
