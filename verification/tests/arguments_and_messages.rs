use setup_wizard::args::custom_args;
use setup_wizard::paths::{setup_script_path_for, HostOs};
use setup_wizard::session::SetupSession;

#[test]
fn args_are_booleans_in_checklist_order_then_extras() {
    let mut s = SetupSession::default();
    s.set_selected(0, true);
    s.set_selected(2, true);
    let extra = vec![String::from("--log"), String::from("install.log")];
    let args = s.build_args(&extra);
    assert_eq!(
        args,
        vec!["true", "false", "true", "--log", "install.log"]
    );
}

#[test]
fn args_with_nothing_selected_and_no_extras() {
    let s = SetupSession::default();
    let args = s.build_args(&custom_args());
    assert_eq!(args, vec!["false", "false", "false"]);
}

#[test]
fn args_with_everything_selected() {
    let mut s = SetupSession::default();
    s.set_selected(0, true);
    s.set_selected(1, true);
    s.set_selected(2, true);
    let args = s.build_args(&custom_args());
    assert_eq!(args, vec!["true", "true", "true"]);
}

#[test]
fn build_args_over_every_selection_combination() {
    for mask in 0u32..8 {
        let mut s = SetupSession::default();
        for i in 0..3 {
            s.set_selected(i, mask & (1 << i) != 0);
        }
        let extra = vec![String::from("x")];
        let args = s.build_args(&extra);
        assert_eq!(args.len(), 4);
        for i in 0..3 {
            let expected = if mask & (1 << i) != 0 { "true" } else { "false" };
            assert_eq!(args[i], expected);
        }
        assert_eq!(args[3], "x");
    }
}

#[test]
fn child_failure_message_quotes_code_and_stderr() {
    let mut s = SetupSession::default();
    assert!(s.begin_run());
    let mut stderr_text = String::new();
    setup_wizard::messages::append_stderr_line(&mut stderr_text, "boom");
    s.finish_failure(Some(2), &stderr_text);
    assert_eq!(s.error_message().as_deref(), Some("Exit code 2\n\nboom\n"));
}

#[test]
fn child_failure_message_without_stderr_text() {
    let mut s = SetupSession::default();
    assert!(s.begin_run());
    s.finish_failure(Some(9), &String::new());
    assert_eq!(
        s.error_message().as_deref(),
        Some("Process exited with code: 9")
    );
}

#[test]
fn child_failure_message_with_unknown_code() {
    let mut s = SetupSession::default();
    assert!(s.begin_run());
    s.finish_failure(None, &String::new());
    assert_eq!(
        s.error_message().as_deref(),
        Some("Process exited with code: unknown")
    );

    let mut t = SetupSession::default();
    assert!(t.begin_run());
    let mut stderr_text = String::new();
    setup_wizard::messages::append_stderr_line(&mut stderr_text, "killed");
    t.finish_failure(None, &stderr_text);
    assert_eq!(
        t.error_message().as_deref(),
        Some("Exit code unknown\n\nkilled\n")
    );
}

#[test]
fn child_failure_message_with_awkward_codes() {
    let mut s = SetupSession::default();
    assert!(s.begin_run());
    s.finish_failure(Some(-17), &String::new());
    assert_eq!(
        s.error_message().as_deref(),
        Some("Process exited with code: -17")
    );

    let mut t = SetupSession::default();
    assert!(t.begin_run());
    t.finish_failure(Some(i32::MIN), &String::new());
    assert_eq!(
        t.error_message().as_deref(),
        Some("Process exited with code: -2147483648")
    );

    let mut u = SetupSession::default();
    assert!(u.begin_run());
    u.finish_failure(Some(0), &String::from("odd but possible\n"));
    assert_eq!(
        u.error_message().as_deref(),
        Some("Exit code 0\n\nodd but possible\n")
    );
}

#[test]
fn stderr_lines_accumulate_with_terminators() {
    let mut buffer = String::new();
    setup_wizard::messages::append_stderr_line(&mut buffer, "first");
    setup_wizard::messages::append_stderr_line(&mut buffer, "second");
    assert_eq!(buffer, "first\nsecond\n");
}

#[test]
fn spawn_failure_message_contains_the_attempted_path() {
    let mut s = SetupSession::default();
    assert!(s.begin_run());
    let path = "./no/such/setup-binary";
    s.fail_spawn(path, "No such file or directory (os error 2)");
    let message = s.error_message().unwrap();
    assert!(message.contains(path));
    assert_eq!(
        message,
        "Failed to start setup script at './no/such/setup-binary': \
         No such file or directory (os error 2)"
    );
}

#[test]
fn wait_failure_message_describes_the_wait() {
    let mut s = SetupSession::default();
    assert!(s.begin_run());
    s.fail_wait("interrupted");
    assert_eq!(
        s.error_message().as_deref(),
        Some("Failed to wait for process: interrupted")
    );
}

#[test]
fn status_line_placeholder_until_output_arrives() {
    let mut s = SetupSession::default();
    assert!(s.begin_run());
    assert_eq!(s.status_line(), "Please wait...");
    s.record_stdout_line(String::from("Copying files"));
    assert_eq!(s.status_line(), "Copying files");
}

#[test]
fn path_table_has_one_entry_per_operating_system() {
    assert_eq!(
        setup_script_path_for(HostOs::Windows),
        "../../script/windows/quill-setup-windows-x86_64.exe"
    );
    assert_eq!(
        setup_script_path_for(HostOs::Linux),
        "../../script/linux/quill-setup-linux-x86_64"
    );
    assert_eq!(
        setup_wizard::paths::get_setup_script_path(),
        "../../script/linux/quill-setup-linux-x86_64"
    );
}
