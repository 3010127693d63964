use capshift::commands::DoctorError;
use capshift::menubar::{
    action_notice,
    daemon_is_running, edit_config_script, kickstart_command, notification_script,
    ps_lists_daemon, reload_driver_command, restart_daemon_command, status_title, status_tooltip,
};

#[test]
fn finds_daemon_adopted_by_launchd() {
    let ps = "    1 /usr/libexec/logd\n    1 /opt/homebrew/opt/capshift/bin/capshift\n  411 /usr/sbin/cfprefsd\n";
    assert!(ps_lists_daemon(ps));
    assert!(daemon_is_running(true, ps.as_bytes()));
}

#[test]
fn ignores_daemon_run_by_hand() {
    let ps = "    1 /usr/libexec/logd\n  523 /opt/homebrew/bin/capshift\n";
    assert!(!ps_lists_daemon(ps));
}

#[test]
fn ignores_other_processes_named_like_capshift() {
    assert!(!ps_lists_daemon("    1 /opt/homebrew/bin/capshift-menu\n"));
    assert!(!ps_lists_daemon("    1 /opt/homebrew/bin/notcapshift\n"));
    assert!(!ps_lists_daemon("   11 /opt/homebrew/bin/capshift\n"));
    assert!(!ps_lists_daemon("   10 capshift\n"));
}

#[test]
fn accepts_bare_command_names() {
    assert!(ps_lists_daemon("1 capshift"));
    assert!(ps_lists_daemon("x\n\t1 capshift\r\ny\n"));
}

#[test]
fn handles_empty_and_blank_output() {
    assert!(!ps_lists_daemon(""));
    assert!(!ps_lists_daemon("\n\n   \n"));
    assert!(!ps_lists_daemon("1 capshift\r"));
}

#[test]
fn failed_ps_means_not_running() {
    assert!(!daemon_is_running(false, b"    1 /opt/homebrew/bin/capshift\n"));
}

#[test]
fn lossy_output_still_parses() {
    let mut out = b"    1 /bin/\xffx\n".to_vec();
    out.extend_from_slice(b"    1 /opt/homebrew/bin/capshift\n");
    assert!(daemon_is_running(true, &out));
}

#[test]
fn ps_parsing_agrees_with_std_lines_and_split_whitespace() {
    let samples = [
        "    1 /opt/homebrew/bin/capshift\n",
        "1 capshift\r\n",
        "1\tcapshift",
        " 1 x capshift\n",
        "2 capshift\n 1 /a/capshift\n",
        "1 capshift\r",
        "\u{3000}1\u{a0}capshift\n",
    ];
    for s in samples {
        let expected = s.lines().any(|line| {
            line.split_whitespace().next() == Some("1")
                && (line.ends_with("/capshift") || line.ends_with(" capshift"))
        });
        assert_eq!(ps_lists_daemon(s), expected, "{s:?}");
    }
}

#[test]
fn status_shows_whether_daemon_runs() {
    assert_eq!(status_title(true), "⇪");
    assert_eq!(status_title(false), "⇪!");
    assert_eq!(status_tooltip(true), "capshift is running");
    assert_eq!(status_tooltip(false), "capshift is not running");
}

#[test]
fn menu_commands() {
    assert_eq!(reload_driver_command(), "launchctl kickstart -k system/dev.njreid.capshift.kvhd");
    assert_eq!(restart_daemon_command(), "launchctl kickstart -k system/homebrew.mxcl.capshift");
    assert_eq!(kickstart_command("x"), "launchctl kickstart -k system/x");
}

#[test]
fn edit_config_script_opens_terminal() {
    assert_eq!(
        edit_config_script(),
        "tell application \"Terminal\" to do script \"/bin/sh -lc 'sudo \\\"${EDITOR:-vi}\\\" \\\"/Library/Application Support/capshift/config.kdl\\\"; exec \\\"${SHELL:-/bin/zsh}\\\" -l'\"\ntell application \"Terminal\" to activate"
    );
}

#[test]
fn notification_script_escapes_message() {
    assert_eq!(
        notification_script("VirtualHID driver reloaded"),
        "display notification \"VirtualHID driver reloaded\" with title \"capshift\""
    );
    assert_eq!(
        notification_script("Operation failed: \"x\""),
        "display notification \"Operation failed: \\\"x\\\"\" with title \"capshift\""
    );
}

#[test]
fn notices_after_menu_commands() {
    assert_eq!(action_notice(&Ok(()), "VirtualHID driver reloaded"), "VirtualHID driver reloaded");
    assert_eq!(
        action_notice(&Err(DoctorError::AdministratorCommandFailed), "capshift daemon restarted"),
        "Operation failed: administrator command failed"
    );
    assert_eq!(
        action_notice(
            &Err(DoctorError::PromptNotStarted("No such file or directory (os error 2)".to_string())),
            "capshift daemon restarted"
        ),
        "Operation failed: starting macOS administrator prompt: No such file or directory (os error 2)"
    );
}
