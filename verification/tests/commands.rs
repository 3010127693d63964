use capshift::commands::{
    brew_prefix, ensure_resource, install_kvhd, install_menu, installed_binary,
    installed_resources, join_path, kvhd_destination, menu_domain, menu_repair_command,
    privileged_script, resources_dir, run_command, run_privileged, run_shell, system_service, uid,
    user_launch_agents_dir, Captured, DoctorError, Ran,
};
use capshift::text::trim;

fn exited(success: bool, stdout: &[u8]) -> Captured {
    Captured::Exited { success, stdout: stdout.to_vec() }
}

fn ran(success: bool) -> Ran {
    Ran::Exited {
        success,
        status: if success { "exit status: 0".to_string() } else { "exit status: 1".to_string() },
    }
}

#[test]
fn joins_paths_like_std() {
    assert_eq!(join_path("/opt/homebrew", "share/capshift"), "/opt/homebrew/share/capshift");
    assert_eq!(join_path("/opt/homebrew/", "share/capshift"), "/opt/homebrew/share/capshift");
    assert_eq!(join_path("", "share/capshift"), "share/capshift");
    assert_eq!(join_path("/opt", "/etc/x"), "/etc/x");
    assert_eq!(join_path("/opt", ""), "/opt/");
}

#[test]
fn join_path_agrees_with_std_path_join() {
    let cases = [("/a/b", "c"), ("a", "b/c"), ("", "x"), ("/", "y"), ("/a", "/b"), ("a/", "b")];
    for (base, rel) in cases {
        let expected = std::path::Path::new(base).join(rel).display().to_string();
        assert_eq!(join_path(base, rel), expected);
    }
}

#[test]
fn trims_unicode_white_space() {
    assert_eq!(trim("  /opt/homebrew/opt/capshift\n"), "/opt/homebrew/opt/capshift");
    assert_eq!(trim("\u{a0}\t501\u{3000}"), "501");
    assert_eq!(trim("   "), "");
    assert_eq!(trim("a b"), "a b");
}

#[test]
fn trim_agrees_with_std_trim() {
    for s in ["", " ", "x", " x ", "\r\n x y \u{2028}", "\u{85}z\u{200a}"] {
        assert_eq!(trim(s), s.trim());
    }
}

#[test]
fn locates_packaged_resources() {
    let out = exited(true, b"/opt/homebrew/opt/capshift\n");
    assert_eq!(installed_resources(&out).unwrap(), "/opt/homebrew/opt/capshift/share/capshift");
    assert_eq!(brew_prefix(&out).unwrap(), "/opt/homebrew/opt/capshift");
    assert_eq!(resources_dir("/usr/local/opt/capshift"), "/usr/local/opt/capshift/share/capshift");
}

#[test]
fn resource_lookup_errors() {
    assert!(matches!(
        installed_resources(&Captured::NotStarted("x".to_string())),
        Err(DoctorError::BrewNotStarted(_))
    ));
    let failed = installed_resources(&exited(false, b"")).unwrap_err();
    assert_eq!(
        failed.message(),
        "capshift is not installed by Homebrew; cannot locate packaged service files"
    );
    let garbled = installed_resources(&exited(true, &[0xc3, 0x28])).unwrap_err();
    assert_eq!(
        garbled.message(),
        "Homebrew returned a non-UTF-8 prefix: invalid utf-8 sequence of 1 bytes from index 0"
    );
    assert_eq!(garbled.context_message(), "Homebrew returned a non-UTF-8 prefix");
    assert_eq!(garbled.cause().unwrap(), "invalid utf-8 sequence of 1 bytes from index 0");
    let unstarted =
        installed_resources(&Captured::NotStarted("No such file or directory (os error 2)".to_string()))
            .unwrap_err();
    assert_eq!(
        unstarted.message(),
        "locating capshift through Homebrew: No such file or directory (os error 2)"
    );
    let accented = installed_resources(&exited(true, "/Users/Zoë/brew
".as_bytes())).unwrap();
    assert_eq!(accented, "/Users/Zoë/brew/share/capshift");
}

#[test]
fn reads_user_id() {
    assert_eq!(uid(&exited(true, b"501\n")).unwrap(), "501");
    assert_eq!(uid(&exited(false, b"")).unwrap_err().message(), "could not get current user ID");
    let unstarted = uid(&Captured::NotStarted("No such file or directory (os error 2)".to_string()));
    assert_eq!(
        unstarted.unwrap_err().message(),
        "getting current user ID: No such file or directory (os error 2)"
    );
    let expected = String::from_utf8(vec![0xff]).unwrap_err().to_string();
    assert_eq!(uid(&exited(true, &[0xff])).unwrap_err().message(), expected);
    assert_eq!(
        uid(&exited(true, b"50\xc3")).unwrap_err().message(),
        "incomplete utf-8 byte sequence from index 2"
    );
}

#[test]
fn names_services_and_paths() {
    assert_eq!(kvhd_destination(), "/Library/LaunchDaemons/dev.njreid.capshift.kvhd.plist");
    assert_eq!(system_service("dev.njreid.capshift.kvhd"), "system/dev.njreid.capshift.kvhd");
    assert_eq!(menu_domain("501"), "gui/501/dev.njreid.capshift-menu");
    assert_eq!(user_launch_agents_dir("/Users/nick"), "/Users/nick/Library/LaunchAgents");
    assert_eq!(
        installed_binary("/opt/homebrew/opt/capshift", "capshift-menu"),
        "/opt/homebrew/opt/capshift/bin/capshift-menu"
    );
}

#[test]
fn missing_resource_is_reported() {
    assert!(ensure_resource("/a", true).is_ok());
    let e = ensure_resource("/opt/x.plist", false).unwrap_err();
    assert_eq!(e.message(), "packaged resource is missing: /opt/x.plist");
}

#[test]
fn builds_kvhd_install_command() {
    let c = install_kvhd(
        "/opt/homebrew/opt/capshift/share/capshift/dev.njreid.capshift.kvhd.plist",
        "/Library/LaunchDaemons/dev.njreid.capshift.kvhd.plist",
        true,
    )
    .unwrap();
    assert_eq!(
        c,
        "install -m 644 '/opt/homebrew/opt/capshift/share/capshift/dev.njreid.capshift.kvhd.plist' '/Library/LaunchDaemons/dev.njreid.capshift.kvhd.plist' && chown root:wheel '/Library/LaunchDaemons/dev.njreid.capshift.kvhd.plist' && (launchctl bootout system/dev.njreid.capshift.kvhd 2>/dev/null || true) && launchctl bootstrap system '/Library/LaunchDaemons/dev.njreid.capshift.kvhd.plist'"
    );
    let e = install_kvhd("/s", "/d", false).unwrap_err();
    assert_eq!(e.message(), "packaged resource is missing: /s");
}

#[test]
fn builds_menu_install_command() {
    let c = install_menu(
        "/opt/share/dev.njreid.capshift-menu.plist",
        "/Users/o'neil/Library/LaunchAgents/dev.njreid.capshift-menu.plist",
        true,
        "501",
    )
    .unwrap();
    assert_eq!(
        c,
        "mkdir -p '/Users/o'\\''neil/Library/LaunchAgents' && install -m 644 '/opt/share/dev.njreid.capshift-menu.plist' '/Users/o'\\''neil/Library/LaunchAgents/dev.njreid.capshift-menu.plist' && (launchctl bootout gui/501/dev.njreid.capshift-menu 2>/dev/null || true) && launchctl bootstrap gui/501 '/Users/o'\\''neil/Library/LaunchAgents/dev.njreid.capshift-menu.plist'"
    );
    assert_eq!(
        menu_repair_command("/s/m.plist", "/h/L/m.plist", "/h/L", "502"),
        "mkdir -p '/h/L' && install -m 644 '/s/m.plist' '/h/L/m.plist' && (launchctl bootout gui/502/dev.njreid.capshift-menu 2>/dev/null || true) && launchctl bootstrap gui/502 '/h/L/m.plist'"
    );
    assert!(matches!(
        install_menu("/s", "/d/x", false, "501"),
        Err(DoctorError::MissingResource(_))
    ));
    assert_eq!(
        install_menu("/s", "/", false, "501").unwrap_err().message(),
        "packaged resource is missing: /s"
    );
}

#[test]
fn builds_privileged_script() {
    assert_eq!(
        privileged_script("brew services start capshift"),
        "do shell script \"brew services start capshift\" with administrator privileges"
    );
    assert_eq!(
        privileged_script("echo \"a\\b\""),
        "do shell script \"echo \\\"a\\\\b\\\"\" with administrator privileges"
    );
}

#[test]
fn interprets_command_results() {
    assert!(run_command("brew", &ran(true)).is_ok());
    assert_eq!(run_command("brew", &ran(false)).unwrap_err().message(), "brew exited with exit status: 1");
    let gone = || Ran::NotStarted("No such file or directory (os error 2)".to_string());
    assert_eq!(
        run_command("brew", &gone()).unwrap_err().message(),
        "running brew: No such file or directory (os error 2)"
    );
    assert!(run_shell(&ran(true)).is_ok());
    assert_eq!(run_shell(&ran(false)).unwrap_err().message(), "menu LaunchAgent repair failed");
    assert_eq!(
        run_shell(&gone()).unwrap_err().message(),
        "repairing menu LaunchAgent: No such file or directory (os error 2)"
    );
    assert!(run_privileged(&ran(true)).is_ok());
    assert_eq!(run_privileged(&ran(false)).unwrap_err().message(), "administrator command failed");
    assert_eq!(
        run_privileged(&gone()).unwrap_err().message(),
        "starting macOS administrator prompt: No such file or directory (os error 2)"
    );
    assert!(run_privileged(&ran(false)).unwrap_err().cause().is_none());
}

#[test]
fn error_messages() {
    assert_eq!(DoctorError::HomeNotSet.message(), "HOME is not set");
    assert_eq!(
        DoctorError::NoParentDirectory("/".to_string()).message(),
        "path has no parent directory: /"
    );
    let e = DoctorError::CommandNotStarted("id".to_string(), "Permission denied (os error 13)".to_string());
    assert_eq!(e.message(), "running id: Permission denied (os error 13)");
    assert_eq!(e.context_message(), "running id");
}
