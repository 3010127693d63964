use capshift::commands::{Captured, DoctorError, Ran};
use capshift::doctor::{Doctor, Effect, Event, Stage, Step};

const PREFIX_OUT: &[u8] = b"/opt/homebrew/opt/capshift\n";
const DRIVER_DAEMON: &str = "/Library/Application Support/org.pqrs/Karabiner-DriverKit-VirtualHIDDevice/Applications/Karabiner-VirtualHIDDevice-Daemon.app/Contents/MacOS/Karabiner-VirtualHIDDevice-Daemon";
const CONFIG: &str = "/Library/Application Support/capshift/config.kdl";
const DRIVERKIT_NOTE: &str = "! DriverKit extension approval cannot be automated. Check System Settings → Privacy & Security if the driver is not active.";
const ACCESSIBILITY_NOTE: &str = "! Accessibility permission cannot be automated. Add capshift in System Settings → Privacy & Security → Accessibility.";

fn ok() -> Event {
    Event::Ran(Ran::Exited { success: true, status: "exit status: 0".to_string() })
}

fn failed() -> Event {
    Event::Ran(Ran::Exited { success: false, status: "exit status: 1".to_string() })
}

fn captured(stdout: &[u8]) -> Event {
    Event::Captured(Captured::Exited { success: true, stdout: stdout.to_vec() })
}

fn feed(d: &mut Doctor, e: Event) -> Step {
    assert!(d.accepts(&e), "{:?} does not take {:?}", d.stage, e);
    d.step(e)
}

fn lines(s: &Step) -> Vec<&str> {
    s.lines.iter().map(|l| l.as_str()).collect()
}

fn expect_program(e: &Effect, kind: &str, program: &str, args: &[&str]) {
    let (k, p, a) = match e {
        Effect::Capture { program, args } => ("capture", program, args),
        Effect::Probe { program, args } => ("probe", program, args),
        Effect::Repair { program, args } => ("repair", program, args),
        other => panic!("unexpected effect {other:?}"),
    };
    assert_eq!(k, kind);
    assert_eq!(p, program);
    assert_eq!(a.iter().map(|s| s.as_str()).collect::<Vec<_>>(), args);
}

fn expect_path(e: &Effect, path: &str) {
    match e {
        Effect::PathExists(p) => assert_eq!(p, path),
        other => panic!("unexpected effect {other:?}"),
    }
}

fn is_change(e: &Effect) -> bool {
    matches!(
        e,
        Effect::Repair { .. } | Effect::RepairShell(_) | Effect::RepairPrivileged(_) | Effect::OpenSettings(_)
    )
}

#[test]
fn healthy_installation_without_fix() {
    let mut d = Doctor::new(false);
    let s = feed(&mut d, Event::Start);
    assert_eq!(lines(&s), ["capshift doctor"]);
    expect_program(&s.effect, "capture", "brew", &["--prefix", "capshift"]);
    let s = feed(&mut d, captured(PREFIX_OUT));
    assert!(s.lines.is_empty());
    expect_program(&s.effect, "probe", "brew", &["list", "--cask", "karabiner-driverkit-virtualhiddevice"]);
    let s = feed(&mut d, ok());
    assert_eq!(lines(&s), ["✓ VirtualHID driver cask is installed"]);
    expect_path(&s.effect, DRIVER_DAEMON);
    let s = feed(&mut d, Event::Answer(true));
    assert_eq!(lines(&s), ["✓ Karabiner VirtualHID daemon executable is present"]);
    expect_program(&s.effect, "probe", "launchctl", &["print", "system/dev.njreid.capshift.kvhd"]);
    let s = feed(&mut d, ok());
    expect_path(&s.effect, "/Library/LaunchDaemons/dev.njreid.capshift.kvhd.plist");
    let s = feed(&mut d, Event::Answer(true));
    assert_eq!(lines(&s), ["✓ VirtualHID root LaunchDaemon is installed and loaded"]);
    expect_program(&s.effect, "probe", "launchctl", &["print", "system/homebrew.mxcl.capshift"]);
    let s = feed(&mut d, ok());
    assert_eq!(lines(&s), ["✓ capshift root service is loaded"]);
    assert!(matches!(s.effect, Effect::LookupHome));
    let s = feed(&mut d, Event::Home(Some("/Users/nick".to_string())));
    expect_program(&s.effect, "capture", "id", &["-u"]);
    let s = feed(&mut d, captured(b"501\n"));
    expect_path(&s.effect, "/Users/nick/Library/LaunchAgents/dev.njreid.capshift-menu.plist");
    let s = feed(&mut d, Event::Answer(true));
    expect_program(&s.effect, "probe", "launchctl", &["print", "gui/501/dev.njreid.capshift-menu"]);
    let s = feed(&mut d, ok());
    assert_eq!(lines(&s), ["✓ menu-bar LaunchAgent is installed and loaded"]);
    expect_path(&s.effect, CONFIG);
    let s = feed(&mut d, Event::Answer(true));
    assert_eq!(
        lines(&s),
        [
            "✓ shared configuration exists: /Library/Application Support/capshift/config.kdl",
            DRIVERKIT_NOTE,
            ACCESSIBILITY_NOTE,
            "All repairable capshift dependencies are healthy.",
        ]
    );
    assert!(matches!(s.effect, Effect::Finish(Ok(()))));
    assert_eq!(d.stage, Stage::Done);
    assert!(d.healthy);
    assert!(!d.accepts(&Event::Start));
}

#[test]
fn unhealthy_installation_without_fix_changes_nothing() {
    let mut d = Doctor::new(false);
    let mut all: Vec<String> = Vec::new();
    let events = vec![
        Event::Start,
        captured(PREFIX_OUT),
        failed(),
        Event::Answer(false),
        failed(),
        Event::Answer(false),
        failed(),
        Event::Home(Some("/Users/nick".to_string())),
        captured(b"501\n"),
        Event::Answer(false),
        Event::Answer(false),
    ];
    let mut last = None;
    for e in events {
        let s = feed(&mut d, e);
        assert!(!is_change(&s.effect));
        all.extend(s.lines.iter().cloned());
        last = Some(s);
    }
    assert_eq!(
        all,
        [
            "capshift doctor",
            "✗ VirtualHID driver cask is not installed",
            "✗ Karabiner VirtualHID daemon executable is missing",
            "✗ VirtualHID root LaunchDaemon is not installed and loaded",
            "✗ capshift root service is not loaded",
            "✗ menu-bar LaunchAgent is not installed and loaded",
            "✗ shared configuration is missing: /Library/Application Support/capshift/config.kdl",
            DRIVERKIT_NOTE,
            ACCESSIBILITY_NOTE,
            "Run `capshift doctor --fix` to repair the items above.",
        ]
    );
    assert!(matches!(last.unwrap().effect, Effect::Finish(Ok(()))));
    assert!(!d.healthy);
}

#[test]
fn one_failed_check_makes_the_summary_unhealthy() {
    let mut d = Doctor::new(false);
    for e in [
        Event::Start,
        captured(PREFIX_OUT),
        ok(),
        Event::Answer(true),
        ok(),
        Event::Answer(true),
        ok(),
        Event::Home(Some("/Users/nick".to_string())),
        captured(b"501\n"),
        Event::Answer(true),
    ] {
        feed(&mut d, e);
    }
    let s = feed(&mut d, failed());
    assert_eq!(lines(&s), ["✗ menu-bar LaunchAgent is not installed and loaded"]);
    let s = feed(&mut d, Event::Answer(true));
    assert_eq!(lines(&s).last().copied(), Some("Run `capshift doctor --fix` to repair the items above."));
}

#[test]
fn fix_repairs_every_failed_check() {
    let mut d = Doctor::new(true);
    let s = feed(&mut d, Event::Start);
    assert_eq!(lines(&s), ["capshift doctor --fix"]);
    feed(&mut d, captured(PREFIX_OUT));
    let s = feed(&mut d, failed());
    assert_eq!(
        lines(&s),
        [
            "✗ VirtualHID driver cask is not installed",
            "  installing njreid/capshift/karabiner-driverkit-virtualhiddevice…",
        ]
    );
    expect_program(&s.effect, "repair", "brew", &["install", "--cask", "njreid/capshift/karabiner-driverkit-virtualhiddevice"]);
    let s = feed(&mut d, ok());
    assert!(s.lines.is_empty());
    expect_path(&s.effect, DRIVER_DAEMON);
    let s = feed(&mut d, Event::Answer(false));
    assert_eq!(lines(&s), ["✗ Karabiner VirtualHID daemon executable is missing"]);
    let s = feed(&mut d, failed());
    expect_path(&s.effect, "/Library/LaunchDaemons/dev.njreid.capshift.kvhd.plist");
    let s = feed(&mut d, Event::Answer(true));
    assert_eq!(lines(&s), ["✗ VirtualHID root LaunchDaemon is not installed and loaded"]);
    expect_path(&s.effect, "/opt/homebrew/opt/capshift/share/capshift/dev.njreid.capshift.kvhd.plist");
    let s = feed(&mut d, Event::Answer(true));
    match &s.effect {
        Effect::RepairPrivileged(c) => assert_eq!(
            c,
            "install -m 644 '/opt/homebrew/opt/capshift/share/capshift/dev.njreid.capshift.kvhd.plist' '/Library/LaunchDaemons/dev.njreid.capshift.kvhd.plist' && chown root:wheel '/Library/LaunchDaemons/dev.njreid.capshift.kvhd.plist' && (launchctl bootout system/dev.njreid.capshift.kvhd 2>/dev/null || true) && launchctl bootstrap system '/Library/LaunchDaemons/dev.njreid.capshift.kvhd.plist'"
        ),
        other => panic!("unexpected effect {other:?}"),
    }
    let s = feed(&mut d, ok());
    assert_eq!(lines(&s), ["  repaired VirtualHID root LaunchDaemon"]);
    let s = feed(&mut d, failed());
    assert_eq!(lines(&s), ["✗ capshift root service is not loaded"]);
    assert!(matches!(&s.effect, Effect::RepairPrivileged(c) if c == "brew services start capshift"));
    let s = feed(&mut d, ok());
    assert_eq!(lines(&s), ["  started capshift root service"]);
    feed(&mut d, Event::Home(Some("/Users/nick".to_string())));
    feed(&mut d, captured(b"501\n"));
    let s = feed(&mut d, Event::Answer(false));
    assert_eq!(lines(&s), ["✗ menu-bar LaunchAgent is not installed and loaded"]);
    expect_path(&s.effect, "/opt/homebrew/opt/capshift/share/capshift/dev.njreid.capshift-menu.plist");
    let s = feed(&mut d, Event::Answer(true));
    expect_program(&s.effect, "capture", "id", &["-u"]);
    let s = feed(&mut d, captured(b"501\n"));
    match &s.effect {
        Effect::RepairShell(c) => assert_eq!(
            c,
            "mkdir -p '/Users/nick/Library/LaunchAgents' && install -m 644 '/opt/homebrew/opt/capshift/share/capshift/dev.njreid.capshift-menu.plist' '/Users/nick/Library/LaunchAgents/dev.njreid.capshift-menu.plist' && (launchctl bootout gui/501/dev.njreid.capshift-menu 2>/dev/null || true) && launchctl bootstrap gui/501 '/Users/nick/Library/LaunchAgents/dev.njreid.capshift-menu.plist'"
        ),
        other => panic!("unexpected effect {other:?}"),
    }
    let s = feed(&mut d, ok());
    assert_eq!(lines(&s), ["  repaired menu-bar LaunchAgent"]);
    expect_path(&s.effect, CONFIG);
    let s = feed(&mut d, Event::Answer(false));
    assert!(matches!(&s.effect, Effect::RepairPrivileged(c) if c == "brew services restart capshift"));
    let s = feed(&mut d, ok());
    assert_eq!(
        lines(&s),
        [
            "  started capshift so it can create its starter config",
            DRIVERKIT_NOTE,
            ACCESSIBILITY_NOTE,
            "  add to Accessibility: /opt/homebrew/opt/capshift/bin/capshift",
            "  add to Accessibility: /opt/homebrew/opt/capshift/bin/capshift-menu",
        ]
    );
    assert!(matches!(&s.effect, Effect::OpenSettings(u)
        if u == "x-apple.systempreferences:com.apple.preference.security?Privacy_Accessibility"));
    let s = feed(&mut d, failed());
    assert!(s.lines.is_empty());
    assert!(matches!(s.effect, Effect::Finish(Ok(()))));
    assert_eq!(d.stage, Stage::Done);
}

#[test]
fn failed_repair_stops_the_run() {
    let mut d = Doctor::new(true);
    feed(&mut d, Event::Start);
    feed(&mut d, captured(PREFIX_OUT));
    feed(&mut d, failed());
    let s = feed(&mut d, failed());
    match s.effect {
        Effect::Finish(Err(e)) => assert_eq!(e.message(), "brew exited with exit status: 1"),
        other => panic!("unexpected effect {other:?}"),
    }
    assert_eq!(d.stage, Stage::Done);
}

#[test]
fn missing_packaged_plist_stops_the_run() {
    let mut d = Doctor::new(true);
    for e in [Event::Start, captured(PREFIX_OUT), ok(), Event::Answer(true), failed(), Event::Answer(true)] {
        feed(&mut d, e);
    }
    let s = feed(&mut d, Event::Answer(false));
    match s.effect {
        Effect::Finish(Err(e)) => assert_eq!(
            e.message(),
            "packaged resource is missing: /opt/homebrew/opt/capshift/share/capshift/dev.njreid.capshift.kvhd.plist"
        ),
        other => panic!("unexpected effect {other:?}"),
    }
}

#[test]
fn homebrew_problems_stop_the_run() {
    let mut d = Doctor::new(false);
    feed(&mut d, Event::Start);
    let s = feed(&mut d, Event::Captured(Captured::Exited { success: false, stdout: Vec::new() }));
    assert!(matches!(s.effect, Effect::Finish(Err(DoctorError::NotInstalledByHomebrew))));
}

#[test]
fn missing_home_stops_the_run() {
    let mut d = Doctor::new(false);
    for e in [Event::Start, captured(PREFIX_OUT), ok(), Event::Answer(true), ok(), Event::Answer(true), ok()] {
        feed(&mut d, e);
    }
    let s = feed(&mut d, Event::Home(None));
    match s.effect {
        Effect::Finish(Err(e)) => assert_eq!(e.message(), "HOME is not set"),
        other => panic!("unexpected effect {other:?}"),
    }
}

#[test]
fn menu_repair_for_a_home_at_the_root() {
    let mut d = Doctor::new(true);
    for e in [
        Event::Start,
        captured(PREFIX_OUT),
        ok(),
        Event::Answer(true),
        ok(),
        Event::Answer(true),
        ok(),
        Event::Home(Some("/".to_string())),
        captured(b"501"),
        Event::Answer(false),
        Event::Answer(true),
    ] {
        feed(&mut d, e);
    }
    let s = feed(&mut d, captured(b"501"));
    match &s.effect {
        Effect::RepairShell(c) => assert!(c.starts_with("mkdir -p '/Library/LaunchAgents' && ")),
        other => panic!("unexpected effect {other:?}"),
    }
}

#[test]
fn doctor_takes_only_the_awaited_event() {
    let mut d = Doctor::new(false);
    assert!(d.accepts(&Event::Start));
    assert!(!d.accepts(&ok()));
    feed(&mut d, Event::Start);
    assert!(!d.accepts(&Event::Start));
    assert!(d.accepts(&captured(b"")));
    assert!(!d.accepts(&Event::Answer(true)));
}

#[test]
fn unstartable_repair_stops_with_its_cause() {
    let mut d = Doctor::new(true);
    feed(&mut d, Event::Start);
    feed(&mut d, captured(PREFIX_OUT));
    let s = feed(&mut d, Event::Ran(Ran::NotStarted("No such file or directory (os error 2)".to_string())));
    assert_eq!(lines(&s)[0], "✗ VirtualHID driver cask is not installed");
    let s = feed(&mut d, Event::Ran(Ran::NotStarted("No such file or directory (os error 2)".to_string())));
    match s.effect {
        Effect::Finish(Err(e)) => {
            assert_eq!(e.message(), "running brew: No such file or directory (os error 2)");
            assert_eq!(e.context_message(), "running brew");
        }
        other => panic!("unexpected effect {other:?}"),
    }
}
