//! `capshift doctor`: the installation and service health checks, as a
//! machine that decides each next step from what the last one found.
//!
//! The caller starts a `Doctor`, hands it events, prints the lines of each
//! `Step` and performs its `Effect`, reporting the result as the next event,
//! until the effect is `Finish`.

use vstd::prelude::*;
use crate::commands::{
    CONFIG_PATH,
    DAEMON_LABEL,
    DRIVER_CASK,
    DRIVER_CASK_NAME,
    DRIVER_DAEMON,
    KVHD_LABEL,
    KVHD_PLIST,
    MENU_PLIST,
    Captured,
    CapturedView,
    DoctorError,
    Fault,
    Ran,
    RanView,
    join_path,
    joined,
    install_kvhd,
    install_menu,
    kvhd_destination,
    menu_domain,
    parent_of,
    run_command,
    run_privileged,
    run_shell,
    uid,
    user_launch_agents_dir,
    system_service,
    kvhd_install_command,
    kvhd_destination_path,
    launch_agents_dir_of,
    ends_in_name,
    menu_plist_ends_paths,
    ACCESSIBILITY_PANE,
    brew_prefix,
    brew_prefix_of,
    installed_binary,
    installed_binary_of,
    resources_dir,
    resources_dir_of,
    menu_domain_of,
    menu_install_command,
    path_parent,
    privileged_outcome,
    program_outcome,
    shell_outcome,
    system_domain,
    unit_result,
    user_id_of,
};

verus! {

broadcast use vstd::string::group_string_axioms;

/// Where the doctor is: which answer it waits for.
#[derive(Clone, Copy, PartialEq, Eq, Structural, Debug)]
pub enum Stage {
    /// Not started.
    Begin,
    /// Waits for `brew --prefix capshift`.
    Resources,
    /// Waits for `brew list --cask` of the driver cask.
    Cask,
    /// Waits for the cask's installation.
    CaskInstall,
    /// Waits to learn whether the driver daemon executable exists.
    DriverDaemon,
    /// Waits for `launchctl print` of the driver helper.
    KvhdLoaded,
    /// Waits to learn whether the driver helper's property list is installed.
    KvhdPlist,
    /// Waits to learn whether the packaged driver helper property list exists.
    KvhdSource,
    /// Waits for the driver helper's repair.
    KvhdRepair,
    /// Waits for `launchctl print` of the capshift service.
    ServiceLoaded,
    /// Waits for the capshift service's start.
    ServiceStart,
    /// Waits for the user's home directory.
    Home,
    /// Waits for `id -u`, to name the menu companion's launchd domain.
    MenuUid,
    /// Waits to learn whether the menu companion's property list is installed.
    MenuPlist,
    /// Waits for `launchctl print` of the menu companion.
    MenuLoaded,
    /// Waits to learn whether the packaged menu property list exists.
    MenuSource,
    /// Waits for `id -u`, to repair the menu companion.
    MenuRepairUid,
    /// Waits for the menu companion's repair.
    MenuRepair,
    /// Waits to learn whether the shared configuration exists.
    Config,
    /// Waits for the restart that creates the starter configuration.
    ConfigRepair,
    /// Waits for the Accessibility settings pane to open.
    Accessibility,
    /// Finished.
    Done,
}

/// The position of a stage in the run; every step moves to a later one.
pub open spec fn rank(s: Stage) -> int {
    match s {
        Stage::Begin => 0,
        Stage::Resources => 1,
        Stage::Cask => 2,
        Stage::CaskInstall => 3,
        Stage::DriverDaemon => 4,
        Stage::KvhdLoaded => 5,
        Stage::KvhdPlist => 6,
        Stage::KvhdSource => 7,
        Stage::KvhdRepair => 8,
        Stage::ServiceLoaded => 9,
        Stage::ServiceStart => 10,
        Stage::Home => 11,
        Stage::MenuUid => 12,
        Stage::MenuPlist => 13,
        Stage::MenuLoaded => 14,
        Stage::MenuSource => 15,
        Stage::MenuRepairUid => 16,
        Stage::MenuRepair => 17,
        Stage::Config => 18,
        Stage::ConfigRepair => 19,
        Stage::Accessibility => 20,
        Stage::Done => 21,
    }
}

/// The state of a doctor run.
#[derive(Debug)]
pub struct Doctor {
    /// Whether failed checks are repaired.
    pub fix: bool,
    /// Whether every check so far passed.
    pub healthy: bool,
    /// What the doctor waits for.
    pub stage: Stage,
    /// capshift's installation prefix, once known.
    pub prefix: String,
    /// The directory of packaged service files, once known.
    pub resources: String,
    /// Whether launchd has the driver helper loaded, once known.
    pub kvhd_loaded: bool,
    /// Where the menu companion's property list belongs, once known.
    pub menu_destination: String,
    /// The menu companion's launchd domain, once known.
    pub menu_domain: String,
}

/// A `Doctor` as values.
pub struct DoctorView {
    pub fix: bool,
    pub healthy: bool,
    pub stage: Stage,
    pub prefix: Seq<char>,
    pub resources: Seq<char>,
    pub kvhd_loaded: bool,
    pub menu_destination: Seq<char>,
    pub menu_domain: Seq<char>,
}

impl View for Doctor {
    type V = DoctorView;

    open spec fn view(&self) -> DoctorView {
        DoctorView {
            fix: self.fix,
            healthy: self.healthy,
            stage: self.stage,
            prefix: self.prefix@,
            resources: self.resources@,
            kvhd_loaded: self.kvhd_loaded,
            menu_destination: self.menu_destination@,
            menu_domain: self.menu_domain@,
        }
    }
}

/// What the caller reports to the doctor.
#[derive(Debug)]
pub enum Event {
    /// Begin the run.
    Start,
    /// The result of a `Capture` effect.
    Captured(Captured),
    /// Whether the path of a `PathExists` effect exists.
    Answer(bool),
    /// The value of `HOME`, if it is set.
    Home(Option<String>),
    /// The result of a `Probe` or a repair effect.
    Ran(Ran),
}

/// An `Event` as values.
pub enum EventView {
    Start,
    Captured(CapturedView),
    Answer(bool),
    Home(Option<Seq<char>>),
    Ran(RanView),
}

impl View for Event {
    type V = EventView;

    open spec fn view(&self) -> EventView {
        match self {
            Event::Start => EventView::Start,
            Event::Captured(c) => EventView::Captured(c@),
            Event::Answer(b) => EventView::Answer(*b),
            Event::Home(h) => EventView::Home(
                match h {
                    Some(s) => Some(s@),
                    None => None,
                },
            ),
            Event::Ran(r) => EventView::Ran(r@),
        }
    }
}

/// What the caller does next.
#[derive(Debug)]
pub enum Effect {
    /// Run `program` with `args`, capture its standard output, and report `Captured`.
    Capture { program: String, args: Vec<String> },
    /// Run `program` with `args` to test something, and report `Ran`.
    Probe { program: String, args: Vec<String> },
    /// Test whether the path exists, and report `Answer`.
    PathExists(String),
    /// Read `HOME`, and report `Home`.
    LookupHome,
    /// Run `program` with `args` to repair something, and report `Ran`.
    Repair { program: String, args: Vec<String> },
    /// Run the command with `/bin/sh -c` as the user, and report `Ran`.
    RepairShell(String),
    /// Run the command with administrator privileges, and report `Ran`.
    RepairPrivileged(String),
    /// Open the settings pane at this URL, and report `Ran`.
    OpenSettings(String),
    /// Stop with this result.
    Finish(Result<(), DoctorError>),
}

/// An `Effect` as values.
pub enum EffectView {
    Capture { program: Seq<char>, args: Seq<Seq<char>> },
    Probe { program: Seq<char>, args: Seq<Seq<char>> },
    PathExists(Seq<char>),
    LookupHome,
    Repair { program: Seq<char>, args: Seq<Seq<char>> },
    RepairShell(Seq<char>),
    RepairPrivileged(Seq<char>),
    OpenSettings(Seq<char>),
    Finish(Result<(), Fault>),
}

/// A list of strings as values.
pub open spec fn texts(v: Seq<String>) -> Seq<Seq<char>> {
    v.map_values(|s: String| s@)
}

impl View for Effect {
    type V = EffectView;

    open spec fn view(&self) -> EffectView {
        match self {
            Effect::Capture { program, args } => EffectView::Capture {
                program: program@,
                args: texts(args@),
            },
            Effect::Probe { program, args } => EffectView::Probe {
                program: program@,
                args: texts(args@),
            },
            Effect::PathExists(p) => EffectView::PathExists(p@),
            Effect::LookupHome => EffectView::LookupHome,
            Effect::Repair { program, args } => EffectView::Repair {
                program: program@,
                args: texts(args@),
            },
            Effect::RepairShell(c) => EffectView::RepairShell(c@),
            Effect::RepairPrivileged(c) => EffectView::RepairPrivileged(c@),
            Effect::OpenSettings(u) => EffectView::OpenSettings(u@),
            Effect::Finish(r) => EffectView::Finish(unit_result(*r)),
        }
    }
}

/// The lines to print and the effect to perform.
#[derive(Debug)]
pub struct Step {
    pub lines: Vec<String>,
    pub effect: Effect,
}

/// A `Step` as values.
pub struct StepView {
    pub lines: Seq<Seq<char>>,
    pub effect: EffectView,
}

impl View for Step {
    type V = StepView;

    open spec fn view(&self) -> StepView {
        StepView { lines: texts(self.lines@), effect: self.effect@ }
    }
}

// ------------------------------------------------------------ the protocol

/// Whether a doctor at `stage` takes event `e`: the event must answer the
/// effect that led to the stage.
pub open spec fn accepts(stage: Stage, e: EventView) -> bool {
    match stage {
        Stage::Begin => e is Start,
        Stage::Resources | Stage::MenuUid | Stage::MenuRepairUid => e is Captured,
        Stage::DriverDaemon | Stage::KvhdPlist | Stage::KvhdSource | Stage::MenuPlist
        | Stage::MenuSource | Stage::Config => e is Answer,
        Stage::Home => e is Home,
        Stage::Done => false,
        _ => e is Ran,
    }
}

/// Whether a probe found what it tested for.
pub open spec fn ran_ok(r: RanView) -> bool {
    r matches RanView::Exited { success, .. } && success
}

/// The first line of the report.
pub open spec fn header_line(fix: bool) -> Seq<char> {
    "capshift doctor"@ + (if fix {
        " --fix"@
    } else {
        Seq::empty()
    })
}

/// The line that names an executable to add to Accessibility permission.
pub open spec fn accessibility_line(path: Seq<char>) -> Seq<char> {
    "  add to Accessibility: "@ + path
}

/// The lines that end every run that gets through all checks.
pub open spec fn closing_lines(healthy: bool, fix: bool, prefix: Seq<char>) -> Seq<Seq<char>> {
    seq![
        "! DriverKit extension approval cannot be automated. Check System Settings → Privacy & Security if the driver is not active."@,
        "! Accessibility permission cannot be automated. Add capshift in System Settings → Privacy & Security → Accessibility."@,
    ] + (if fix {
        seq![
            accessibility_line(installed_binary_of(prefix, "capshift"@)),
            accessibility_line(installed_binary_of(prefix, "capshift-menu"@)),
        ]
    } else if healthy {
        seq!["All repairable capshift dependencies are healthy."@]
    } else {
        seq!["Run `capshift doctor --fix` to repair the items above."@]
    })
}

/// Where the packaged property list `plist` lies for resources `resources`.
pub open spec fn packaged(resources: Seq<char>, plist: Seq<char>) -> Seq<char> {
    joined(resources, plist)
}

/// `brew --prefix capshift`.
pub open spec fn brew_prefix_query() -> EffectView {
    EffectView::Capture { program: "brew"@, args: seq!["--prefix"@, "capshift"@] }
}

/// `brew list --cask` of the driver cask.
pub open spec fn cask_probe() -> EffectView {
    EffectView::Probe { program: "brew"@, args: seq!["list"@, "--cask"@, DRIVER_CASK_NAME@] }
}

/// `brew install --cask` of the driver cask.
pub open spec fn cask_install() -> EffectView {
    EffectView::Repair { program: "brew"@, args: seq!["install"@, "--cask"@, DRIVER_CASK@] }
}

/// `launchctl print` of `domain`.
pub open spec fn launchd_probe(domain: Seq<char>) -> EffectView {
    EffectView::Probe { program: "launchctl"@, args: seq!["print"@, domain] }
}

/// `id -u`.
pub open spec fn uid_query() -> EffectView {
    EffectView::Capture { program: "id"@, args: seq!["-u"@] }
}

/// The command that starts the capshift service.
pub open spec fn service_start_command() -> Seq<char> {
    "brew services start capshift"@
}

/// The command that restarts the capshift service, which writes the
/// documented starter configuration when there is none.
pub open spec fn service_restart_command() -> Seq<char> {
    "brew services restart capshift"@
}

/// A step with `lines` and `effect`.
pub open spec fn step_of(lines: Seq<Seq<char>>, effect: EffectView) -> StepView {
    StepView { lines, effect }
}

/// Stop with fault `f`.
pub open spec fn stop(d: DoctorView, f: Fault) -> (DoctorView, StepView) {
    (DoctorView { stage: Stage::Done, ..d }, step_of(Seq::empty(), EffectView::Finish(Err(f))))
}

/// Go to the driver daemon check.
pub open spec fn to_driver_daemon(d: DoctorView, lines: Seq<Seq<char>>) -> (DoctorView, StepView) {
    (
        DoctorView { stage: Stage::DriverDaemon, ..d },
        step_of(lines, EffectView::PathExists(DRIVER_DAEMON@)),
    )
}

/// Go to the capshift service check.
pub open spec fn to_service(d: DoctorView, lines: Seq<Seq<char>>) -> (DoctorView, StepView) {
    (
        DoctorView { stage: Stage::ServiceLoaded, ..d },
        step_of(lines, launchd_probe(system_domain(DAEMON_LABEL@))),
    )
}

/// Go to the menu companion check.
pub open spec fn to_home(d: DoctorView, lines: Seq<Seq<char>>) -> (DoctorView, StepView) {
    (DoctorView { stage: Stage::Home, ..d }, step_of(lines, EffectView::LookupHome))
}

/// Go to the shared configuration check.
pub open spec fn to_config(d: DoctorView, lines: Seq<Seq<char>>) -> (DoctorView, StepView) {
    (DoctorView { stage: Stage::Config, ..d }, step_of(lines, EffectView::PathExists(CONFIG_PATH@)))
}

/// End the run after all checks; a repairing run opens the Accessibility
/// settings pane first.
pub open spec fn to_end(d: DoctorView, lines: Seq<Seq<char>>) -> (DoctorView, StepView) {
    let all = lines + closing_lines(d.healthy, d.fix, d.prefix);
    if d.fix {
        (
            DoctorView { stage: Stage::Accessibility, ..d },
            step_of(all, EffectView::OpenSettings(ACCESSIBILITY_PANE@)),
        )
    } else {
        (DoctorView { stage: Stage::Done, ..d }, step_of(all, EffectView::Finish(Ok(()))))
    }
}

/// The menu companion is not installed and loaded.
pub open spec fn menu_failed(d: DoctorView) -> (DoctorView, StepView) {
    let d2 = DoctorView { healthy: false, ..d };
    let lines = seq!["✗ menu-bar LaunchAgent is not installed and loaded"@];
    if d.fix {
        (
            DoctorView { stage: Stage::MenuSource, ..d2 },
            step_of(lines, EffectView::PathExists(packaged(d.resources, MENU_PLIST@))),
        )
    } else {
        to_config(d2, lines)
    }
}

/// What the doctor does at `d` when `e` comes.
pub open spec fn doctor_next(d: DoctorView, e: EventView) -> (DoctorView, StepView) {
    match (d.stage, e) {
        (Stage::Begin, EventView::Start) => (
            DoctorView { stage: Stage::Resources, ..d },
            step_of(seq![header_line(d.fix)], brew_prefix_query()),
        ),
        (Stage::Resources, EventView::Captured(c)) => match brew_prefix_of(c) {
            Err(f) => stop(d, f),
            Ok(p) => (
                DoctorView { stage: Stage::Cask, prefix: p, resources: resources_dir_of(p), ..d },
                step_of(Seq::empty(), cask_probe()),
            ),
        },
        (Stage::Cask, EventView::Ran(r)) => if ran_ok(r) {
            to_driver_daemon(d, seq!["✓ VirtualHID driver cask is installed"@])
        } else if d.fix {
            (
                DoctorView { stage: Stage::CaskInstall, healthy: false, ..d },
                step_of(
                    seq![
                        "✗ VirtualHID driver cask is not installed"@,
                        "  installing "@ + DRIVER_CASK@ + "…"@,
                    ],
                    cask_install(),
                ),
            )
        } else {
            to_driver_daemon(
                DoctorView { healthy: false, ..d },
                seq!["✗ VirtualHID driver cask is not installed"@],
            )
        },
        (Stage::CaskInstall, EventView::Ran(r)) => match program_outcome("brew"@, r) {
            Err(f) => stop(d, f),
            Ok(()) => to_driver_daemon(d, Seq::empty()),
        },
        (Stage::DriverDaemon, EventView::Answer(present)) => (
            DoctorView { stage: Stage::KvhdLoaded, healthy: d.healthy && present, ..d },
            step_of(
                seq![
                    if present {
                        "✓ Karabiner VirtualHID daemon executable is present"@
                    } else {
                        "✗ Karabiner VirtualHID daemon executable is missing"@
                    },
                ],
                launchd_probe(system_domain(KVHD_LABEL@)),
            ),
        ),
        (Stage::KvhdLoaded, EventView::Ran(r)) => (
            DoctorView { stage: Stage::KvhdPlist, kvhd_loaded: ran_ok(r), ..d },
            step_of(Seq::empty(), EffectView::PathExists(kvhd_destination_path())),
        ),
        (Stage::KvhdPlist, EventView::Answer(present)) => if present && d.kvhd_loaded {
            to_service(d, seq!["✓ VirtualHID root LaunchDaemon is installed and loaded"@])
        } else {
            let lines = seq!["✗ VirtualHID root LaunchDaemon is not installed and loaded"@];
            if d.fix {
                (
                    DoctorView { stage: Stage::KvhdSource, healthy: false, ..d },
                    step_of(lines, EffectView::PathExists(packaged(d.resources, KVHD_PLIST@))),
                )
            } else {
                to_service(DoctorView { healthy: false, ..d }, lines)
            }
        },
        (Stage::KvhdSource, EventView::Answer(present)) => if present {
            (
                DoctorView { stage: Stage::KvhdRepair, ..d },
                step_of(
                    Seq::empty(),
                    EffectView::RepairPrivileged(
                        kvhd_install_command(
                            packaged(d.resources, KVHD_PLIST@),
                            kvhd_destination_path(),
                        ),
                    ),
                ),
            )
        } else {
            stop(d, Fault::MissingResource(packaged(d.resources, KVHD_PLIST@)))
        },
        (Stage::KvhdRepair, EventView::Ran(r)) => match privileged_outcome(r) {
            Err(f) => stop(d, f),
            Ok(()) => to_service(d, seq!["  repaired VirtualHID root LaunchDaemon"@]),
        },
        (Stage::ServiceLoaded, EventView::Ran(r)) => if ran_ok(r) {
            to_home(d, seq!["✓ capshift root service is loaded"@])
        } else if d.fix {
            (
                DoctorView { stage: Stage::ServiceStart, healthy: false, ..d },
                step_of(
                    seq!["✗ capshift root service is not loaded"@],
                    EffectView::RepairPrivileged(service_start_command()),
                ),
            )
        } else {
            to_home(
                DoctorView { healthy: false, ..d },
                seq!["✗ capshift root service is not loaded"@],
            )
        },
        (Stage::ServiceStart, EventView::Ran(r)) => match privileged_outcome(r) {
            Err(f) => stop(d, f),
            Ok(()) => to_home(d, seq!["  started capshift root service"@]),
        },
        (Stage::Home, EventView::Home(h)) => match h {
            None => stop(d, Fault::HomeNotSet),
            Some(home) => (
                DoctorView {
                    stage: Stage::MenuUid,
                    menu_destination: joined(launch_agents_dir_of(home), MENU_PLIST@),
                    ..d
                },
                step_of(Seq::empty(), uid_query()),
            ),
        },
        (Stage::MenuUid, EventView::Captured(c)) => match user_id_of(c) {
            Err(f) => stop(d, f),
            Ok(u) => (
                DoctorView { stage: Stage::MenuPlist, menu_domain: menu_domain_of(u), ..d },
                step_of(Seq::empty(), EffectView::PathExists(d.menu_destination)),
            ),
        },
        (Stage::MenuPlist, EventView::Answer(present)) => if present {
            (
                DoctorView { stage: Stage::MenuLoaded, ..d },
                step_of(Seq::empty(), launchd_probe(d.menu_domain)),
            )
        } else {
            menu_failed(d)
        },
        (Stage::MenuLoaded, EventView::Ran(r)) => if ran_ok(r) {
            to_config(d, seq!["✓ menu-bar LaunchAgent is installed and loaded"@])
        } else {
            menu_failed(d)
        },
        (Stage::MenuSource, EventView::Answer(present)) => if present {
            if path_parent(d.menu_destination) is None {
                stop(d, Fault::NoParentDirectory(d.menu_destination))
            } else {
                (
                    DoctorView { stage: Stage::MenuRepairUid, ..d },
                    step_of(Seq::empty(), uid_query()),
                )
            }
        } else {
            stop(d, Fault::MissingResource(packaged(d.resources, MENU_PLIST@)))
        },
        (Stage::MenuRepairUid, EventView::Captured(c)) => match user_id_of(c) {
            Err(f) => stop(d, f),
            Ok(u) => match path_parent(d.menu_destination) {
                None => stop(d, Fault::NoParentDirectory(d.menu_destination)),
                Some(parent) => (
                    DoctorView { stage: Stage::MenuRepair, ..d },
                    step_of(
                        Seq::empty(),
                        EffectView::RepairShell(
                            menu_install_command(
                                packaged(d.resources, MENU_PLIST@),
                                d.menu_destination,
                                parent,
                                u,
                            ),
                        ),
                    ),
                ),
            },
        },
        (Stage::MenuRepair, EventView::Ran(r)) => match shell_outcome(r) {
            Err(f) => stop(d, f),
            Ok(()) => to_config(d, seq!["  repaired menu-bar LaunchAgent"@]),
        },
        (Stage::Config, EventView::Answer(present)) => if present {
            to_end(d, seq!["✓ shared configuration exists: "@ + CONFIG_PATH@])
        } else {
            let lines = seq!["✗ shared configuration is missing: "@ + CONFIG_PATH@];
            if d.fix {
                (
                    DoctorView { stage: Stage::ConfigRepair, healthy: false, ..d },
                    step_of(lines, EffectView::RepairPrivileged(service_restart_command())),
                )
            } else {
                to_end(DoctorView { healthy: false, ..d }, lines)
            }
        },
        (Stage::ConfigRepair, EventView::Ran(r)) => match privileged_outcome(r) {
            Err(f) => stop(d, f),
            Ok(()) => to_end(d, seq!["  started capshift so it can create its starter config"@]),
        },
        (Stage::Accessibility, EventView::Ran(_)) => (
            DoctorView { stage: Stage::Done, ..d },
            step_of(Seq::empty(), EffectView::Finish(Ok(()))),
        ),
        _ => (d, step_of(Seq::empty(), EffectView::Finish(Ok(())))),
    }
}


// ---------------------------------------------------------- the machine

/// One string as a list.
fn texts1(a: String) -> (v: Vec<String>)
    ensures
        texts(v@) == seq![a@],
{
    let mut v: Vec<String> = Vec::new();
    v.push(a);
    assert(texts(v@) =~= seq![a@]);
    v
}

/// Two strings as a list.
fn texts2(a: String, b: String) -> (v: Vec<String>)
    ensures
        texts(v@) == seq![a@, b@],
{
    let mut v: Vec<String> = Vec::new();
    v.push(a);
    v.push(b);
    assert(texts(v@) =~= seq![a@, b@]);
    v
}

/// Three strings as a list.
fn texts3(a: String, b: String, c: String) -> (v: Vec<String>)
    ensures
        texts(v@) == seq![a@, b@, c@],
{
    let mut v: Vec<String> = Vec::new();
    v.push(a);
    v.push(b);
    v.push(c);
    assert(texts(v@) =~= seq![a@, b@, c@]);
    v
}

/// Appends `s` to `v`.
fn push_text(v: &mut Vec<String>, s: String)
    ensures
        texts(final(v)@) == texts(old(v)@) + seq![s@],
{
    v.push(s);
    assert(texts(v@) =~= texts(old(v)@) + seq![s@]);
}

/// The effect `brew --prefix capshift`.
fn query_brew_prefix() -> (e: Effect)
    ensures
        e@ == brew_prefix_query(),
{
    Effect::Capture {
        program: "brew".to_string(),
        args: texts2("--prefix".to_string(), "capshift".to_string()),
    }
}

/// The effect `brew list --cask` of the driver cask.
fn probe_cask() -> (e: Effect)
    ensures
        e@ == cask_probe(),
{
    Effect::Probe {
        program: "brew".to_string(),
        args: texts3("list".to_string(), "--cask".to_string(), DRIVER_CASK_NAME.to_string()),
    }
}

/// The effect `brew install --cask` of the driver cask.
fn install_cask() -> (e: Effect)
    ensures
        e@ == cask_install(),
{
    Effect::Repair {
        program: "brew".to_string(),
        args: texts3("install".to_string(), "--cask".to_string(), DRIVER_CASK.to_string()),
    }
}

/// The effect `launchctl print` of `domain`.
fn probe_launchd(domain: String) -> (e: Effect)
    ensures
        e@ == launchd_probe(domain@),
{
    Effect::Probe { program: "launchctl".to_string(), args: texts2("print".to_string(), domain) }
}

/// The effect `id -u`.
fn query_uid() -> (e: Effect)
    ensures
        e@ == uid_query(),
{
    let mut v: Vec<String> = Vec::new();
    v.push("-u".to_string());
    assert(texts(v@) =~= seq!["-u"@]);
    Effect::Capture { program: "id".to_string(), args: v }
}

/// Whether a probe found what it tested for.
fn probe_passed(r: &Ran) -> (b: bool)
    ensures
        b == ran_ok(r@),
{
    match r {
        Ran::Exited { success, .. } => *success,
        Ran::NotStarted(_) => false,
    }
}

impl Doctor {
    /// A doctor that has not started; it repairs what fails when `fix` holds.
    pub fn new(fix: bool) -> (d: Doctor)
        ensures
            d@.fix == fix,
            d@.healthy,
            d@.stage == Stage::Begin,
            d@.prefix == Seq::<char>::empty(),
            d@.resources == Seq::<char>::empty(),
            !d@.kvhd_loaded,
            d@.menu_destination == Seq::<char>::empty(),
            d@.menu_domain == Seq::<char>::empty(),
            consistent(d@),
    {
        Doctor {
            fix,
            healthy: true,
            stage: Stage::Begin,
            prefix: String::new(),
            resources: String::new(),
            kvhd_loaded: false,
            menu_destination: String::new(),
            menu_domain: String::new(),
        }
    }

    /// Whether the doctor takes `event` now.
    pub fn accepts(&self, event: &Event) -> (b: bool)
        ensures
            b == accepts(self@.stage, event@),
    {
        match self.stage {
            Stage::Begin => matches!(event, Event::Start),
            Stage::Resources | Stage::MenuUid | Stage::MenuRepairUid => matches!(
                event,
                Event::Captured(_)
            ),
            Stage::DriverDaemon | Stage::KvhdPlist | Stage::KvhdSource | Stage::MenuPlist
            | Stage::MenuSource | Stage::Config => matches!(event, Event::Answer(_)),
            Stage::Home => matches!(event, Event::Home(_)),
            Stage::Done => false,
            _ => matches!(event, Event::Ran(_)),
        }
    }

    fn stop_with(&mut self, e: DoctorError) -> (s: Step)
        ensures
            (final(self)@, s@) == stop(old(self)@, e@),
    {
        self.stage = Stage::Done;
        let lines: Vec<String> = Vec::new();
        assert(texts(lines@) =~= Seq::<Seq<char>>::empty());
        Step { lines, effect: Effect::Finish(Err(e)) }
    }

    fn go_driver_daemon(&mut self, lines: Vec<String>) -> (s: Step)
        ensures
            (final(self)@, s@) == to_driver_daemon(old(self)@, texts(lines@)),
    {
        self.stage = Stage::DriverDaemon;
        Step { lines, effect: Effect::PathExists(DRIVER_DAEMON.to_string()) }
    }

    fn go_service(&mut self, lines: Vec<String>) -> (s: Step)
        ensures
            (final(self)@, s@) == to_service(old(self)@, texts(lines@)),
    {
        self.stage = Stage::ServiceLoaded;
        Step { lines, effect: probe_launchd(system_service(DAEMON_LABEL)) }
    }

    fn go_home(&mut self, lines: Vec<String>) -> (s: Step)
        ensures
            (final(self)@, s@) == to_home(old(self)@, texts(lines@)),
    {
        self.stage = Stage::Home;
        Step { lines, effect: Effect::LookupHome }
    }

    fn go_config(&mut self, lines: Vec<String>) -> (s: Step)
        ensures
            (final(self)@, s@) == to_config(old(self)@, texts(lines@)),
    {
        self.stage = Stage::Config;
        Step { lines, effect: Effect::PathExists(CONFIG_PATH.to_string()) }
    }

    fn go_end(&mut self, lines: Vec<String>) -> (s: Step)
        ensures
            (final(self)@, s@) == to_end(old(self)@, texts(lines@)),
    {
        self.stage = Stage::Done;
        let ghost given = texts(lines@);
        let mut lines = lines;
        push_text(
            &mut lines,
            "! DriverKit extension approval cannot be automated. Check System Settings → Privacy & Security if the driver is not active.".to_string(),
        );
        push_text(
            &mut lines,
            "! Accessibility permission cannot be automated. Add capshift in System Settings → Privacy & Security → Accessibility.".to_string(),
        );
        if self.fix {
            let mut tool = "  add to Accessibility: ".to_string();
            let path = installed_binary(self.prefix.as_str(), "capshift");
            tool.append(path.as_str());
            push_text(&mut lines, tool);
            let mut menu = "  add to Accessibility: ".to_string();
            let path = installed_binary(self.prefix.as_str(), "capshift-menu");
            menu.append(path.as_str());
            push_text(&mut lines, menu);
        } else {
            if self.healthy {
                push_text(&mut lines, "All repairable capshift dependencies are healthy.".to_string());
            } else {
                push_text(
                    &mut lines,
                    "Run `capshift doctor --fix` to repair the items above.".to_string(),
                );
            }
        }
        let ghost l = texts(lines@);
        assert(l =~= given + closing_lines(self.healthy, self.fix, self.prefix@));
        if self.fix {
            self.stage = Stage::Accessibility;
            Step { lines, effect: Effect::OpenSettings(ACCESSIBILITY_PANE.to_string()) }
        } else {
            Step { lines, effect: Effect::Finish(Ok(())) }
        }
    }

    fn go_menu_failed(&mut self) -> (s: Step)
        ensures
            (final(self)@, s@) == menu_failed(old(self)@),
    {
        self.healthy = false;
        let lines = texts1("✗ menu-bar LaunchAgent is not installed and loaded".to_string());
        if self.fix {
            self.stage = Stage::MenuSource;
            Step {
                lines,
                effect: Effect::PathExists(join_path(self.resources.as_str(), MENU_PLIST)),
            }
        } else {
            self.go_config(lines)
        }
    }

    /// Takes `event`, moves on, and says what to print and do next.
    pub fn step(&mut self, event: Event) -> (s: Step)
        requires
            accepts(old(self)@.stage, event@),
        ensures
            (final(self)@, s@) == doctor_next(old(self)@, event@),
            consistent(old(self)@) ==> !(s@.effect matches EffectView::Finish(
                Err(Fault::NoParentDirectory(_)),
            )),
    {
        match event {
            Event::Start => {
                self.stage = Stage::Resources;
                let mut header = "capshift doctor".to_string();
                if self.fix {
                    header.append(" --fix");
                } else {
                    assert(header@ =~= header_line(false));
                }
                Step { lines: texts1(header), effect: query_brew_prefix() }
            },
            Event::Captured(out) => match self.stage {
                Stage::Resources => match brew_prefix(&out) {
                    Err(e) => self.stop_with(e),
                    Ok(p) => {
                        self.stage = Stage::Cask;
                        self.resources = resources_dir(p.as_str());
                        self.prefix = p;
                        let lines: Vec<String> = Vec::new();
                        assert(texts(lines@) =~= Seq::<Seq<char>>::empty());
                        Step { lines, effect: probe_cask() }
                    },
                },
                Stage::MenuUid => match uid(&out) {
                    Err(e) => self.stop_with(e),
                    Ok(u) => {
                        self.stage = Stage::MenuPlist;
                        self.menu_domain = menu_domain(u.as_str());
                        let lines: Vec<String> = Vec::new();
                        assert(texts(lines@) =~= Seq::<Seq<char>>::empty());
                        Step { lines, effect: Effect::PathExists(self.menu_destination.clone()) }
                    },
                },
                _ => match uid(&out) {
                    Err(e) => self.stop_with(e),
                    Ok(u) => match parent_of(self.menu_destination.as_str()) {
                        None => {
                            let dest = self.menu_destination.clone();
                            self.stop_with(DoctorError::NoParentDirectory(dest))
                        },
                        Some(_) => {
                            let source = join_path(self.resources.as_str(), MENU_PLIST);
                            let command = install_menu(
                                source.as_str(),
                                self.menu_destination.as_str(),
                                true,
                                u.as_str(),
                            );
                            match command {
                                Ok(c) => {
                                    self.stage = Stage::MenuRepair;
                                    let lines: Vec<String> = Vec::new();
                                    assert(texts(lines@) =~= Seq::<Seq<char>>::empty());
                                    Step { lines, effect: Effect::RepairShell(c) }
                                },
                                Err(e) => self.stop_with(e),
                            }
                        },
                    },
                },
            },
            Event::Answer(present) => match self.stage {
                Stage::DriverDaemon => {
                    self.stage = Stage::KvhdLoaded;
                    self.healthy = self.healthy && present;
                    let line = if present {
                        "✓ Karabiner VirtualHID daemon executable is present".to_string()
                    } else {
                        "✗ Karabiner VirtualHID daemon executable is missing".to_string()
                    };
                    Step { lines: texts1(line), effect: probe_launchd(system_service(KVHD_LABEL)) }
                },
                Stage::KvhdPlist => {
                    if present && self.kvhd_loaded {
                        self.go_service(
                            texts1("✓ VirtualHID root LaunchDaemon is installed and loaded".to_string()),
                        )
                    } else {
                        let lines = texts1(
                            "✗ VirtualHID root LaunchDaemon is not installed and loaded".to_string(),
                        );
                        self.healthy = false;
                        if self.fix {
                            self.stage = Stage::KvhdSource;
                            Step {
                                lines,
                                effect: Effect::PathExists(
                                    join_path(self.resources.as_str(), KVHD_PLIST),
                                ),
                            }
                        } else {
                            self.go_service(lines)
                        }
                    }
                },
                Stage::KvhdSource => {
                    let source = join_path(self.resources.as_str(), KVHD_PLIST);
                    let destination = kvhd_destination();
                    match install_kvhd(source.as_str(), destination.as_str(), present) {
                        Ok(c) => {
                            self.stage = Stage::KvhdRepair;
                            let lines: Vec<String> = Vec::new();
                            assert(texts(lines@) =~= Seq::<Seq<char>>::empty());
                            Step { lines, effect: Effect::RepairPrivileged(c) }
                        },
                        Err(e) => self.stop_with(e),
                    }
                },
                Stage::MenuPlist => {
                    if present {
                        self.stage = Stage::MenuLoaded;
                        let lines: Vec<String> = Vec::new();
                        assert(texts(lines@) =~= Seq::<Seq<char>>::empty());
                        Step { lines, effect: probe_launchd(self.menu_domain.clone()) }
                    } else {
                        self.go_menu_failed()
                    }
                },
                Stage::MenuSource => {
                    if present {
                        if parent_of(self.menu_destination.as_str()).is_none() {
                            let dest = self.menu_destination.clone();
                            return self.stop_with(DoctorError::NoParentDirectory(dest));
                        }
                        self.stage = Stage::MenuRepairUid;
                        let lines: Vec<String> = Vec::new();
                        assert(texts(lines@) =~= Seq::<Seq<char>>::empty());
                        Step { lines, effect: query_uid() }
                    } else {
                        let source = join_path(self.resources.as_str(), MENU_PLIST);
                        self.stop_with(DoctorError::MissingResource(source))
                    }
                },
                _ => {
                    if present {
                        let mut line = "✓ shared configuration exists: ".to_string();
                        line.append(CONFIG_PATH);
                        self.go_end(texts1(line))
                    } else {
                        let mut line = "✗ shared configuration is missing: ".to_string();
                        line.append(CONFIG_PATH);
                        let lines = texts1(line);
                        self.healthy = false;
                        if self.fix {
                            self.stage = Stage::ConfigRepair;
                            Step {
                                lines,
                                effect: Effect::RepairPrivileged(
                                    "brew services restart capshift".to_string(),
                                ),
                            }
                        } else {
                            self.go_end(lines)
                        }
                    }
                },
            },
            Event::Home(home) => match home {
                None => self.stop_with(DoctorError::HomeNotSet),
                Some(h) => {
                    self.stage = Stage::MenuUid;
                    let dir = user_launch_agents_dir(h.as_str());
                    self.menu_destination = join_path(dir.as_str(), MENU_PLIST);
                    let lines: Vec<String> = Vec::new();
                    assert(texts(lines@) =~= Seq::<Seq<char>>::empty());
                    Step { lines, effect: query_uid() }
                },
            },
            Event::Ran(r) => match self.stage {
                Stage::Cask => {
                    if probe_passed(&r) {
                        self.go_driver_daemon(
                            texts1("✓ VirtualHID driver cask is installed".to_string()),
                        )
                    } else {
                        self.healthy = false;
                        if self.fix {
                            self.stage = Stage::CaskInstall;
                            let mut installing = "  installing ".to_string();
                            installing.append(DRIVER_CASK);
                            installing.append("…");
                            Step {
                                lines: texts2(
                                    "✗ VirtualHID driver cask is not installed".to_string(),
                                    installing,
                                ),
                                effect: install_cask(),
                            }
                        } else {
                            self.go_driver_daemon(
                                texts1("✗ VirtualHID driver cask is not installed".to_string()),
                            )
                        }
                    }
                },
                Stage::CaskInstall => match run_command("brew", &r) {
                    Err(e) => self.stop_with(e),
                    Ok(()) => {
                        let lines: Vec<String> = Vec::new();
                        assert(texts(lines@) =~= Seq::<Seq<char>>::empty());
                        self.go_driver_daemon(lines)
                    },
                },
                Stage::KvhdLoaded => {
                    self.stage = Stage::KvhdPlist;
                    self.kvhd_loaded = probe_passed(&r);
                    let lines: Vec<String> = Vec::new();
                    assert(texts(lines@) =~= Seq::<Seq<char>>::empty());
                    Step { lines, effect: Effect::PathExists(kvhd_destination()) }
                },
                Stage::KvhdRepair => match run_privileged(&r) {
                    Err(e) => self.stop_with(e),
                    Ok(()) => self.go_service(
                        texts1("  repaired VirtualHID root LaunchDaemon".to_string()),
                    ),
                },
                Stage::ServiceLoaded => {
                    if probe_passed(&r) {
                        self.go_home(texts1("✓ capshift root service is loaded".to_string()))
                    } else {
                        self.healthy = false;
                        let lines = texts1("✗ capshift root service is not loaded".to_string());
                        if self.fix {
                            self.stage = Stage::ServiceStart;
                            Step {
                                lines,
                                effect: Effect::RepairPrivileged(
                                    "brew services start capshift".to_string(),
                                ),
                            }
                        } else {
                            self.go_home(lines)
                        }
                    }
                },
                Stage::ServiceStart => match run_privileged(&r) {
                    Err(e) => self.stop_with(e),
                    Ok(()) => self.go_home(texts1("  started capshift root service".to_string())),
                },
                Stage::MenuLoaded => {
                    if probe_passed(&r) {
                        self.go_config(
                            texts1("✓ menu-bar LaunchAgent is installed and loaded".to_string()),
                        )
                    } else {
                        self.go_menu_failed()
                    }
                },
                Stage::MenuRepair => match run_shell(&r) {
                    Err(e) => self.stop_with(e),
                    Ok(()) => self.go_config(
                        texts1("  repaired menu-bar LaunchAgent".to_string()),
                    ),
                },
                Stage::Accessibility => {
                    self.stage = Stage::Done;
                    let lines: Vec<String> = Vec::new();
                    assert(texts(lines@) =~= Seq::<Seq<char>>::empty());
                    Step { lines, effect: Effect::Finish(Ok(())) }
                },
                _ => match run_privileged(&r) {
                    Err(e) => self.stop_with(e),
                    Ok(()) => self.go_end(
                        texts1(
                            "  started capshift so it can create its starter config".to_string(),
                        ),
                    ),
                },
            },
        }
    }
}


// ------------------------------------------------------------------- laws

/// Whether `effect` changes the system.
pub open spec fn is_repair(effect: EffectView) -> bool {
    effect is Repair || effect is RepairShell || effect is RepairPrivileged || effect is OpenSettings
}

/// Whether `s` is a stage that only a repairing run reaches.
pub open spec fn repairing_stage(s: Stage) -> bool {
    s == Stage::CaskInstall || s == Stage::KvhdSource || s == Stage::KvhdRepair || s
        == Stage::ServiceStart || s == Stage::MenuSource || s == Stage::MenuRepairUid || s
        == Stage::MenuRepair || s == Stage::ConfigRepair || s == Stage::Accessibility
}

/// What holds of every doctor that `Doctor::new` and `step` make: a run
/// without `--fix` never waits on a repair, and once the menu companion's
/// destination is known it ends in a file name.
pub open spec fn consistent(d: DoctorView) -> bool {
    &&& !d.fix ==> !repairing_stage(d.stage)
    &&& (rank(Stage::Home) < rank(d.stage) && d.stage != Stage::Done) ==> ends_in_name(
        d.menu_destination,
    )
}

/// Every step keeps a doctor consistent.
pub proof fn step_keeps_consistent(d: DoctorView, e: EventView)
    requires
        consistent(d),
        accepts(d.stage, e),
    ensures
        consistent(doctor_next(d, e).0),
{
    if let EventView::Home(Some(home)) = e {
        menu_plist_ends_paths(launch_agents_dir_of(home));
    }
}

/// Without `--fix` the doctor only looks; no step repairs anything or
/// opens a settings pane.
pub proof fn dry_run_repairs_nothing(d: DoctorView, e: EventView)
    requires
        consistent(d),
        !d.fix,
        accepts(d.stage, e),
    ensures
        !is_repair(doctor_next(d, e).1.effect),
{
}

/// The doctor asks for administrator rights only for system-level
/// repairs: installing the driver helper as a root LaunchDaemon, starting
/// the root service, and restarting it to create the shared configuration.
/// The menu companion is repaired as the user.
pub proof fn only_system_repairs_are_privileged(d: DoctorView, e: EventView)
    requires
        accepts(d.stage, e),
    ensures
        doctor_next(d, e).1.effect matches EffectView::RepairPrivileged(c) ==> {
            ||| c == kvhd_install_command(
                packaged(d.resources, KVHD_PLIST@),
                kvhd_destination_path(),
            )
            ||| c == service_start_command()
            ||| c == service_restart_command()
        },
        doctor_next(d, e).1.effect is RepairShell ==> d.stage == Stage::MenuRepairUid,
{
}

/// Once a check has failed the run stays unhealthy, and `--fix` does
/// not change during a run.
pub proof fn health_only_gets_worse(d: DoctorView, e: EventView)
    requires
        accepts(d.stage, e),
    ensures
        doctor_next(d, e).0.healthy ==> d.healthy,
        doctor_next(d, e).0.fix == d.fix,
{
}

/// Every step moves the doctor to a later stage, so a run ends after
/// at most twenty-one steps.
pub proof fn steps_advance(d: DoctorView, e: EventView)
    requires
        accepts(d.stage, e),
    ensures
        rank(doctor_next(d, e).0.stage) > rank(d.stage),
        rank(doctor_next(d, e).0.stage) <= rank(Stage::Done),
{
}

/// A run ends exactly when a step's effect is `Finish`, and after that
/// the doctor takes no more events.
pub proof fn finish_ends_the_run(d: DoctorView, e: EventView)
    requires
        accepts(d.stage, e),
    ensures
        (doctor_next(d, e).0.stage == Stage::Done) <==> (doctor_next(d, e).1.effect is Finish),
        doctor_next(d, e).0.stage == Stage::Done ==> forall|e2: EventView|
            !accepts(#[trigger] doctor_next(d, e).0.stage, e2),
{
}

/// Whether stage `s` waits for the result of a repair.
pub open spec fn awaits_repair(s: Stage) -> bool {
    s == Stage::CaskInstall || s == Stage::KvhdRepair || s == Stage::ServiceStart || s
        == Stage::MenuRepair || s == Stage::ConfigRepair
}

/// A repair that fails or cannot start stops the run with an error.
pub proof fn failed_repair_stops(d: DoctorView, r: RanView)
    requires
        awaits_repair(d.stage),
        !ran_ok(r),
    ensures
        doctor_next(d, EventView::Ran(r)).1.effect matches EffectView::Finish(res) && res is Err,
        doctor_next(d, EventView::Ran(r)).0.stage == Stage::Done,
{
}

/// A run without `--fix` that gets through every check ends with the
/// two notes on what cannot be automated and a summary that says the
/// installation is healthy exactly when no check failed.
pub proof fn summary_tells_health(d: DoctorView, e: EventView)
    requires
        consistent(d),
        !d.fix,
        accepts(d.stage, e),
        doctor_next(d, e).1.effect == EffectView::Finish(Ok(())),
    ensures
        d.stage == Stage::Config,
        ({
            let lines = doctor_next(d, e).1.lines;
            let healthy = doctor_next(d, e).0.healthy;
            &&& lines.len() >= 3
            &&& lines.subrange(lines.len() - 3, lines.len() as int) == closing_lines(
                healthy,
                false,
                d.prefix,
            )
            &&& lines.last() == (if healthy {
                "All repairable capshift dependencies are healthy."@
            } else {
                "Run `capshift doctor --fix` to repair the items above."@
            })
        }),
{
    let lines = doctor_next(d, e).1.lines;
    assert(lines.subrange(lines.len() - 3, lines.len() as int) =~= closing_lines(
        doctor_next(d, e).0.healthy,
        false,
        d.prefix,
    ));
}

/// A run with `--fix` that gets through every check ends by naming the
/// installed `capshift` and `capshift-menu` executables to add to
/// Accessibility permission and opening that settings pane.
pub proof fn fix_run_points_to_accessibility(d: DoctorView, e: EventView)
    requires
        d.fix,
        accepts(d.stage, e),
        doctor_next(d, e).0.stage == Stage::Accessibility,
    ensures
        doctor_next(d, e).1.effect == EffectView::OpenSettings(ACCESSIBILITY_PANE@),
        ({
            let lines = doctor_next(d, e).1.lines;
            &&& lines.len() >= 2
            &&& lines[lines.len() - 2] == accessibility_line(
                installed_binary_of(d.prefix, "capshift"@),
            )
            &&& lines.last() == accessibility_line(installed_binary_of(d.prefix, "capshift-menu"@))
        }),
{
}

/// Whether one of `lines` reports a failed check (starts with `✗`).
pub open spec fn reports_failure(lines: Seq<Seq<char>>) -> bool {
    exists|i: int| 0 <= i < lines.len() && #[trigger] lines[i].len() > 0 && lines[i][0] == '✗'
}

/// A step leaves the run healthy exactly when it was healthy and the
/// step reports no failed check; so the final summary says "healthy"
/// exactly when no `✗` line was printed.
pub proof fn health_follows_reports(d: DoctorView, e: EventView)
    requires
        accepts(d.stage, e),
    ensures
        doctor_next(d, e).0.healthy == (d.healthy && !reports_failure(doctor_next(d, e).1.lines)),
{
    reveal_strlit("  add to Accessibility: ");
    reveal_strlit("  installing ");
    reveal_strlit("  repaired VirtualHID root LaunchDaemon");
    reveal_strlit("  repaired menu-bar LaunchAgent");
    reveal_strlit("  started capshift root service");
    reveal_strlit("  started capshift so it can create its starter config");
    reveal_strlit(" --fix");
    reveal_strlit("! Accessibility permission cannot be automated. Add capshift in System Settings → Privacy & Security → Accessibility.");
    reveal_strlit("! DriverKit extension approval cannot be automated. Check System Settings → Privacy & Security if the driver is not active.");
    reveal_strlit("All repairable capshift dependencies are healthy.");
    reveal_strlit("Run `capshift doctor --fix` to repair the items above.");
    reveal_strlit("capshift doctor");
    reveal_strlit("…");
    reveal_strlit("✓ Karabiner VirtualHID daemon executable is present");
    reveal_strlit("✓ VirtualHID driver cask is installed");
    reveal_strlit("✓ VirtualHID root LaunchDaemon is installed and loaded");
    reveal_strlit("✓ capshift root service is loaded");
    reveal_strlit("✓ menu-bar LaunchAgent is installed and loaded");
    reveal_strlit("✓ shared configuration exists: ");
    reveal_strlit("✗ Karabiner VirtualHID daemon executable is missing");
    reveal_strlit("✗ VirtualHID driver cask is not installed");
    reveal_strlit("✗ VirtualHID root LaunchDaemon is not installed and loaded");
    reveal_strlit("✗ capshift root service is not loaded");
    reveal_strlit("✗ menu-bar LaunchAgent is not installed and loaded");
    reveal_strlit("✗ shared configuration is missing: ");
    let lines = doctor_next(d, e).1.lines;
    if doctor_next(d, e).0.healthy {
        assert forall|i: int| 0 <= i < lines.len() implies !(#[trigger] lines[i].len() > 0
            && lines[i][0] == '✗') by {}
    } else if d.healthy {
        assert(lines[0].len() > 0 && lines[0][0] == '✗');
    }
}

/// Whether `events`, handed to `d` one after another, are each taken.
pub open spec fn run_accepted(d: DoctorView, events: Seq<EventView>) -> bool
    decreases events.len(),
{
    events.len() == 0 || (accepts(d.stage, events[0]) && run_accepted(
        doctor_next(d, events[0]).0,
        events.drop_first(),
    ))
}

/// The doctor after `events`, handed to `d` one after another, and the
/// steps it took.
pub open spec fn run_from(d: DoctorView, events: Seq<EventView>) -> (DoctorView, Seq<StepView>)
    decreases events.len(),
{
    if events.len() == 0 {
        (d, Seq::empty())
    } else {
        let (d1, first) = doctor_next(d, events[0]);
        let (last, rest) = run_from(d1, events.drop_first());
        (last, seq![first] + rest)
    }
}

/// Over a whole run, the doctor ends healthy exactly when it started
/// healthy and no step printed a `✗` line: the summary reflects every
/// check of the run.
pub proof fn run_health_reflects_every_check(d: DoctorView, events: Seq<EventView>)
    requires
        run_accepted(d, events),
    ensures
        run_from(d, events).0.healthy == (d.healthy && forall|i: int|
            0 <= i < run_from(d, events).1.len() ==> !reports_failure(
                #[trigger] run_from(d, events).1[i].lines,
            )),
    decreases events.len(),
{
    if events.len() > 0 {
        let (d1, first) = doctor_next(d, events[0]);
        let rest = events.drop_first();
        health_follows_reports(d, events[0]);
        run_health_reflects_every_check(d1, rest);
        let steps = run_from(d, events).1;
        let tail = run_from(d1, rest).1;
        assert(steps =~= seq![first] + tail);
        if !(forall|i: int| 0 <= i < steps.len() ==> !reports_failure(#[trigger] steps[i].lines)) {
            let i = choose|i: int| 0 <= i < steps.len() && reports_failure(#[trigger] steps[i].lines);
            if i > 0 {
                assert(steps[i] == tail[i - 1]);
            }
        }
        if forall|i: int| 0 <= i < steps.len() ==> !reports_failure(#[trigger] steps[i].lines) {
            assert(steps[0] == first);
            assert forall|i: int| 0 <= i < tail.len() implies !reports_failure(
                #[trigger] tail[i].lines,
            ) by {
                assert(steps[i + 1] == tail[i]);
            }
        }
    }
}

/// Over a whole run without `--fix`, no step repairs anything or opens a
/// settings pane.
pub proof fn dry_run_changes_nothing(d: DoctorView, events: Seq<EventView>)
    requires
        consistent(d),
        !d.fix,
        run_accepted(d, events),
    ensures
        forall|i: int|
            0 <= i < run_from(d, events).1.len() ==> !is_repair(
                #[trigger] run_from(d, events).1[i].effect,
            ),
    decreases events.len(),
{
    if events.len() > 0 {
        let (d1, first) = doctor_next(d, events[0]);
        let rest = events.drop_first();
        dry_run_repairs_nothing(d, events[0]);
        step_keeps_consistent(d, events[0]);
        health_only_gets_worse(d, events[0]);
        dry_run_changes_nothing(d1, rest);
        let steps = run_from(d, events).1;
        let tail = run_from(d1, rest).1;
        assert(steps =~= seq![first] + tail);
        assert forall|i: int| 0 <= i < steps.len() implies !is_repair(
            #[trigger] steps[i].effect,
        ) by {
            if i > 0 {
                assert(steps[i] == tail[i - 1]);
            }
        }
    }
}

/// A doctor takes at most as many events as stages lie ahead of it, so
/// every run, from `Doctor::new` on, ends after at most twenty-one events.
pub proof fn runs_are_short(d: DoctorView, events: Seq<EventView>)
    requires
        run_accepted(d, events),
    ensures
        rank(d.stage) + events.len() <= rank(Stage::Done),
    decreases events.len(),
{
    if events.len() > 0 {
        steps_advance(d, events[0]);
        runs_are_short(doctor_next(d, events[0]).0, events.drop_first());
    }
}

/// Whether `s` is a stage that takes the answer of a check's probe.
pub open spec fn checking_stage(s: Stage) -> bool {
    s == Stage::Cask || s == Stage::DriverDaemon || s == Stage::KvhdLoaded || s
        == Stage::KvhdPlist || s == Stage::ServiceLoaded || s == Stage::MenuPlist || s
        == Stage::MenuLoaded || s == Stage::Config
}

/// A check's verdict depends only on what its probes found, never on
/// `--fix`: with and without it, a step at a check prints the same first
/// line and leaves the run equally healthy.
pub proof fn check_verdict_ignores_fix(d: DoctorView, e: EventView)
    requires
        checking_stage(d.stage),
        accepts(d.stage, e),
    ensures
        ({
            let other = DoctorView { fix: !d.fix, ..d };
            &&& doctor_next(d, e).1.lines.take(1) == doctor_next(other, e).1.lines.take(1)
            &&& doctor_next(d, e).0.healthy == doctor_next(other, e).0.healthy
            &&& doctor_next(d, e).0.kvhd_loaded == doctor_next(other, e).0.kvhd_loaded
        }),
{
    let other = DoctorView { fix: !d.fix, ..d };
    assert(doctor_next(d, e).1.lines.take(1) =~= doctor_next(other, e).1.lines.take(1));
}

/// The driver cask check: a successful `brew list --cask` reports the cask
/// installed and keeps the run's health; any other outcome reports it
/// missing and makes the run unhealthy.
pub proof fn cask_check_reports(d: DoctorView, r: RanView)
    requires
        d.stage == Stage::Cask,
    ensures
        ({
            let (n, s) = doctor_next(d, EventView::Ran(r));
            &&& s.lines.len() >= 1
            &&& (r matches RanView::Exited { success: true, .. }) ==> {
                &&& s.lines == seq!["✓ VirtualHID driver cask is installed"@]
                &&& n.healthy == d.healthy
                &&& s.effect == EffectView::PathExists(DRIVER_DAEMON@)
            }
            &&& !(r matches RanView::Exited { success: true, .. }) ==> {
                &&& s.lines[0] == "✗ VirtualHID driver cask is not installed"@
                &&& !n.healthy
            }
        }),
{
}

/// The driver daemon check reports the executable present exactly when it
/// exists, and a missing one makes the run unhealthy.
pub proof fn driver_daemon_check_reports(d: DoctorView, present: bool)
    requires
        d.stage == Stage::DriverDaemon,
    ensures
        ({
            let (n, s) = doctor_next(d, EventView::Answer(present));
            &&& s.lines == seq![
                if present {
                    "✓ Karabiner VirtualHID daemon executable is present"@
                } else {
                    "✗ Karabiner VirtualHID daemon executable is missing"@
                },
            ]
            &&& n.healthy == (d.healthy && present)
        }),
{
}

/// The driver helper counts as loaded exactly when `launchctl print` of its
/// system domain succeeded.
pub proof fn kvhd_loaded_follows_launchctl(d: DoctorView, r: RanView)
    requires
        d.stage == Stage::KvhdLoaded,
    ensures
        doctor_next(d, EventView::Ran(r)).0.kvhd_loaded <==> (r matches RanView::Exited {
            success: true,
            ..
        }),
        doctor_next(d, EventView::Ran(r)).0.healthy == d.healthy,
{
}

/// The driver helper check passes only when its property list exists in
/// `/Library/LaunchDaemons` and launchd has it loaded; a missing list or an
/// unloaded helper reports the LaunchDaemon broken and makes the run
/// unhealthy.
pub proof fn kvhd_check_reports(d: DoctorView, present: bool)
    requires
        d.stage == Stage::KvhdPlist,
    ensures
        ({
            let (n, s) = doctor_next(d, EventView::Answer(present));
            &&& s.lines.len() == 1
            &&& (s.lines[0] == "✓ VirtualHID root LaunchDaemon is installed and loaded"@) <==> (
            present && d.kvhd_loaded)
            &&& (present && d.kvhd_loaded) ==> {
                &&& n.healthy == d.healthy
                &&& s.effect == EffectView::Probe {
                    program: "launchctl"@,
                    args: seq!["print"@, "system/"@ + DAEMON_LABEL@],
                }
            }
            &&& !(present && d.kvhd_loaded) ==> {
                &&& s.lines[0] == "✗ VirtualHID root LaunchDaemon is not installed and loaded"@
                &&& !n.healthy
            }
        }),
{
    reveal_strlit("✓ VirtualHID root LaunchDaemon is installed and loaded");
    reveal_strlit("✗ VirtualHID root LaunchDaemon is not installed and loaded");
    let s = doctor_next(d, EventView::Answer(present)).1;
    if !(present && d.kvhd_loaded) {
        assert(s.lines[0][0] != "✓ VirtualHID root LaunchDaemon is installed and loaded"@[0]);
    }
}

/// The capshift service check: a successful `launchctl print` reports the
/// service loaded and keeps the run's health; any other outcome reports it
/// not loaded and makes the run unhealthy.
pub proof fn service_check_reports(d: DoctorView, r: RanView)
    requires
        d.stage == Stage::ServiceLoaded,
    ensures
        ({
            let (n, s) = doctor_next(d, EventView::Ran(r));
            &&& (r matches RanView::Exited { success: true, .. }) ==> {
                &&& s.lines == seq!["✓ capshift root service is loaded"@]
                &&& n.healthy == d.healthy
                &&& s.effect == EffectView::LookupHome
            }
            &&& !(r matches RanView::Exited { success: true, .. }) ==> {
                &&& s.lines == seq!["✗ capshift root service is not loaded"@]
                &&& !n.healthy
            }
        }),
{
}

/// A menu property list that is not installed reports the menu agent
/// broken and makes the run unhealthy.
pub proof fn missing_menu_plist_reports(d: DoctorView)
    requires
        d.stage == Stage::MenuPlist,
    ensures
        doctor_next(d, EventView::Answer(false)).1.lines == seq![
            "✗ menu-bar LaunchAgent is not installed and loaded"@,
        ],
        !doctor_next(d, EventView::Answer(false)).0.healthy,
{
}

/// The menu agent check: when launchd has the agent loaded the step reports
/// it installed and loaded, keeps the run's health and goes on to the
/// shared configuration, with or without `--fix`; otherwise it reports the
/// agent broken and makes the run unhealthy.
pub proof fn menu_check_reports(d: DoctorView, r: RanView)
    requires
        d.stage == Stage::MenuLoaded,
    ensures
        ({
            let (n, s) = doctor_next(d, EventView::Ran(r));
            &&& (r matches RanView::Exited { success: true, .. }) ==> {
                &&& s.lines == seq!["✓ menu-bar LaunchAgent is installed and loaded"@]
                &&& n.healthy == d.healthy
                &&& n.stage == Stage::Config
                &&& s.effect == EffectView::PathExists(CONFIG_PATH@)
            }
            &&& !(r matches RanView::Exited { success: true, .. }) ==> {
                &&& s.lines == seq!["✗ menu-bar LaunchAgent is not installed and loaded"@]
                &&& !n.healthy
            }
        }),
{
}

/// The shared configuration check: when the file exists the step reports it
/// and asks for no repair, with or without `--fix`; the run's health stays,
/// and the run ends (a repairing run by opening the Accessibility pane).
/// When the file is missing the step reports it, makes the run unhealthy,
/// and, exactly with `--fix`, restarts the service with administrator
/// rights so that it writes the starter configuration.
pub proof fn config_check_reports(d: DoctorView, present: bool)
    requires
        d.stage == Stage::Config,
    ensures
        ({
            let (n, s) = doctor_next(d, EventView::Answer(present));
            &&& s.lines.len() >= 1
            &&& present ==> {
                &&& s.lines[0] == "✓ shared configuration exists: "@ + CONFIG_PATH@
                &&& n.healthy == d.healthy
                &&& s.effect == (if d.fix {
                    EffectView::OpenSettings(ACCESSIBILITY_PANE@)
                } else {
                    EffectView::Finish(Ok(()))
                })
            }
            &&& !present ==> {
                &&& s.lines[0] == "✗ shared configuration is missing: "@ + CONFIG_PATH@
                &&& !n.healthy
                &&& (s.effect == EffectView::RepairPrivileged("brew services restart capshift"@)
                    <==> d.fix)
            }
        }),
{
    let (n, s) = doctor_next(d, EventView::Answer(present));
    if !present && !d.fix {
        assert(!(s.effect is RepairPrivileged));
    }
}

} // verus!
