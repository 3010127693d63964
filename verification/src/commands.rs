//! The names, paths and command lines that capshift's service repairs use,
//! the errors they can end in, and what each outside command's result means.

use vstd::prelude::*;
use vstd::utf8::{decode_utf8, valid_utf8};
use crate::quoting::{
    applescript_escape,
    applescript_escape_reads_back,
    applescript_escaped,
    read_shell_word,
    read_string_body,
    shell_quote,
    shell_quote_reads_back,
    shell_quoted,
};
use crate::text::{
    decode_strict,
    lemma_run_len_back,
    run_len_back,
    trim,
    trimmed,
    utf8_error_message,
};

verus! {

broadcast use vstd::string::group_string_axioms;

/// The Homebrew cask that ships the Karabiner VirtualHID driver.
pub const DRIVER_CASK: &'static str = "njreid/capshift/karabiner-driverkit-virtualhiddevice";

/// The cask's short name, as `brew list --cask` knows it.
pub const DRIVER_CASK_NAME: &'static str = "karabiner-driverkit-virtualhiddevice";

/// The launchd label of the VirtualHID driver helper.
pub const KVHD_LABEL: &'static str = "dev.njreid.capshift.kvhd";

/// The launchd label of the menu-bar companion.
pub const MENU_LABEL: &'static str = "dev.njreid.capshift-menu";

/// The launchd label under which Homebrew runs the capshift daemon.
pub const DAEMON_LABEL: &'static str = "homebrew.mxcl.capshift";

/// The property list of the driver helper.
pub const KVHD_PLIST: &'static str = "dev.njreid.capshift.kvhd.plist";

/// The property list of the menu-bar companion.
pub const MENU_PLIST: &'static str = "dev.njreid.capshift-menu.plist";

/// The Karabiner VirtualHID daemon executable.
pub const DRIVER_DAEMON: &'static str = "/Library/Application Support/org.pqrs/Karabiner-DriverKit-VirtualHIDDevice/Applications/Karabiner-VirtualHIDDevice-Daemon.app/Contents/MacOS/Karabiner-VirtualHIDDevice-Daemon";

/// Where root LaunchDaemons are installed.
pub const LAUNCH_DAEMONS_DIR: &'static str = "/Library/LaunchDaemons";

/// The shared configuration file that the root daemon reads.
pub const CONFIG_PATH: &'static str = "/Library/Application Support/capshift/config.kdl";

// ------------------------------------------------------------------ errors

/// Why a check or a repair could not go on. Where an underlying error
/// caused it, the variant holds that error's message as its cause.
#[derive(Debug)]
pub enum DoctorError {
    /// `brew --prefix capshift` could not be started; holds why.
    BrewNotStarted(String),
    /// `brew --prefix capshift` failed.
    NotInstalledByHomebrew,
    /// Homebrew's prefix is not UTF-8; holds the decoding error's message.
    NonUtf8Prefix(String),
    /// `HOME` is not set.
    HomeNotSet,
    /// `id -u` could not be started; holds why.
    UserIdNotStarted(String),
    /// `id -u` failed.
    UserIdUnavailable,
    /// `id -u` printed something that is not UTF-8; holds the decoding
    /// error's message.
    NonUtf8UserId(String),
    /// A packaged file is missing; holds its path.
    MissingResource(String),
    /// A path has no parent directory; holds the path.
    NoParentDirectory(String),
    /// A program could not be started; holds its name and why.
    CommandNotStarted(String, String),
    /// A program failed; holds its name and how it exited.
    CommandFailed(String, String),
    /// `/bin/sh` could not be started for the menu repair; holds why.
    MenuRepairNotStarted(String),
    /// The menu repair's shell command failed.
    MenuRepairFailed,
    /// `osascript` could not be started for the administrator prompt; holds why.
    PromptNotStarted(String),
    /// The command run with administrator privileges failed.
    AdministratorCommandFailed,
}

/// A `DoctorError` as values.
pub enum Fault {
    BrewNotStarted(Seq<char>),
    NotInstalledByHomebrew,
    NonUtf8Prefix(Seq<char>),
    HomeNotSet,
    UserIdNotStarted(Seq<char>),
    UserIdUnavailable,
    NonUtf8UserId(Seq<char>),
    MissingResource(Seq<char>),
    NoParentDirectory(Seq<char>),
    CommandNotStarted(Seq<char>, Seq<char>),
    CommandFailed(Seq<char>, Seq<char>),
    MenuRepairNotStarted(Seq<char>),
    MenuRepairFailed,
    PromptNotStarted(Seq<char>),
    AdministratorCommandFailed,
}

impl View for DoctorError {
    type V = Fault;

    open spec fn view(&self) -> Fault {
        match self {
            DoctorError::BrewNotStarted(c) => Fault::BrewNotStarted(c@),
            DoctorError::NotInstalledByHomebrew => Fault::NotInstalledByHomebrew,
            DoctorError::NonUtf8Prefix(c) => Fault::NonUtf8Prefix(c@),
            DoctorError::HomeNotSet => Fault::HomeNotSet,
            DoctorError::UserIdNotStarted(c) => Fault::UserIdNotStarted(c@),
            DoctorError::UserIdUnavailable => Fault::UserIdUnavailable,
            DoctorError::NonUtf8UserId(m) => Fault::NonUtf8UserId(m@),
            DoctorError::MissingResource(p) => Fault::MissingResource(p@),
            DoctorError::NoParentDirectory(p) => Fault::NoParentDirectory(p@),
            DoctorError::CommandNotStarted(p, c) => Fault::CommandNotStarted(p@, c@),
            DoctorError::CommandFailed(p, s) => Fault::CommandFailed(p@, s@),
            DoctorError::MenuRepairNotStarted(c) => Fault::MenuRepairNotStarted(c@),
            DoctorError::MenuRepairFailed => Fault::MenuRepairFailed,
            DoctorError::PromptNotStarted(c) => Fault::PromptNotStarted(c@),
            DoctorError::AdministratorCommandFailed => Fault::AdministratorCommandFailed,
        }
    }
}

/// What went wrong at the level of the step that failed: the first line
/// of the report on `f`.
pub open spec fn fault_context(f: Fault) -> Seq<char> {
    match f {
        Fault::BrewNotStarted(_) => "locating capshift through Homebrew"@,
        Fault::NotInstalledByHomebrew =>
            "capshift is not installed by Homebrew; cannot locate packaged service files"@,
        Fault::NonUtf8Prefix(_) => "Homebrew returned a non-UTF-8 prefix"@,
        Fault::HomeNotSet => "HOME is not set"@,
        Fault::UserIdNotStarted(_) => "getting current user ID"@,
        Fault::UserIdUnavailable => "could not get current user ID"@,
        Fault::NonUtf8UserId(m) => m,
        Fault::MissingResource(p) => "packaged resource is missing: "@ + p,
        Fault::NoParentDirectory(p) => "path has no parent directory: "@ + p,
        Fault::CommandNotStarted(p, _) => "running "@ + p,
        Fault::CommandFailed(p, s) => p + " exited with "@ + s,
        Fault::MenuRepairNotStarted(_) => "repairing menu LaunchAgent"@,
        Fault::MenuRepairFailed => "menu LaunchAgent repair failed"@,
        Fault::PromptNotStarted(_) => "starting macOS administrator prompt"@,
        Fault::AdministratorCommandFailed => "administrator command failed"@,
    }
}

/// The underlying error that caused `f`, if any.
pub open spec fn fault_cause(f: Fault) -> Option<Seq<char>> {
    match f {
        Fault::BrewNotStarted(c) => Some(c),
        Fault::NonUtf8Prefix(c) => Some(c),
        Fault::UserIdNotStarted(c) => Some(c),
        Fault::CommandNotStarted(_, c) => Some(c),
        Fault::MenuRepairNotStarted(c) => Some(c),
        Fault::PromptNotStarted(c) => Some(c),
        _ => None,
    }
}

/// The whole message about `f`: its context, then `": "` and the cause
/// when there is one.
pub open spec fn fault_message(f: Fault) -> Seq<char> {
    match fault_cause(f) {
        Some(c) => fault_context(f) + ": "@ + c,
        None => fault_context(f),
    }
}

impl DoctorError {
    /// What went wrong at the level of the step that failed.
    pub fn context_message(&self) -> (m: String)
        ensures
            m@ == fault_context(self@),
    {
        match self {
            DoctorError::BrewNotStarted(_) => "locating capshift through Homebrew".to_string(),
            DoctorError::NotInstalledByHomebrew =>
                "capshift is not installed by Homebrew; cannot locate packaged service files".to_string(),
            DoctorError::NonUtf8Prefix(_) => "Homebrew returned a non-UTF-8 prefix".to_string(),
            DoctorError::HomeNotSet => "HOME is not set".to_string(),
            DoctorError::UserIdNotStarted(_) => "getting current user ID".to_string(),
            DoctorError::UserIdUnavailable => "could not get current user ID".to_string(),
            DoctorError::NonUtf8UserId(m) => m.clone(),
            DoctorError::MissingResource(p) => {
                let mut m = "packaged resource is missing: ".to_string();
                m.append(p.as_str());
                m
            },
            DoctorError::NoParentDirectory(p) => {
                let mut m = "path has no parent directory: ".to_string();
                m.append(p.as_str());
                m
            },
            DoctorError::CommandNotStarted(p, _) => {
                let mut m = "running ".to_string();
                m.append(p.as_str());
                m
            },
            DoctorError::CommandFailed(p, s) => {
                let mut m = p.clone();
                m.append(" exited with ");
                m.append(s.as_str());
                m
            },
            DoctorError::MenuRepairNotStarted(_) => "repairing menu LaunchAgent".to_string(),
            DoctorError::MenuRepairFailed => "menu LaunchAgent repair failed".to_string(),
            DoctorError::PromptNotStarted(_) => "starting macOS administrator prompt".to_string(),
            DoctorError::AdministratorCommandFailed => "administrator command failed".to_string(),
        }
    }

    /// The underlying error that caused this one, if any.
    pub fn cause(&self) -> (c: Option<String>)
        ensures
            match c {
                Some(t) => fault_cause(self@) == Some(t@),
                None => fault_cause(self@) is None,
            },
    {
        match self {
            DoctorError::BrewNotStarted(c) => Some(c.clone()),
            DoctorError::NonUtf8Prefix(c) => Some(c.clone()),
            DoctorError::UserIdNotStarted(c) => Some(c.clone()),
            DoctorError::CommandNotStarted(_, c) => Some(c.clone()),
            DoctorError::MenuRepairNotStarted(c) => Some(c.clone()),
            DoctorError::PromptNotStarted(c) => Some(c.clone()),
            _ => None,
        }
    }

    /// The whole message about this error: its context, then `": "` and the
    /// cause when there is one.
    pub fn message(&self) -> (m: String)
        ensures
            m@ == fault_message(self@),
    {
        let mut m = self.context_message();
        match self.cause() {
            Some(c) => {
                m.append(": ");
                m.append(c.as_str());
            },
            None => {},
        }
        m
    }
}

/// A text result as values.
pub open spec fn text_result(r: Result<String, DoctorError>) -> Result<Seq<char>, Fault> {
    match r {
        Ok(s) => Ok(s@),
        Err(e) => Err(e@),
    }
}

/// A unit result as values.
pub open spec fn unit_result(r: Result<(), DoctorError>) -> Result<(), Fault> {
    match r {
        Ok(()) => Ok(()),
        Err(e) => Err(e@),
    }
}

// ------------------------------------------------- what outside commands did

/// How a program that was asked to run ended.
#[derive(Debug)]
pub enum Ran {
    /// It could not be started; holds why.
    NotStarted(String),
    /// It ran; whether it succeeded, and its exit status as text.
    Exited { success: bool, status: String },
}

/// A `Ran` as values.
pub enum RanView {
    NotStarted(Seq<char>),
    Exited { success: bool, status: Seq<char> },
}

impl View for Ran {
    type V = RanView;

    open spec fn view(&self) -> RanView {
        match self {
            Ran::NotStarted(c) => RanView::NotStarted(c@),
            Ran::Exited { success, status } => RanView::Exited { success: *success, status: status@ },
        }
    }
}

/// How a program whose output is read ended.
#[derive(Debug)]
pub enum Captured {
    /// It could not be started; holds why.
    NotStarted(String),
    /// It ran; whether it succeeded, and what it wrote to standard output.
    Exited { success: bool, stdout: Vec<u8> },
}

/// A `Captured` as values.
pub enum CapturedView {
    NotStarted(Seq<char>),
    Exited { success: bool, stdout: Seq<u8> },
}

impl View for Captured {
    type V = CapturedView;

    open spec fn view(&self) -> CapturedView {
        match self {
            Captured::NotStarted(c) => CapturedView::NotStarted(c@),
            Captured::Exited { success, stdout } => CapturedView::Exited {
                success: *success,
                stdout: stdout@,
            },
        }
    }
}

/// What running `program` with arguments means for the doctor.
pub open spec fn program_outcome(program: Seq<char>, ran: RanView) -> Result<(), Fault> {
    match ran {
        RanView::NotStarted(c) => Err(Fault::CommandNotStarted(program, c)),
        RanView::Exited { success, status } => if success {
            Ok(())
        } else {
            Err(Fault::CommandFailed(program, status))
        },
    }
}

/// What a run of `program` means: success, or the error that names it.
pub fn run_command(program: &str, ran: &Ran) -> (r: Result<(), DoctorError>)
    ensures
        unit_result(r) == program_outcome(program@, ran@),
{
    match ran {
        Ran::NotStarted(c) => Err(DoctorError::CommandNotStarted(program.to_owned(), c.clone())),
        Ran::Exited { success, status } => if *success {
            Ok(())
        } else {
            Err(DoctorError::CommandFailed(program.to_owned(), status.clone()))
        },
    }
}

/// What running the menu repair through `/bin/sh -c` means for the doctor.
pub open spec fn shell_outcome(ran: RanView) -> Result<(), Fault> {
    match ran {
        RanView::NotStarted(c) => Err(Fault::MenuRepairNotStarted(c)),
        RanView::Exited { success, .. } => if success {
            Ok(())
        } else {
            Err(Fault::MenuRepairFailed)
        },
    }
}

/// What a run of the menu repair's shell command means.
pub fn run_shell(ran: &Ran) -> (r: Result<(), DoctorError>)
    ensures
        unit_result(r) == shell_outcome(ran@),
{
    match ran {
        Ran::NotStarted(c) => Err(DoctorError::MenuRepairNotStarted(c.clone())),
        Ran::Exited { success, .. } => if *success {
            Ok(())
        } else {
            Err(DoctorError::MenuRepairFailed)
        },
    }
}

/// What running a command behind the administrator prompt means.
pub open spec fn privileged_outcome(ran: RanView) -> Result<(), Fault> {
    match ran {
        RanView::NotStarted(c) => Err(Fault::PromptNotStarted(c)),
        RanView::Exited { success, .. } => if success {
            Ok(())
        } else {
            Err(Fault::AdministratorCommandFailed)
        },
    }
}

/// What a run of a command behind the administrator prompt means.
pub fn run_privileged(ran: &Ran) -> (r: Result<(), DoctorError>)
    ensures
        unit_result(r) == privileged_outcome(ran@),
{
    match ran {
        Ran::NotStarted(c) => Err(DoctorError::PromptNotStarted(c.clone())),
        Ran::Exited { success, .. } => if *success {
            Ok(())
        } else {
            Err(DoctorError::AdministratorCommandFailed)
        },
    }
}

/// The AppleScript that runs `command` through `do shell script` with
/// administrator privileges.
pub open spec fn privileged_script_text(command: Seq<char>) -> Seq<char> {
    "do shell script \""@ + applescript_escaped(command) + "\" with administrator privileges"@
}

/// The administrator prompt's script holds `command` as one AppleScript
/// string literal, so `do shell script` runs exactly `command`, whatever
/// quotes or backslashes it holds.
pub proof fn privileged_script_runs_command(command: Seq<char>)
    ensures
        ({
            let script = privileged_script_text(command);
            let head = "do shell script \""@;
            &&& script.take(head.len() as int) == head
            &&& read_string_body(script.skip(head.len() as int)) == Some(
                (command, " with administrator privileges"@),
            )
        }),
{
    reveal_strlit("\" with administrator privileges");
    reveal_strlit(" with administrator privileges");
    let head = "do shell script \""@;
    let tail = " with administrator privileges"@;
    let script = privileged_script_text(command);
    assert("\" with administrator privileges"@ =~= seq!['"'] + tail);
    assert(script =~= head + (applescript_escaped(command) + seq!['"'] + tail));
    assert(script.take(head.len() as int) =~= head);
    assert(script.skip(head.len() as int) =~= applescript_escaped(command) + seq!['"'] + tail);
    applescript_escape_reads_back(command, tail);
}

/// Builds the AppleScript that asks for administrator rights and runs `command`.
pub fn privileged_script(command: &str) -> (r: String)
    ensures
        r@ == privileged_script_text(command@),
{
    let mut s = "do shell script \"".to_string();
    let escaped = applescript_escape(command);
    s.append(escaped.as_str());
    s.append("\" with administrator privileges");
    s
}

// ------------------------------------------------------------------- paths

/// What `Path::join` gives on Unix: an absolute `rel` replaces `base`;
/// otherwise `rel` follows `base`, with a `/` between them unless `base`
/// is empty or already ends in one.
pub open spec fn joined(base: Seq<char>, rel: Seq<char>) -> Seq<char> {
    if rel.len() > 0 && rel[0] == '/' {
        rel
    } else if base.len() == 0 || base.last() == '/' {
        base + rel
    } else {
        base + seq!['/'] + rel
    }
}

/// Joins `rel` onto `base` as a Unix path.
pub fn join_path(base: &str, rel: &str) -> (r: String)
    ensures
        r@ == joined(base@, rel@),
{
    let rel_len = rel.unicode_len();
    if rel_len > 0 && rel.get_char(0) == '/' {
        return rel.to_owned();
    }
    let base_len = base.unicode_len();
    let mut r = base.to_owned();
    if !(base_len == 0 || base.get_char(base_len - 1) == '/') {
        r.append("/");
        proof {
            reveal_strlit("/");
        }
    }
    r.append(rel);
    r
}

/// The parent directory that `Path::parent` gives for `path`, if any.
pub uninterp spec fn path_parent(path: Seq<char>) -> Option<Seq<char>>;

/// The test "is not a `/`" as a predicate value.
pub open spec fn not_slash() -> spec_fn(char) -> bool {
    |c: char| c != '/'
}

/// Whether `path` ends in a file name: its last component (what follows
/// the final `/`, or all of it) is not empty and is neither `.` nor `..`.
pub open spec fn ends_in_name(path: Seq<char>) -> bool {
    let n = run_len_back(path, not_slash());
    &&& n > 0
    &&& path.skip(path.len() - n) != seq!['.']
    &&& path.skip(path.len() - n) != seq!['.', '.']
}

/// Joining a plain file name onto any directory gives a path that ends in it.
pub proof fn joined_ends_in_name(base: Seq<char>, name: Seq<char>)
    requires
        name.len() > 0,
        forall|i: int| 0 <= i < name.len() ==> name[i] != '/',
        name != seq!['.'],
        name != seq!['.', '.'],
    ensures
        ends_in_name(joined(base, name)),
        run_len_back(joined(base, name), not_slash()) == name.len(),
{
    let path = joined(base, name);
    let k = name.len() as int;
    let start = path.len() - k;
    assert(path.skip(start) =~= name);
    assert forall|j: int| path.len() - k <= j < path.len() implies #[trigger] not_slash()(path[j]) by {
        assert(path[j] == name[j - start]);
    }
    if k < path.len() {
        assert(path[path.len() - k - 1] == '/');
    }
    lemma_run_len_back(path, not_slash(), k);
}

/// The parent directory of `path`.
///
/// Calls `Path::parent` and shows the result as text. The contract names
/// the result `path_parent` and states the one case std documents plainly:
/// a path that ends in a file name has a parent (`None` comes only for an
/// empty path or one that ends in the root). How std removes the last
/// component (repeated and trailing separators, `.` components) is left
/// unsaid. This is trusted, as a restatement of std's documentation.
#[verifier::external_body]
pub(crate) fn parent_of(path: &str) -> (r: Option<String>)
    ensures
        match r {
            Some(p) => path_parent(path@) == Some(p@),
            None => path_parent(path@) is None,
        },
        ends_in_name(path@) ==> r is Some,
{
    match std::path::Path::new(path).parent() {
        Some(p) => Some(p.display().to_string()),
        None => None,
    }
}

/// Where the driver helper's property list is installed.
pub open spec fn kvhd_destination_path() -> Seq<char> {
    joined(LAUNCH_DAEMONS_DIR@, KVHD_PLIST@)
}

/// Where the driver helper's property list is installed.
pub fn kvhd_destination() -> (r: String)
    ensures
        r@ == kvhd_destination_path(),
{
    join_path(LAUNCH_DAEMONS_DIR, KVHD_PLIST)
}

/// The menu companion's property list ends every path it is joined onto.
pub proof fn menu_plist_ends_paths(base: Seq<char>)
    ensures
        ends_in_name(joined(base, MENU_PLIST@)),
{
    reveal_strlit("dev.njreid.capshift-menu.plist");
    let name = MENU_PLIST@;
    assert(name[0] == 'd');
    joined_ends_in_name(base, name);
}

/// The launchd domain of a system service with `label`.
pub open spec fn system_domain(label: Seq<char>) -> Seq<char> {
    "system/"@ + label
}

/// The launchd domain of the system service `label`.
pub fn system_service(label: &str) -> (r: String)
    ensures
        r@ == system_domain(label@),
{
    let mut s = "system/".to_string();
    s.append(label);
    s
}

/// The graphical-session launchd domain of the user `uid`.
pub open spec fn gui_domain(uid: Seq<char>) -> Seq<char> {
    "gui/"@ + uid
}

/// The launchd domain of the menu companion in the session of `uid`.
pub open spec fn menu_domain_of(uid: Seq<char>) -> Seq<char> {
    gui_domain(uid) + "/"@ + MENU_LABEL@
}

/// The launchd domain of the menu companion in the session of `uid`.
pub fn menu_domain(uid: &str) -> (r: String)
    ensures
        r@ == menu_domain_of(uid@),
{
    let mut s = "gui/".to_string();
    s.append(uid);
    s.append("/");
    s.append(MENU_LABEL);
    s
}

/// The user's LaunchAgents directory under `home`.
pub open spec fn launch_agents_dir_of(home: Seq<char>) -> Seq<char> {
    joined(home, "Library/LaunchAgents"@)
}

/// The user's LaunchAgents directory under `home`.
pub fn user_launch_agents_dir(home: &str) -> (r: String)
    ensures
        r@ == launch_agents_dir_of(home@),
{
    join_path(home, "Library/LaunchAgents")
}

/// The System Settings URL of the Accessibility privacy pane.
pub const ACCESSIBILITY_PANE: &'static str =
    "x-apple.systempreferences:com.apple.preference.security?Privacy_Accessibility";

/// What `brew --prefix capshift` means: capshift's installation prefix, or
/// why it cannot be found.
pub open spec fn brew_prefix_of(out: CapturedView) -> Result<Seq<char>, Fault> {
    match out {
        CapturedView::NotStarted(c) => Err(Fault::BrewNotStarted(c)),
        CapturedView::Exited { success, stdout } => if !success {
            Err(Fault::NotInstalledByHomebrew)
        } else if !valid_utf8(stdout) {
            Err(Fault::NonUtf8Prefix(utf8_error_message(stdout)))
        } else {
            Ok(trimmed(decode_utf8(stdout)))
        },
    }
}

/// capshift's installation prefix, from the output of `brew --prefix capshift`.
pub fn brew_prefix(out: &Captured) -> (r: Result<String, DoctorError>)
    ensures
        text_result(r) == brew_prefix_of(out@),
{
    match out {
        Captured::NotStarted(c) => Err(DoctorError::BrewNotStarted(c.clone())),
        Captured::Exited { success, stdout } => {
            if !*success {
                return Err(DoctorError::NotInstalledByHomebrew);
            }
            match decode_strict(stdout.clone()) {
                Err(m) => Err(DoctorError::NonUtf8Prefix(m)),
                Ok(text) => Ok(trim(text.as_str())),
            }
        },
    }
}

/// The directory of packaged service files under the installation `prefix`.
pub open spec fn resources_dir_of(prefix: Seq<char>) -> Seq<char> {
    joined(prefix, "share/capshift"@)
}

/// The directory of packaged service files under the installation `prefix`.
pub fn resources_dir(prefix: &str) -> (r: String)
    ensures
        r@ == resources_dir_of(prefix@),
{
    join_path(prefix, "share/capshift")
}

/// What `brew --prefix capshift` means for the packaged service files:
/// their directory, or why it cannot be found.
pub open spec fn located_resources(out: CapturedView) -> Result<Seq<char>, Fault> {
    match brew_prefix_of(out) {
        Ok(prefix) => Ok(resources_dir_of(prefix)),
        Err(f) => Err(f),
    }
}

/// The directory of packaged service files, from the output of
/// `brew --prefix capshift`.
pub fn installed_resources(out: &Captured) -> (r: Result<String, DoctorError>)
    ensures
        text_result(r) == located_resources(out@),
{
    match brew_prefix(out) {
        Ok(prefix) => Ok(resources_dir(prefix.as_str())),
        Err(e) => Err(e),
    }
}

/// The installed executable `name` under the installation `prefix`.
pub open spec fn installed_binary_of(prefix: Seq<char>, name: Seq<char>) -> Seq<char> {
    joined(joined(prefix, "bin"@), name)
}

/// The installed executable `name` under the installation `prefix`.
pub fn installed_binary(prefix: &str, name: &str) -> (r: String)
    ensures
        r@ == installed_binary_of(prefix@, name@),
{
    let bin = join_path(prefix, "bin");
    join_path(bin.as_str(), name)
}

/// What `id -u` means: the current user ID, or why it is unknown.
pub open spec fn user_id_of(out: CapturedView) -> Result<Seq<char>, Fault> {
    match out {
        CapturedView::NotStarted(c) => Err(Fault::UserIdNotStarted(c)),
        CapturedView::Exited { success, stdout } => if !success {
            Err(Fault::UserIdUnavailable)
        } else if !valid_utf8(stdout) {
            Err(Fault::NonUtf8UserId(utf8_error_message(stdout)))
        } else {
            Ok(trimmed(decode_utf8(stdout)))
        },
    }
}

/// The current user ID, from the output of `id -u`.
pub fn uid(out: &Captured) -> (r: Result<String, DoctorError>)
    ensures
        text_result(r) == user_id_of(out@),
{
    match out {
        Captured::NotStarted(c) => Err(DoctorError::UserIdNotStarted(c.clone())),
        Captured::Exited { success, stdout } => {
            if !*success {
                return Err(DoctorError::UserIdUnavailable);
            }
            match decode_strict(stdout.clone()) {
                Err(m) => Err(DoctorError::NonUtf8UserId(m)),
                Ok(text) => Ok(trim(text.as_str())),
            }
        },
    }
}

// ----------------------------------------------------------------- repairs

/// Succeeds when the packaged file at `path` exists; else names it.
pub fn ensure_resource(path: &str, exists: bool) -> (r: Result<(), DoctorError>)
    ensures
        exists ==> r is Ok,
        !exists ==> unit_result(r) == Err::<(), Fault>(Fault::MissingResource(path@)),
{
    if exists {
        Ok(())
    } else {
        Err(DoctorError::MissingResource(path.to_owned()))
    }
}

/// The shell command that installs the driver helper's property list from
/// `source` at `destination` as root and (re)loads it into launchd.
pub open spec fn kvhd_install_command(source: Seq<char>, destination: Seq<char>) -> Seq<char> {
    "install -m 644 "@ + shell_quoted(source) + " "@ + shell_quoted(destination)
        + " && chown root:wheel "@ + shell_quoted(destination)
        + " && (launchctl bootout system/"@ + KVHD_LABEL@
        + " 2>/dev/null || true) && launchctl bootstrap system "@ + shell_quoted(destination)
}

/// The driver helper's install command hands `install` the source and
/// the destination as two shell words that are exactly those paths,
/// whatever characters the paths hold.
pub proof fn kvhd_install_names_its_paths(source: Seq<char>, destination: Seq<char>)
    ensures
        ({
            let command = kvhd_install_command(source, destination);
            let head = "install -m 644 "@;
            let first = read_shell_word(command.skip(head.len() as int));
            let second = read_shell_word(first.1.drop_first());
            &&& command.take(head.len() as int) == head
            &&& first.0 == source
            &&& first.1.len() > 0 && first.1[0] == ' '
            &&& second.0 == destination
        }),
{
    reveal_strlit(" ");
    reveal_strlit(" && chown root:wheel ");
    let head = "install -m 644 "@;
    let command = kvhd_install_command(source, destination);
    let after_dst = " && chown root:wheel "@ + shell_quoted(destination)
        + " && (launchctl bootout system/"@ + KVHD_LABEL@
        + " 2>/dev/null || true) && launchctl bootstrap system "@ + shell_quoted(destination);
    let after_src = " "@ + shell_quoted(destination) + after_dst;
    assert(command =~= head + (shell_quoted(source) + after_src));
    assert(command.take(head.len() as int) =~= head);
    assert(command.skip(head.len() as int) =~= shell_quoted(source) + after_src);
    assert(" "@ =~= seq![' ']);
    assert(after_src[0] == ' ');
    shell_quote_reads_back(source, after_src);
    assert(after_src.drop_first() =~= shell_quoted(destination) + after_dst);
    assert(after_dst[0] == ' ');
    shell_quote_reads_back(destination, after_dst);
}

/// The command that repairs the driver helper, to be run with administrator
/// privileges; fails when the packaged property list is missing.
pub fn install_kvhd(source: &str, destination: &str, source_exists: bool) -> (r: Result<
    String,
    DoctorError,
>)
    ensures
        text_result(r) == (if source_exists {
            Ok(kvhd_install_command(source@, destination@))
        } else {
            Err(Fault::MissingResource(source@))
        }),
{
    match ensure_resource(source, source_exists) {
        Err(e) => return Err(e),
        Ok(()) => {},
    }
    let qs = shell_quote(source);
    let qd = shell_quote(destination);
    let mut c = "install -m 644 ".to_string();
    c.append(qs.as_str());
    c.append(" ");
    c.append(qd.as_str());
    c.append(" && chown root:wheel ");
    c.append(qd.as_str());
    c.append(" && (launchctl bootout system/");
    c.append(KVHD_LABEL);
    c.append(" 2>/dev/null || true) && launchctl bootstrap system ");
    c.append(qd.as_str());
    Ok(c)
}

/// The shell command that installs the menu companion's property list from
/// `source` at `destination` (inside `parent`) and (re)loads it into the
/// graphical session of `uid`.
pub open spec fn menu_install_command(
    source: Seq<char>,
    destination: Seq<char>,
    parent: Seq<char>,
    uid: Seq<char>,
) -> Seq<char> {
    "mkdir -p "@ + shell_quoted(parent) + " && install -m 644 "@ + shell_quoted(source) + " "@
        + shell_quoted(destination) + " && (launchctl bootout "@ + gui_domain(uid) + "/"@
        + MENU_LABEL@ + " 2>/dev/null || true) && launchctl bootstrap "@ + gui_domain(uid)
        + " "@ + shell_quoted(destination)
}

/// The command that repairs the menu companion, to be run by `/bin/sh -c`
/// as the user; fails when the packaged property list is missing.
pub fn install_menu(source: &str, destination: &str, source_exists: bool, uid: &str) -> (r:
    Result<String, DoctorError>)
    requires
        source_exists ==> path_parent(destination@) is Some,
    ensures
        text_result(r) == (if source_exists {
            Ok(menu_install_command(source@, destination@, path_parent(destination@)->0, uid@))
        } else {
            Err(Fault::MissingResource(source@))
        }),
{
    match ensure_resource(source, source_exists) {
        Err(e) => return Err(e),
        Ok(()) => {},
    }
    let parent = match parent_of(destination) {
        Some(p) => p,
        None => {
            assert(false);
            return Err(DoctorError::NoParentDirectory(destination.to_owned()));
        },
    };
    Ok(menu_repair_command(source, destination, parent.as_str(), uid))
}

/// The command that installs the menu companion's property list from
/// `source` at `destination`, after creating `parent`, and (re)loads it into
/// the graphical session of `uid`.
pub fn menu_repair_command(source: &str, destination: &str, parent: &str, uid: &str) -> (r: String)
    ensures
        r@ == menu_install_command(source@, destination@, parent@, uid@),
{
    let qp = shell_quote(parent);
    let qs = shell_quote(source);
    let qd = shell_quote(destination);
    let mut domain = "gui/".to_string();
    domain.append(uid);
    let mut c = "mkdir -p ".to_string();
    c.append(qp.as_str());
    c.append(" && install -m 644 ");
    c.append(qs.as_str());
    c.append(" ");
    c.append(qd.as_str());
    c.append(" && (launchctl bootout ");
    c.append(domain.as_str());
    c.append("/");
    c.append(MENU_LABEL);
    c.append(" 2>/dev/null || true) && launchctl bootstrap ");
    c.append(domain.as_str());
    c.append(" ");
    c.append(qd.as_str());
    c
}

} // verus!
