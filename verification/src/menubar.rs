//! The decisions of the menu-bar companion: whether the root daemon runs,
//! how the status item shows it, and the scripts its menu items launch.

use vstd::prelude::*;
use crate::commands::{
    CONFIG_PATH,
    DAEMON_LABEL,
    KVHD_LABEL,
    DoctorError,
    Fault,
    fault_message,
    unit_result,
};
use crate::quoting::{
    applescript_escape,
    applescript_escape_reads_back,
    applescript_escaped,
    read_string_body,
};
use crate::text::{
    chars_of,
    decode_lossy,
    is_white_space,
    is_whitespace,
    lemma_run_len,
    lemma_run_len_facts,
    not_white,
    run_len,
    trim_start,
    utf8_lossy,
    white,
};

verus! {

broadcast use vstd::string::group_string_axioms;

// ------------------------------------------------------------ `ps` output

/// The test "is not a line feed" as a predicate value.
pub open spec fn not_newline() -> spec_fn(char) -> bool {
    |c: char| c != '\n'
}

/// `l` without one trailing carriage return.
pub open spec fn strip_cr(l: Seq<char>) -> Seq<char> {
    if l.len() > 0 && l.last() == '\r' {
        l.drop_last()
    } else {
        l
    }
}

/// The lines of `t` as `str::lines` yields them: split at each `\n`, a
/// `\r` just before a `\n` dropped, and no empty line after a final `\n`.
pub open spec fn text_lines(t: Seq<char>) -> Seq<Seq<char>>
    decreases t.len(),
{
    if t.len() == 0 {
        Seq::empty()
    } else {
        let n = run_len(t, not_newline());
        if n >= t.len() {
            seq![t]
        } else {
            seq![strip_cr(t.take(n as int))] + text_lines(t.skip(n + 1 as int))
        }
    }
}

/// The first white-space separated word of `l`, as `split_whitespace`
/// yields it first (empty when there is none).
pub open spec fn first_word(l: Seq<char>) -> Seq<char> {
    let s = trim_start(l);
    s.take(run_len(s, not_white()) as int)
}

/// Whether `l` ends with `suffix`.
pub open spec fn ends_with(l: Seq<char>, suffix: Seq<char>) -> bool {
    suffix.len() <= l.len() && l.skip(l.len() - suffix.len()) == suffix
}

/// Whether a line of `ps -axo ppid=,comm=` shows the root daemon: a
/// `capshift` process whose parent is launchd (PID 1).
pub open spec fn is_daemon_line(l: Seq<char>) -> bool {
    &&& first_word(l) == "1"@
    &&& (ends_with(l, "/capshift"@) || ends_with(l, " capshift"@))
}

/// Whether some line of `t` shows the root daemon.
pub open spec fn lists_daemon(t: Seq<char>) -> bool {
    exists|i: int| 0 <= i < text_lines(t).len() && is_daemon_line(#[trigger] text_lines(t)[i])
}

/// Whether `t` consists of whole lines: it is empty or ends with a line feed.
pub open spec fn whole_lines(t: Seq<char>) -> bool {
    t.len() == 0 || t.last() == '\n'
}

/// The lines of whole lines followed by more text are the lines of each.
pub proof fn lemma_lines_concat(a: Seq<char>, b: Seq<char>)
    requires
        whole_lines(a),
    ensures
        text_lines(a + b) == text_lines(a) + text_lines(b),
    decreases a.len(),
{
    if a.len() == 0 {
        assert(a + b =~= b);
        assert(text_lines(a) + text_lines(b) =~= text_lines(b));
    } else {
        let p = not_newline();
        lemma_run_len_facts(a, p);
        let n = run_len(a, p) as int;
        assert(n < a.len()) by {
            if n >= a.len() {
                assert(p(a[a.len() - 1]));
            }
        }
        let ab = a + b;
        assert forall|j: int| 0 <= j < n implies #[trigger] p(ab[j]) by {
            assert(ab[j] == a[j]);
            assert(p(a[j]));
        }
        assert(ab[n] == a[n]);
        lemma_run_len(ab, p, n);
        let rest = a.skip(n + 1);
        assert(ab.take(n) =~= a.take(n));
        assert(ab.skip(n + 1) =~= rest + b);
        if rest.len() > 0 {
            assert(rest.last() == a.last());
        }
        lemma_lines_concat(rest, b);
        assert(text_lines(ab) =~= text_lines(a) + text_lines(b));
    }
}

/// Whole lines followed by more text show the daemon exactly when one of
/// the two parts does: where a line stands never matters.
pub proof fn lists_daemon_concat(a: Seq<char>, b: Seq<char>)
    requires
        whole_lines(a),
    ensures
        lists_daemon(a + b) == (lists_daemon(a) || lists_daemon(b)),
{
    lemma_lines_concat(a, b);
    let la = text_lines(a);
    let lb = text_lines(b);
    let lab = text_lines(a + b);
    if lists_daemon(a + b) {
        let i = choose|i: int| 0 <= i < lab.len() && is_daemon_line(#[trigger] lab[i]);
        if i < la.len() {
            assert(lab[i] == la[i]);
        } else {
            assert(lab[i] == lb[i - la.len()]);
        }
    }
    if lists_daemon(a) {
        let i = choose|i: int| 0 <= i < la.len() && is_daemon_line(#[trigger] la[i]);
        assert(lab[i] == la[i]);
    }
    if lists_daemon(b) {
        let i = choose|i: int| 0 <= i < lb.len() && is_daemon_line(#[trigger] lb[i]);
        assert(lab[i + la.len()] == lb[i]);
    }
}

/// A daemon line after any number of whole lines is seen: the output then
/// shows the daemon, whatever comes before it.
pub proof fn daemon_line_is_seen_anywhere(t: Seq<char>, l: Seq<char>)
    requires
        whole_lines(t),
        is_daemon_line(l),
        forall|i: int| 0 <= i < l.len() ==> l[i] != '\n',
    ensures
        lists_daemon(t + l),
        lists_daemon(t + l + seq!['\n']),
{
    reveal_strlit("/capshift");
    reveal_strlit(" capshift");
    assert(l.len() > 0);
    assert forall|j: int| 0 <= j < l.len() implies #[trigger] not_newline()(l[j]) by {}
    lemma_run_len(l, not_newline(), l.len() as int);
    assert(text_lines(l) == seq![l]);
    assert(is_daemon_line(text_lines(l)[0]));
    lists_daemon_concat(t, l);
    let ln = l + seq!['\n'];
    assert forall|j: int| 0 <= j < l.len() implies #[trigger] not_newline()(ln[j]) by {
        assert(ln[j] == l[j]);
    }
    lemma_run_len(ln, not_newline(), l.len() as int);
    assert(ln.take(l.len() as int) =~= l);
    assert(ln.skip(l.len() + 1 as int) =~= Seq::<char>::empty());
    assert(text_lines(Seq::<char>::empty()) =~= Seq::<Seq<char>>::empty());
    if ends_with(l, "/capshift"@) {
        assert(l[l.len() - 1] == l.skip(l.len() - 9)[8]);
    } else {
        assert(l[l.len() - 1] == l.skip(l.len() - 9)[8]);
    }
    assert(strip_cr(l) == l);
    assert(text_lines(ln) =~= seq![l]);
    assert(is_daemon_line(text_lines(ln)[0]));
    assert(t + l + seq!['\n'] =~= t + ln);
    lists_daemon_concat(t, ln);
}

/// Whether `text[start..end]` equals `pattern`.
fn range_equals(text: &Vec<char>, start: usize, end: usize, pattern: &Vec<char>) -> (r: bool)
    requires
        start <= end <= text@.len(),
    ensures
        r == (text@.subrange(start as int, end as int) == pattern@),
{
    if end - start != pattern.len() {
        proof {
            if text@.subrange(start as int, end as int) == pattern@ {
                assert(text@.subrange(start as int, end as int).len() == pattern@.len());
            }
        }
        return false;
    }
    let mut i: usize = 0;
    while i < pattern.len()
        invariant
            start <= end <= text@.len(),
            end - start == pattern@.len(),
            i <= pattern@.len(),
            forall|j: int| 0 <= j < i ==> text@[start + j] == pattern@[j],
        decreases pattern@.len() - i,
    {
        if text[start + i] != pattern[i] {
            proof {
                assert(text@.subrange(start as int, end as int)[i as int] == text@[start + i]);
            }
            return false;
        }
        i = i + 1;
    }
    assert(text@.subrange(start as int, end as int) =~= pattern@);
    true
}

/// Whether `text[start..end]` ends with `suffix`.
fn range_ends_with(text: &Vec<char>, start: usize, end: usize, suffix: &Vec<char>) -> (r: bool)
    requires
        start <= end <= text@.len(),
    ensures
        r == ends_with(text@.subrange(start as int, end as int), suffix@),
{
    if suffix.len() > end - start {
        return false;
    }
    let r = range_equals(text, end - suffix.len(), end, suffix);
    assert(text@.subrange(start as int, end as int).skip((end - start) - suffix@.len())
        =~= text@.subrange(end - suffix@.len(), end as int));
    r
}

/// Whether `text[start..end]` shows the root daemon.
fn range_is_daemon_line(
    text: &Vec<char>,
    start: usize,
    end: usize,
    one: &Vec<char>,
    slash_name: &Vec<char>,
    space_name: &Vec<char>,
) -> (r: bool)
    requires
        start <= end <= text@.len(),
        one@ == "1"@,
        slash_name@ == "/capshift"@,
        space_name@ == " capshift"@,
    ensures
        r == is_daemon_line(text@.subrange(start as int, end as int)),
{
    let ghost l = text@.subrange(start as int, end as int);
    let mut k = start;
    while k < end && is_whitespace(text[k])
        invariant
            start <= k <= end <= text@.len(),
            l == text@.subrange(start as int, end as int),
            forall|j: int| start <= j < k ==> #[trigger] is_white_space(text@[j]),
        decreases end - k,
    {
        k = k + 1;
    }
    proof {
        assert forall|j: int| 0 <= j < k - start implies #[trigger] white()(l[j]) by {
            assert(l[j] == text@[start + j]);
            assert(is_white_space(text@[start + j]));
        }
        if k < end {
            assert(l[k - start] == text@[k as int]);
        }
        lemma_run_len(l, white(), k - start);
        assert(trim_start(l) =~= text@.subrange(k as int, end as int));
    }
    let mut m = k;
    while m < end && !is_whitespace(text[m])
        invariant
            k <= m <= end <= text@.len(),
            forall|j: int| k <= j < m ==> !#[trigger] is_white_space(text@[j]),
        decreases end - m,
    {
        m = m + 1;
    }
    proof {
        let s = text@.subrange(k as int, end as int);
        assert forall|j: int| 0 <= j < m - k implies #[trigger] not_white()(s[j]) by {
            assert(s[j] == text@[k + j]);
            assert(!is_white_space(text@[k + j]));
        }
        if m < end {
            assert(s[m - k] == text@[m as int]);
        }
        lemma_run_len(s, not_white(), m - k);
        assert(first_word(l) =~= text@.subrange(k as int, m as int));
    }
    let word_is_one = range_equals(text, k, m, one);
    if !word_is_one {
        return false;
    }
    range_ends_with(text, start, end, slash_name) || range_ends_with(text, start, end, space_name)
}

/// Whether some line of `text` shows the root daemon.
pub fn ps_lists_daemon(text: &str) -> (r: bool)
    ensures
        r == lists_daemon(text@),
{
    let v = chars_of(text);
    let one = chars_of("1");
    let slash_name = chars_of("/capshift");
    let space_name = chars_of(" capshift");
    let n = v.len();
    let mut pos: usize = 0;
    assert(v@.skip(0) =~= v@);
    while pos < n
        invariant
            n == v@.len(),
            v@ == text@,
            pos <= n,
            one@ == "1"@,
            slash_name@ == "/capshift"@,
            space_name@ == " capshift"@,
            lists_daemon(text@) == lists_daemon(v@.skip(pos as int)),
        decreases n - pos,
    {
        let ghost rest = v@.skip(pos as int);
        let mut e = pos;
        while e < n && v[e] != '\n'
            invariant
                pos <= e <= n,
                n == v@.len(),
                forall|j: int| pos <= j < e ==> v@[j] != '\n',
            decreases n - e,
        {
            e = e + 1;
        }
        proof {
            assert forall|j: int| 0 <= j < e - pos implies #[trigger] not_newline()(rest[j]) by {
                assert(rest[j] == v@[pos + j]);
            }
            if e < n {
                assert(rest[e - pos] == v@[e as int]);
            }
            lemma_run_len(rest, not_newline(), e - pos);
        }
        let line_end = if e < n && e > pos && v[e - 1] == '\r' {
            e - 1
        } else {
            e
        };
        let ghost line = v@.subrange(pos as int, line_end as int);
        proof {
            assert(rest.len() > 0);
            if e < n {
                assert(rest.take(e - pos) =~= v@.subrange(pos as int, e as int));
                assert(strip_cr(rest.take(e - pos)) =~= line);
                assert(rest.skip(e - pos + 1) =~= v@.skip(e + 1));
                assert(text_lines(rest) == seq![line] + text_lines(v@.skip(e + 1)));
            } else {
                assert(rest =~= line);
                assert(text_lines(rest) == seq![line]);
            }
        }
        if range_is_daemon_line(&v, pos, line_end, &one, &slash_name, &space_name) {
            assert(text_lines(rest)[0] == line);
            return true;
        }
        proof {
            if e < n {
                let tail = text_lines(v@.skip(e + 1));
                if lists_daemon(rest) {
                    let i = choose|i: int|
                        0 <= i < text_lines(rest).len() && is_daemon_line(
                            #[trigger] text_lines(rest)[i],
                        );
                    assert(i > 0);
                    assert(text_lines(rest)[i] == tail[i - 1]);
                }
                if lists_daemon(v@.skip(e + 1)) {
                    let i = choose|i: int|
                        0 <= i < tail.len() && is_daemon_line(#[trigger] tail[i]);
                    assert(text_lines(rest)[i + 1] == tail[i]);
                }
            } else {
                assert(!lists_daemon(rest));
                assert(v@.skip(n as int) =~= Seq::<char>::empty());
                assert(text_lines(Seq::<char>::empty()) =~= Seq::<Seq<char>>::empty());
            }
        }
        pos = if e < n {
            e + 1
        } else {
            n
        };
    }
    proof {
        assert(v@.skip(n as int) =~= Seq::<char>::empty());
        assert(text_lines(Seq::<char>::empty()) =~= Seq::<Seq<char>>::empty());
    }
    false
}

/// Whether the root daemon runs, from `ps -axo ppid=,comm=`: the command
/// must have succeeded and some line of its output must show the daemon.
pub fn daemon_is_running(success: bool, stdout: &[u8]) -> (r: bool)
    ensures
        r == (success && lists_daemon(utf8_lossy(stdout@))),
{
    if !success {
        return false;
    }
    let text = decode_lossy(stdout);
    ps_lists_daemon(text.as_str())
}

// ------------------------------------------------------------ status item

/// The title of the status item: `⇪` while the daemon runs, `⇪!` otherwise.
pub open spec fn status_title_text(running: bool) -> Seq<char> {
    if running {
        "⇪"@
    } else {
        "⇪!"@
    }
}

/// The tool tip of the status item.
pub open spec fn status_tooltip_text(running: bool) -> Seq<char> {
    if running {
        "capshift is running"@
    } else {
        "capshift is not running"@
    }
}

/// The title of the status item.
pub fn status_title(running: bool) -> (r: String)
    ensures
        r@ == status_title_text(running),
{
    if running {
        "⇪".to_string()
    } else {
        "⇪!".to_string()
    }
}

/// The tool tip of the status item.
pub fn status_tooltip(running: bool) -> (r: String)
    ensures
        r@ == status_tooltip_text(running),
{
    if running {
        "capshift is running".to_string()
    } else {
        "capshift is not running".to_string()
    }
}

// ------------------------------------------------------------- menu items

/// The command that restarts the system service `label`.
pub open spec fn kickstart_text(label: Seq<char>) -> Seq<char> {
    "launchctl kickstart -k system/"@ + label
}

/// The command that restarts the system service `label`.
pub fn kickstart_command(label: &str) -> (r: String)
    ensures
        r@ == kickstart_text(label@),
{
    let mut s = "launchctl kickstart -k system/".to_string();
    s.append(label);
    s
}

/// The command of "Reload Driver".
pub fn reload_driver_command() -> (r: String)
    ensures
        r@ == kickstart_text(KVHD_LABEL@),
{
    kickstart_command(KVHD_LABEL)
}

/// The command of "Restart Daemon".
pub fn restart_daemon_command() -> (r: String)
    ensures
        r@ == kickstart_text(DAEMON_LABEL@),
{
    kickstart_command(DAEMON_LABEL)
}

/// The shell command that "Edit Config" runs in Terminal: a POSIX shell
/// that opens the shared configuration in `$EDITOR` (default `vi`) with
/// `sudo`, then hands over to the user's `$SHELL` (default `/bin/zsh`).
pub open spec fn edit_config_text() -> Seq<char> {
    "/bin/sh -lc 'sudo \"${EDITOR:-vi}\" \""@ + CONFIG_PATH@
        + "\"; exec \"${SHELL:-/bin/zsh}\" -l'"@
}

/// The AppleScript that "Edit Config" runs: Terminal runs the edit command
/// and comes to the front.
pub open spec fn edit_config_script_text() -> Seq<char> {
    "tell application \"Terminal\" to do script \""@ + applescript_escaped(edit_config_text())
        + "\"\ntell application \"Terminal\" to activate"@
}

/// The AppleScript that "Edit Config" runs.
pub fn edit_config_script() -> (r: String)
    ensures
        r@ == edit_config_script_text(),
{
    let mut command = "/bin/sh -lc 'sudo \"${EDITOR:-vi}\" \"".to_string();
    command.append(CONFIG_PATH);
    command.append("\"; exec \"${SHELL:-/bin/zsh}\" -l'");
    let escaped = applescript_escape(command.as_str());
    let mut s = "tell application \"Terminal\" to do script \"".to_string();
    s.append(escaped.as_str());
    s.append("\"\ntell application \"Terminal\" to activate");
    s
}

/// What the notification says after a menu command that ran behind the
/// administrator prompt: `success` when it succeeded, else the failure.
pub open spec fn action_notice_text(outcome: Result<(), Fault>, success: Seq<char>) -> Seq<char> {
    match outcome {
        Ok(()) => success,
        Err(f) => "Operation failed: "@ + fault_message(f),
    }
}

/// What the notification says after a menu command that ran behind the
/// administrator prompt.
pub fn action_notice(outcome: &Result<(), DoctorError>, success: &str) -> (r: String)
    ensures
        r@ == action_notice_text(unit_result(*outcome), success@),
{
    match outcome {
        Ok(()) => success.to_owned(),
        Err(e) => {
            let mut s = "Operation failed: ".to_string();
            let m = e.message();
            s.append(m.as_str());
            s
        },
    }
}

/// The AppleScript that shows `message` as a notification titled capshift.
pub open spec fn notification_script_text(message: Seq<char>) -> Seq<char> {
    "display notification \""@ + applescript_escaped(message) + "\" with title \"capshift\""@
}

/// The AppleScript that shows `message` as a notification.
pub fn notification_script(message: &str) -> (r: String)
    ensures
        r@ == notification_script_text(message@),
{
    let mut s = "display notification \"".to_string();
    let escaped = applescript_escape(message);
    s.append(escaped.as_str());
    s.append("\" with title \"capshift\"");
    s
}

/// The notification's script holds `message` as one AppleScript string
/// literal, so the notification shows exactly `message`.
pub proof fn notification_shows_message(message: Seq<char>)
    ensures
        ({
            let script = notification_script_text(message);
            let head = "display notification \""@;
            &&& script.take(head.len() as int) == head
            &&& read_string_body(script.skip(head.len() as int)) == Some(
                (message, " with title \"capshift\""@),
            )
        }),
{
    reveal_strlit("\" with title \"capshift\"");
    reveal_strlit(" with title \"capshift\"");
    let head = "display notification \""@;
    let tail = " with title \"capshift\""@;
    let script = notification_script_text(message);
    assert("\" with title \"capshift\""@ =~= seq!['"'] + tail);
    assert(script =~= head + (applescript_escaped(message) + seq!['"'] + tail));
    assert(script.take(head.len() as int) =~= head);
    assert(script.skip(head.len() as int) =~= applescript_escaped(message) + seq!['"'] + tail);
    applescript_escape_reads_back(message, tail);
}

/// The "Edit Config" script hands Terminal exactly the edit command as
/// one AppleScript string literal.
pub proof fn edit_config_runs_edit_command()
    ensures
        ({
            let script = edit_config_script_text();
            let head = "tell application \"Terminal\" to do script \""@;
            &&& script.take(head.len() as int) == head
            &&& read_string_body(script.skip(head.len() as int)) == Some(
                (edit_config_text(), "\ntell application \"Terminal\" to activate"@),
            )
        }),
{
    reveal_strlit("\"\ntell application \"Terminal\" to activate");
    reveal_strlit("\ntell application \"Terminal\" to activate");
    let head = "tell application \"Terminal\" to do script \""@;
    let tail = "\ntell application \"Terminal\" to activate"@;
    let script = edit_config_script_text();
    assert("\"\ntell application \"Terminal\" to activate"@ =~= seq!['"'] + tail);
    assert(script =~= head + (applescript_escaped(edit_config_text()) + seq!['"'] + tail));
    assert(script.take(head.len() as int) =~= head);
    assert(script.skip(head.len() as int) =~= applescript_escaped(edit_config_text()) + seq![
        '"',
    ] + tail);
    applescript_escape_reads_back(edit_config_text(), tail);
}

} // verus!
