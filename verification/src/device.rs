//! A connected OpenHarmony device (or emulator): how it is named, the `hdc`
//! commands that install, start and debug an app on it, and the decisions
//! taken while waiting for it to boot and for the app's devtools socket.

use vstd::prelude::*;
use crate::command::{push_str, strings_view, with_args, Command, CommandView};
use crate::env::Env;
use crate::hdc::{hdc, hdc_command};
use crate::path::{displayed, SdkPath};
use crate::report::{Report, UpstreamError};
use crate::std_io::{io_error_text, string_from_utf8_lossy, utf8_lossy};
use crate::text::{contains, has_prefix, has_substring, has_suffix, is_usize_literal, parses_as_usize, starts_with, trim, trimmed};

verus! {

broadcast use vstd::string::group_string_axioms;

/// Why running the app on a device failed.
#[derive(Debug)]
pub enum RunError {
    /// Building the HAP failed.
    HapError(UpstreamError),
    /// Running a command failed.
    Io(std::io::Error),
}

impl RunError {
    /// The report for the failure: the HAP build's own report, or "IO error"
    /// with the error's text.
    pub fn report(&self) -> (r: Report)
        ensures
            match self {
                RunError::HapError(u) => r.msg@ == u.report.msg@ && r.details@ == u.report.details@,
                RunError::Io(_) => r.msg@ == "IO error"@,
            },
    {
        match self {
            RunError::HapError(u) => u.report(),
            RunError::Io(e) => Report::error("IO error".to_owned(), io_error_text(e)),
        }
    }
}

/// Why printing a stacktrace failed.
#[derive(Debug)]
pub enum StacktraceError {
    Io(std::io::Error),
}

impl StacktraceError {
    /// The report for the failure: "IO error" with the error's text.
    pub fn report(&self) -> (r: Report)
        ensures
            r.msg@ == "IO error"@,
    {
        match self {
            StacktraceError::Io(e) => Report::error("IO error".to_owned(), io_error_text(e)),
        }
    }
}

/// The build target a device runs, by its ABI name (such as `arm64-v8a`).
#[derive(Debug, PartialEq, Eq, PartialOrd, Ord)]
pub struct Target {
    pub abi: String,
}

/// A device as `hdc` lists it.
#[derive(Debug, PartialEq, Eq, PartialOrd, Ord)]
pub struct Device<'a> {
    id: String,
    name: String,
    model: String,
    target: &'a Target,
}

/// How a device is shown: its name, followed by its model in parentheses
/// when the two differ.
pub open spec fn device_label(name: Seq<char>, model: Seq<char>) -> Seq<char> {
    if model == name {
        name
    } else {
        name + " ("@ + model + ")"@
    }
}

/// `hdc -t <id>` followed by `args`.
pub open spec fn device_command(env: &Env, id: Seq<char>, args: Seq<Seq<char>>) -> CommandView {
    hdc_command(env, seq!["-t"@, id] + args)
}

/// Whether `hdc shell param get ohos.boot.time.init` printed a boot time:
/// the property only parses as a number once boot has finished.
pub open spec fn boot_time_printed(stdout: Seq<u8>) -> bool {
    is_usize_literal(trimmed(utf8_lossy(stdout)))
}

/// The process id that `hdc shell pidof` printed.
pub open spec fn printed_pid(stdout: Seq<u8>) -> Seq<char> {
    trimmed(utf8_lossy(stdout))
}

/// What the app's log shows: `hdc hilog -v color`, limited to the app's
/// process when its id is known, then the configured filter specs.
pub open spec fn hilog_args(pid: Seq<char>, filter_specs: Seq<Seq<char>>) -> Seq<Seq<char>> {
    seq!["hilog"@, "-v"@, "color"@] + (if pid.len() == 0 {
        Seq::<Seq<char>>::empty()
    } else {
        seq!["--pid"@, pid]
    }) + filter_specs
}

/// The name of the abstract socket the app's web view opens for devtools,
/// as `/proc/net/unix` lists it.
pub open spec fn devtools_socket(pid: Seq<char>) -> Seq<char> {
    "@webview_devtools_remote_"@ + pid
}

/// The arguments of the boot probe after `-t <id>`: a lookup of the
/// `ohos.boot.time.init` property.
pub open spec fn boot_probe_args() -> Seq<Seq<char>> {
    seq!["shell"@, "param"@, "get"@, "ohos.boot.time.init"@]
}

/// The arguments that install a HAP after `-t <id>`, replacing an installed
/// copy (`-r`).
pub open spec fn install_args(hap: Seq<char>) -> Seq<Seq<char>> {
    seq!["install"@, "-r"@, hap]
}

/// The arguments that start the app's entry ability after `-t <id>`.
pub open spec fn start_args(identifier: Seq<char>) -> Seq<Seq<char>> {
    seq!["shell"@, "aa"@, "start"@, "-b"@, identifier, "-a"@, "EntryAbility"@]
}

/// The arguments that print the last crash symbolized after `-t <id>`.
pub open spec fn stacktrace_args(lib: Seq<char>) -> Seq<Seq<char>> {
    seq!["hilog"@, "-x"@, "-sym"@, lib]
}

/// The arguments that print the app's process id.
pub open spec fn pidof_args(identifier: Seq<char>) -> Seq<Seq<char>> {
    seq!["shell"@, "pidof"@, "-s"@, identifier]
}

/// The arguments that forward the devtools socket to local port 9222.
pub open spec fn devtools_forward_args(pid: Seq<char>) -> Seq<Seq<char>> {
    seq!["fport"@, "tcp:9222"@, "localabstract:webview_devtools_remote_"@ + pid]
}

fn strings(items: &[&str]) -> (r: Vec<String>)
    ensures
        strings_view(r@) == items@.map_values(|s: &str| s@),
{
    let mut r: Vec<String> = Vec::new();
    let mut i: usize = 0;
    while i < items.len()
        invariant
            i <= items@.len(),
            r@.len() == i,
            strings_view(r@) == items@.take(i as int).map_values(|s: &str| s@),
        decreases items.len() - i,
    {
        push_str(&mut r, items[i]);
        assert(items@.take(i + 1).map_values(|s: &str| s@) =~= items@.take(i as int).map_values(
            |s: &str| s@,
        ).push(items@[i as int]@));
        i = i + 1;
    }
    assert(items@.take(items@.len() as int) =~= items@);
    r
}

impl<'a> Device<'a> {
    /// The serial number `hdc` addresses the device by.
    pub closed spec fn spec_id(&self) -> Seq<char> {
        self.id@
    }

    /// The device's name.
    pub closed spec fn spec_name(&self) -> Seq<char> {
        self.name@
    }

    /// The device's model.
    pub closed spec fn spec_model(&self) -> Seq<char> {
        self.model@
    }

    /// The target the device runs.
    pub closed spec fn spec_target(&self) -> &'a Target {
        self.target
    }

    /// A device with the given serial number, name, model and target.
    pub fn new(id: String, name: String, model: String, target: &'a Target) -> (r: Device<'a>)
        ensures
            r.spec_id() == id@,
            r.spec_name() == name@,
            r.spec_model() == model@,
            r.spec_target() == target,
    {
        Device { id, name, model, target }
    }

    /// The target the device runs.
    pub fn target(&self) -> (r: &'a Target)
        ensures
            r == self.spec_target(),
    {
        self.target
    }

    /// The device's name.
    pub fn name(&self) -> (r: &str)
        ensures
            r@ == self.spec_name(),
    {
        self.name.as_str()
    }

    /// The device's model.
    pub fn model(&self) -> (r: &str)
        ensures
            r@ == self.spec_model(),
    {
        self.model.as_str()
    }

    /// The device's serial number.
    pub fn id(&self) -> (r: &str)
        ensures
            r@ == self.spec_id(),
    {
        self.id.as_str()
    }

    /// How the device is shown to the user (its `Display` text).
    pub fn label(&self) -> (r: String)
        ensures
            r@ == device_label(self.spec_name(), self.spec_model()),
    {
        let mut r = self.name.clone();
        if self.model != self.name {
            r.append(" (");
            r.append(self.model.as_str());
            r.append(")");
        }
        r
    }

    /// `hdc -t <id>`, addressing this device.
    pub fn hdc(&self, env: &Env) -> (r: Command)
        ensures
            r@ == device_command(env, self.spec_id(), Seq::empty()),
    {
        let mut args: Vec<String> = Vec::new();
        args.push("-t".to_owned());
        args.push(self.id.clone());
        let r = hdc(env, args);
        assert(strings_view(args@) =~= seq!["-t"@, self.spec_id()] + Seq::<Seq<char>>::empty());
        r
    }

    fn device_command_with(&self, env: &Env, more: &[&str]) -> (r: Command)
        ensures
            r@ == device_command(env, self.spec_id(), more@.map_values(|s: &str| s@)),
    {
        let mut c = self.hdc(env);
        let extra = strings(more);
        let ghost before = c@;
        let mut i: usize = 0;
        while i < extra.len()
            invariant
                i <= extra@.len(),
                c@ == with_args(before, strings_view(extra@).take(i as int)),
            decreases extra.len() - i,
        {
            c.arg(extra[i].as_str());
            assert(strings_view(extra@).take(i + 1) =~= strings_view(extra@).take(i as int) + seq![
                extra@[i as int]@,
            ]);
            i = i + 1;
        }
        assert(strings_view(extra@).take(extra@.len() as int) =~= strings_view(extra@));
        assert(c@.args =~= seq!["-t"@, self.spec_id()] + more@.map_values(|s: &str| s@));
        c
    }

    /// Whether the device is an emulator, which must finish booting before an
    /// app can be installed on it.
    pub fn is_emulator(&self) -> (b: bool)
        ensures
            b == has_prefix(self.spec_model(), "emulator"@),
    {
        starts_with(self.model.as_str(), "emulator")
    }

    /// `hdc -t <id> shell param get ohos.boot.time.init`, which prints a
    /// number once boot has finished.
    pub fn boot_probe_command(&self, env: &Env) -> (r: Command)
        ensures
            r@ == device_command(
                env,
                self.spec_id(),
                seq!["shell"@, "param"@, "get"@, "ohos.boot.time.init"@],
            ),
            r@ == device_command(env, self.spec_id(), boot_probe_args()),
    {
        let r = self.device_command_with(env, &["shell", "param", "get", "ohos.boot.time.init"]);
        assert(r@.args =~= seq!["-t"@, self.spec_id()] + seq!["shell"@, "param"@, "get"@, "ohos.boot.time.init"@]);
        r
    }

    /// `hdc -t <id> install -r <hap>`.
    pub fn install_hap_command(&self, env: &Env, hap_path: &SdkPath) -> (r: Command)
        ensures
            r@ == device_command(
                env,
                self.spec_id(),
                seq!["install"@, "-r"@, displayed(hap_path@)],
            ),
            r@ == device_command(env, self.spec_id(), install_args(displayed(hap_path@))),
    {
        let mut c = self.device_command_with(env, &["install", "-r"]);
        let shown = hap_path.display();
        c.arg(shown.as_str());
        assert(c@.args =~= seq!["-t"@, self.spec_id()] + seq!["install"@, "-r"@, displayed(hap_path@)]);
        c
    }

    /// `hdc -t <id> shell aa start -b <identifier> -a EntryAbility`, which
    /// launches the app.
    pub fn start_app_command(&self, env: &Env, identifier: &str) -> (r: Command)
        ensures
            r@ == device_command(
                env,
                self.spec_id(),
                seq!["shell"@, "aa"@, "start"@, "-b"@, identifier@, "-a"@, "EntryAbility"@],
            ),
            r@ == device_command(env, self.spec_id(), start_args(identifier@)),
    {
        let mut c = self.device_command_with(env, &["shell", "aa", "start", "-b"]);
        c.arg(identifier);
        c.arg("-a");
        c.arg("EntryAbility");
        assert(c@.args =~= seq!["-t"@, self.spec_id()] + seq!["shell"@, "aa"@, "start"@, "-b"@, identifier@, "-a"@, "EntryAbility"@]);
        c
    }

    /// `hdc -t <id> hilog -x -sym <lib>`, which prints the last crash's
    /// stacktrace symbolized against the app's library.
    pub fn stacktrace_command(&self, env: &Env, lib_path: &SdkPath) -> (r: Command)
        ensures
            r@ == device_command(
                env,
                self.spec_id(),
                seq!["hilog"@, "-x"@, "-sym"@, displayed(lib_path@)],
            ),
            r@ == device_command(env, self.spec_id(), stacktrace_args(displayed(lib_path@))),
    {
        let mut c = self.device_command_with(env, &["hilog", "-x", "-sym"]);
        let shown = lib_path.display();
        c.arg(shown.as_str());
        assert(c@.args =~= seq!["-t"@, self.spec_id()] + seq!["hilog"@, "-x"@, "-sym"@, displayed(lib_path@)]);
        c
    }

    /// Waking the screen: `hdc` has no equivalent of a wake-up key event, so
    /// this does nothing and succeeds.
    pub fn wake_screen(&self, _env: &Env) -> (r: Result<(), std::io::Error>)
        ensures
            r is Ok,
    {
        Ok(())
    }
}

/// `hdc shell pidof -s <identifier>`, which prints the app's process id once
/// it runs. (It does not address a device with `-t`.)
pub fn pidof_command(env: &Env, identifier: &str) -> (r: Command)
    ensures
        r@ == hdc_command(env, seq!["shell"@, "pidof"@, "-s"@, identifier@]),
        r@ == hdc_command(env, pidof_args(identifier@)),
{
    let mut args = strings(&["shell", "pidof", "-s"]);
    push_str(&mut args, identifier);
    assert(strings_view(args@) =~= seq!["shell"@, "pidof"@, "-s"@, identifier@]);
    hdc(env, args)
}

/// The app's process id from the output of [`pidof_command`]: the output
/// decoded (invalid UTF-8 replaced) and trimmed.
pub fn pid_from_output(stdout: &[u8]) -> (r: String)
    ensures
        r@ == printed_pid(stdout@),
{
    let s = string_from_utf8_lossy(stdout);
    trim(s.as_str())
}

/// Whether the output of the boot probe shows that boot has finished.
pub fn boot_finished(stdout: &[u8]) -> (b: bool)
    ensures
        b == boot_time_printed(stdout@),
{
    let s = string_from_utf8_lossy(stdout);
    let t = trim(s.as_str());
    parses_as_usize(t.as_str())
}

/// The outcome of one boot poll, given how the probe ended: `None` when it
/// could not be started, failed while waiting or ran past its timeout, else
/// whether it exited successfully and what it printed. The poll counts as
/// failed (`None`) unless the probe exited successfully; then it says whether
/// boot has finished.
pub fn boot_poll_outcome(ended: Option<(bool, &[u8])>) -> (r: Option<bool>)
    ensures
        match ended {
            Some((true, stdout)) => r == Some(boot_time_printed(stdout@)),
            _ => r is None,
        },
{
    match ended {
        Some((true, stdout)) => Some(boot_finished(stdout)),
        _ => None,
    }
}

/// `hdc hilog -v color [--pid <pid>] <filter specs...>`, which streams the
/// app's log.
pub fn hilog_command(env: &Env, pid: &str, filter_specs: &Vec<String>) -> (r: Command)
    ensures
        r@ == hdc_command(env, hilog_args(pid@, strings_view(filter_specs@))),
{
    let mut args = strings(&["hilog", "-v", "color"]);
    assert(strings_view(args@) =~= seq!["hilog"@, "-v"@, "color"@]);
    if !pid.is_empty() {
        push_str(&mut args, "--pid");
        push_str(&mut args, pid);
    }
    let ghost head = strings_view(args@);
    assert(head =~= seq!["hilog"@, "-v"@, "color"@] + (if pid@.len() == 0 {
        Seq::<Seq<char>>::empty()
    } else {
        seq!["--pid"@, pid@]
    }));
    let mut i: usize = 0;
    while i < filter_specs.len()
        invariant
            i <= filter_specs@.len(),
            strings_view(args@) == head + strings_view(filter_specs@).take(i as int),
        decreases filter_specs.len() - i,
    {
        push_str(&mut args, filter_specs[i].as_str());
        assert(strings_view(filter_specs@).take(i + 1) =~= strings_view(filter_specs@).take(
            i as int,
        ).push(filter_specs@[i as int]@));
        i = i + 1;
    }
    assert(strings_view(filter_specs@).take(filter_specs@.len() as int) =~= strings_view(filter_specs@));
    hdc(env, args)
}

/// `"@webview_devtools_remote_<pid>"`, the socket to wait for.
pub fn devtools_socket_name(pid: &str) -> (r: String)
    ensures
        r@ == devtools_socket(pid@),
{
    let mut r = "@webview_devtools_remote_".to_owned();
    r.append(pid);
    r
}

/// `hdc shell cat /proc/net/unix`, which lists the open sockets.
pub fn devtools_probe_command(env: &Env) -> (r: Command)
    ensures
        r@ == hdc_command(env, seq!["shell"@, "cat"@, "/proc/net/unix"@]),
{
    let args = strings(&["shell", "cat", "/proc/net/unix"]);
    assert(strings_view(args@) =~= seq!["shell"@, "cat"@, "/proc/net/unix"@]);
    hdc(env, args)
}

/// `hdc fport tcp:9222 localabstract:webview_devtools_remote_<pid>`, which
/// forwards the app's devtools socket to local port 9222 for Chrome.
pub fn devtools_forward_command(env: &Env, pid: &str) -> (r: Command)
    ensures
        r@ == hdc_command(
            env,
            seq!["fport"@, "tcp:9222"@, "localabstract:webview_devtools_remote_"@ + pid@],
        ),
        r@ == hdc_command(env, devtools_forward_args(pid@)),
{
    let mut args = strings(&["fport", "tcp:9222"]);
    let mut target = "localabstract:webview_devtools_remote_".to_owned();
    target.append(pid);
    push_str(&mut args, target.as_str());
    assert(strings_view(args@) =~= seq!["fport"@, "tcp:9222"@, "localabstract:webview_devtools_remote_"@ + pid@]);
    hdc(env, args)
}

/// How many failed boot polls make the wait give up.
pub const MAX_BOOT_FAILURES: usize = 10;

/// How many reads of the socket list without the devtools socket make the
/// wait give up.
pub const MAX_DEVTOOLS_ATTEMPTS: usize = 10;

/// What to do after a boot poll.
#[derive(Clone, Copy, Debug, PartialEq, Eq, Structural)]
pub enum BootStep {
    /// Boot has finished: go on.
    Booted,
    /// Poll again after a delay.
    Retry,
    /// Too many polls failed: go on anyway.
    GiveUp,
}

/// The failure count and the step after a boot poll, given the failures so
/// far. A poll is `Some(finished)` when `hdc` ran in time and exited
/// cleanly, `None` when it failed or timed out. Only failed polls count, and
/// the count is never reset; it stops at the limit.
pub open spec fn boot_next(failures: nat, poll: Option<bool>) -> (nat, BootStep) {
    match poll {
        Some(true) => (failures, BootStep::Booted),
        Some(false) => (failures, BootStep::Retry),
        None => (
            if failures < MAX_BOOT_FAILURES { failures + 1 } else { failures },
            if failures + 1 >= MAX_BOOT_FAILURES { BootStep::GiveUp } else { BootStep::Retry },
        ),
    }
}

/// The wait for a device to finish booting.
#[derive(Debug)]
pub struct BootWait {
    failures: usize,
}

impl BootWait {
    /// The failed polls counted so far.
    pub closed spec fn failures_seen(&self) -> nat {
        self.failures as nat
    }

    /// A wait with no poll yet.
    pub fn new() -> (r: BootWait)
        ensures
            r.failures_seen() == 0,
    {
        BootWait { failures: 0 }
    }

    /// The failed polls counted so far.
    pub fn failures(&self) -> (r: usize)
        ensures
            r == self.failures_seen(),
    {
        self.failures
    }

    /// Takes the outcome of one poll and says what to do next.
    pub fn observe(&mut self, poll: Option<bool>) -> (r: BootStep)
        ensures
            (final(self).failures_seen(), r) == boot_next(old(self).failures_seen(), poll),
    {
        match poll {
            Some(true) => BootStep::Booted,
            Some(false) => BootStep::Retry,
            None => {
                if self.failures < MAX_BOOT_FAILURES {
                    self.failures = self.failures + 1;
                    if self.failures >= MAX_BOOT_FAILURES {
                        BootStep::GiveUp
                    } else {
                        BootStep::Retry
                    }
                } else {
                    BootStep::GiveUp
                }
            },
        }
    }
}

/// The failure count after a sequence of polls from a fresh wait.
pub open spec fn boot_failures_after(polls: Seq<Option<bool>>) -> nat
    decreases polls.len(),
{
    if polls.len() == 0 {
        0
    } else {
        boot_next(boot_failures_after(polls.drop_last()), polls.last()).0
    }
}

/// The number of failed polls (`None`) in a sequence.
pub open spec fn failed_polls(polls: Seq<Option<bool>>) -> nat
    decreases polls.len(),
{
    if polls.len() == 0 {
        0
    } else {
        failed_polls(polls.drop_last()) + if polls.last() is None {
            1nat
        } else {
            0nat
        }
    }
}

/// The wait for boot is bounded: after any sequence of polls the wait has
/// counted every failed one (up to the limit), so a failed poll gives up
/// exactly when it is the `MAX_BOOT_FAILURES`-th failed poll or a later one;
/// a poll that shows boot finished always ends the wait, and a poll that
/// ran but shows boot still going on never gives up.
pub proof fn law_boot_wait_is_bounded(polls: Seq<Option<bool>>)
    ensures
        boot_failures_after(polls) == if failed_polls(polls) < MAX_BOOT_FAILURES {
            failed_polls(polls)
        } else {
            MAX_BOOT_FAILURES as nat
        },
        boot_next(boot_failures_after(polls), None).1 == BootStep::GiveUp <==> failed_polls(polls)
            + 1 >= MAX_BOOT_FAILURES,
        boot_next(boot_failures_after(polls), Some(true)).1 == BootStep::Booted,
        boot_next(boot_failures_after(polls), Some(false)).1 == BootStep::Retry,
    decreases polls.len(),
{
    if polls.len() > 0 {
        law_boot_wait_is_bounded(polls.drop_last());
    }
}

/// What to do after reading the list of open sockets.
#[derive(Clone, Copy, Debug, PartialEq, Eq, Structural)]
pub enum DevtoolsStep {
    /// Set up the port forwarding now.
    Forward,
    /// Read the list again after a delay.
    Retry,
    /// Too many reads without the socket: report it and stop.
    GiveUp,
}

/// The attempt count and the step after one read of the socket list, given
/// the attempts so far. `None` is a read that failed: the wait stops and the
/// forwarding is set up all the same. A list that holds the devtools socket
/// also leads to forwarding; any other list counts as one more attempt.
pub open spec fn devtools_next(attempts: nat, sockets: Option<Seq<char>>, socket: Seq<char>) -> (
    nat,
    DevtoolsStep,
) {
    match sockets {
        None => (attempts, DevtoolsStep::Forward),
        Some(list) => if has_substring(list, socket) {
            (attempts, DevtoolsStep::Forward)
        } else {
            (
                if attempts < MAX_DEVTOOLS_ATTEMPTS { attempts + 1 } else { attempts },
                if attempts + 1 >= MAX_DEVTOOLS_ATTEMPTS {
                    DevtoolsStep::GiveUp
                } else {
                    DevtoolsStep::Retry
                },
            )
        },
    }
}

/// The wait for the app's devtools socket to open.
#[derive(Debug)]
pub struct DevtoolsWait {
    attempts: usize,
}

impl DevtoolsWait {
    /// The reads without the socket counted so far.
    pub closed spec fn attempts_seen(&self) -> nat {
        self.attempts as nat
    }

    /// A wait with no read yet.
    pub fn new() -> (r: DevtoolsWait)
        ensures
            r.attempts_seen() == 0,
    {
        DevtoolsWait { attempts: 0 }
    }

    /// The reads without the socket counted so far.
    pub fn attempts(&self) -> (r: usize)
        ensures
            r == self.attempts_seen(),
    {
        self.attempts
    }

    /// Takes one read of the socket list (`None` when the read failed) and
    /// says what to do next; `socket` is the name to look for
    /// ([`devtools_socket_name`]).
    pub fn observe(&mut self, sockets: Option<&str>, socket: &str) -> (r: DevtoolsStep)
        ensures
            (final(self).attempts_seen(), r) == devtools_next(
                old(self).attempts_seen(),
                match sockets {
                    Some(l) => Some(l@),
                    None => None,
                },
                socket@,
            ),
    {
        match sockets {
            None => DevtoolsStep::Forward,
            Some(list) => {
                if contains(list, socket) {
                    DevtoolsStep::Forward
                } else if self.attempts < MAX_DEVTOOLS_ATTEMPTS {
                    self.attempts = self.attempts + 1;
                    if self.attempts >= MAX_DEVTOOLS_ATTEMPTS {
                        DevtoolsStep::GiveUp
                    } else {
                        DevtoolsStep::Retry
                    }
                } else {
                    DevtoolsStep::GiveUp
                }
            },
        }
    }
}

/// The attempt count after a sequence of reads from a fresh wait.
pub open spec fn devtools_attempts_after(reads: Seq<Option<Seq<char>>>, socket: Seq<char>) -> nat
    decreases reads.len(),
{
    if reads.len() == 0 {
        0
    } else {
        devtools_next(devtools_attempts_after(reads.drop_last(), socket), reads.last(), socket).0
    }
}

/// The number of successful reads that did not list the socket.
pub open spec fn reads_without(reads: Seq<Option<Seq<char>>>, socket: Seq<char>) -> nat
    decreases reads.len(),
{
    if reads.len() == 0 {
        0
    } else {
        reads_without(reads.drop_last(), socket) + match reads.last() {
            Some(l) => if has_substring(l, socket) {
                0nat
            } else {
                1nat
            },
            None => 0nat,
        }
    }
}

/// The wait for the devtools socket is bounded: it counts every read that
/// did not list the socket (up to the limit) and gives up exactly at the
/// `MAX_DEVTOOLS_ATTEMPTS`-th such read; a failed read or a list holding the
/// socket always leads to forwarding.
pub proof fn law_devtools_wait_is_bounded(reads: Seq<Option<Seq<char>>>, socket: Seq<char>, list: Seq<char>)
    ensures
        devtools_attempts_after(reads, socket) == if reads_without(reads, socket)
            < MAX_DEVTOOLS_ATTEMPTS {
            reads_without(reads, socket)
        } else {
            MAX_DEVTOOLS_ATTEMPTS as nat
        },
        !has_substring(list, socket) ==> (devtools_next(
            devtools_attempts_after(reads, socket),
            Some(list),
            socket,
        ).1 == DevtoolsStep::GiveUp <==> reads_without(reads, socket) + 1
            >= MAX_DEVTOOLS_ATTEMPTS),
        has_substring(list, socket) ==> devtools_next(
            devtools_attempts_after(reads, socket),
            Some(list),
            socket,
        ).1 == DevtoolsStep::Forward,
        devtools_next(devtools_attempts_after(reads, socket), None, socket).1
            == DevtoolsStep::Forward,
    decreases reads.len(),
{
    if reads.len() > 0 {
        law_devtools_wait_is_bounded(reads.drop_last(), socket, list);
    }
}

/// A device is shown by its name alone when its model is the same, else as
/// `<name> (<model>)`: the label starts with the name and ends with the model
/// in parentheses.
pub proof fn law_device_label(name: Seq<char>, model: Seq<char>)
    ensures
        model == name ==> device_label(name, model) == name,
        model != name ==> device_label(name, model) == name + " ("@ + model + ")"@,
        model != name ==> has_prefix(device_label(name, model), name),
        model != name ==> has_suffix(device_label(name, model), model + ")"@),
{
    if model != name {
        assert(name + " ("@ + model + ")"@ =~= name + (" ("@ + model + ")"@));
        crate::text::law_prefix(name, " ("@ + model + ")"@, name);
        assert(name + " ("@ + model + ")"@ =~= (name + " ("@) + (model + ")"@));
        crate::text::law_suffix(name + " ("@, model + ")"@, name);
    }
}

/// The log stream: `hilog -v color`, then `--pid <pid>` exactly when a pid is
/// known, then the filter specs unchanged, last.
pub proof fn law_hilog_args(pid: Seq<char>, filter_specs: Seq<Seq<char>>)
    ensures
        hilog_args(pid, filter_specs).take(3) == seq!["hilog"@, "-v"@, "color"@],
        pid.len() > 0 ==> hilog_args(pid, filter_specs).len() == 5 + filter_specs.len()
            && hilog_args(pid, filter_specs)[3] == "--pid"@ && hilog_args(pid, filter_specs)[4]
            == pid && hilog_args(pid, filter_specs).skip(5) == filter_specs,
        pid.len() == 0 ==> hilog_args(pid, filter_specs).len() == 3 + filter_specs.len()
            && hilog_args(pid, filter_specs).skip(3) == filter_specs,
{
    let h = hilog_args(pid, filter_specs);
    assert(h.take(3) =~= seq!["hilog"@, "-v"@, "color"@]);
    if pid.len() > 0 {
        assert(h.skip(5) =~= filter_specs);
    } else {
        assert(h.skip(3) =~= filter_specs);
    }
}

/// The devtools socket is `@webview_devtools_remote_` followed by the pid,
/// and a listing that has it anywhere makes the wait forward.
pub proof fn law_devtools_socket(pid: Seq<char>, before: Seq<char>, after: Seq<char>, attempts: nat)
    ensures
        has_prefix(devtools_socket(pid), "@webview_devtools_remote_"@),
        has_suffix(devtools_socket(pid), pid),
        devtools_next(attempts, Some(before + devtools_socket(pid) + after), devtools_socket(pid)).1
            == DevtoolsStep::Forward,
{
    crate::text::law_prefix("@webview_devtools_remote_"@, pid, devtools_socket(pid));
    crate::text::law_suffix("@webview_devtools_remote_"@, pid, devtools_socket(pid));
    crate::text::law_substring_of_concat(before, devtools_socket(pid), after);
}

/// Boot counts as finished exactly when the printed output, decoded and
/// trimmed as the pid is, parses as a number.
pub proof fn law_boot_output(stdout: Seq<u8>)
    ensures
        boot_time_printed(stdout) == is_usize_literal(printed_pid(stdout)),
        printed_pid(stdout) == trimmed(utf8_lossy(stdout)),
{
}

/// Every device command addresses the device: `hdc -t <id>` followed by the
/// command's own arguments, with the environment's variables.
pub proof fn law_device_command(env: &Env, id: Seq<char>, args: Seq<Seq<char>>)
    ensures
        device_command(env, id, args).args.take(2) == seq!["-t"@, id],
        device_command(env, id, args).args.skip(2) == args,
        device_command(env, id, args) == hdc_command(env, seq!["-t"@, id] + args),
{
    assert(device_command(env, id, args).args.take(2) =~= seq!["-t"@, id]);
    assert(device_command(env, id, args).args.skip(2) =~= args);
}

/// Where the variable arguments go: the HAP path last, after `-r`; the
/// bundle name right after `-b`, with the entry ability after `-a`; the
/// library last, after `-sym`; the bundle name last, after `-s`; and the
/// forwarded socket is the devtools socket's name (without its leading `@`)
/// in the `localabstract:` namespace, forwarded from `tcp:9222`. The boot probe
/// is a property lookup of `ohos.boot.time.init`.
pub proof fn law_command_arguments(hap: Seq<char>, identifier: Seq<char>, lib: Seq<char>, pid: Seq<char>)
    ensures
        install_args(hap).len() == 3 && install_args(hap)[0] == "install"@ && install_args(hap)[1]
            == "-r"@ && install_args(hap).last() == hap,
        start_args(identifier).len() == 7 && start_args(identifier).take(3) == seq![
            "shell"@,
            "aa"@,
            "start"@,
        ] && start_args(identifier)[3] == "-b"@ && start_args(identifier)[4] == identifier
            && start_args(identifier)[5] == "-a"@ && start_args(identifier)[6] == "EntryAbility"@,
        stacktrace_args(lib).len() == 4 && stacktrace_args(lib).take(3) == seq![
            "hilog"@,
            "-x"@,
            "-sym"@,
        ] && stacktrace_args(lib).last() == lib,
        pidof_args(identifier).len() == 4 && pidof_args(identifier).take(3) == seq![
            "shell"@,
            "pidof"@,
            "-s"@,
        ] && pidof_args(identifier).last() == identifier,
        devtools_forward_args(pid).len() == 3 && devtools_forward_args(pid)[0] == "fport"@
            && devtools_forward_args(pid)[1] == "tcp:9222"@ && devtools_forward_args(pid)[2]
            == "localabstract:"@ + devtools_socket(pid).drop_first(),
        boot_probe_args() == crate::hdc::get_prop::get_prop_args("ohos.boot.time.init"@),
{
    assert(start_args(identifier).take(3) =~= seq!["shell"@, "aa"@, "start"@]);
    assert(stacktrace_args(lib).take(3) =~= seq!["hilog"@, "-x"@, "-sym"@]);
    assert(pidof_args(identifier).take(3) =~= seq!["shell"@, "pidof"@, "-s"@]);
    assert(boot_probe_args() =~= crate::hdc::get_prop::get_prop_args("ohos.boot.time.init"@));
    reveal_strlit("localabstract:webview_devtools_remote_");
    reveal_strlit("localabstract:");
    reveal_strlit("@webview_devtools_remote_");
    assert(devtools_socket(pid).drop_first() =~= "webview_devtools_remote_"@ + pid) by {
        reveal_strlit("webview_devtools_remote_");
    }
    assert("localabstract:webview_devtools_remote_"@ =~= "localabstract:"@
        + "webview_devtools_remote_"@) by {
        reveal_strlit("webview_devtools_remote_");
    }
    assert("localabstract:webview_devtools_remote_"@ + pid =~= "localabstract:"@
        + devtools_socket(pid).drop_first());
}

/// The limits of the two waits.
pub proof fn law_wait_limits()
    ensures
        MAX_BOOT_FAILURES == 10,
        MAX_DEVTOOLS_ATTEMPTS == 10,
{
}

/// The devtools socket is exactly `@webview_devtools_remote_` followed by
/// the pid.
pub proof fn law_devtools_socket_name(pid: Seq<char>)
    ensures
        devtools_socket(pid) == "@webview_devtools_remote_"@ + pid,
        devtools_socket(pid).len() == 25 + pid.len(),
{
    reveal_strlit("@webview_devtools_remote_");
}

} // verus!
