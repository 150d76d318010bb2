use open_harmony::device::{
    boot_finished, boot_poll_outcome, devtools_forward_command, devtools_probe_command, devtools_socket_name,
    hilog_command, pid_from_output, pidof_command, BootStep, BootWait, Device, DevtoolsStep,
    DevtoolsWait, RunError, StacktraceError, Target, MAX_BOOT_FAILURES,
};
use open_harmony::env::{CoreEnv, Env};
use open_harmony::opts::HostOs;
use open_harmony::path::{PathPart, PathStyle, SdkPath};
use open_harmony::report::{Report, UpstreamError};

fn unix(parts: &[&str]) -> SdkPath {
    let mut p = SdkPath { style: PathStyle::Unix, parts: vec![PathPart::Root] };
    for name in parts {
        p.parts.push(PathPart::Normal(name.to_string()));
    }
    p
}

fn env() -> Env {
    let base = CoreEnv { path: "/bin".to_string(), vars: vec![] };
    let home = unix(&["ohos", "sdk", "default", "openharmony"]);
    Env::from_env(base, HostOs::Linux, Some(home), None, true).unwrap()
}

fn args(c: &open_harmony::command::Command) -> Vec<&str> {
    c.args.iter().map(|s| s.as_str()).collect()
}

#[test]
fn device_label_shows_the_model_only_when_it_differs() {
    let t = Target { abi: "arm64-v8a".to_string() };
    let d = Device::new("127.0.0.1:5555".into(), "Mate".into(), "Mate".into(), &t);
    assert_eq!(d.label(), "Mate");
    let d = Device::new("x".into(), "Phone".into(), "emulator-x86".into(), &t);
    assert_eq!(d.label(), "Phone (emulator-x86)");
    assert!(d.is_emulator());
    assert_eq!(d.id(), "x");
    assert_eq!(d.name(), "Phone");
    assert_eq!(d.model(), "emulator-x86");
    assert_eq!(d.target().abi, "arm64-v8a");
    assert!(d.wake_screen(&env()).is_ok());
}

#[test]
fn device_commands_address_the_device() {
    let e = env();
    let t = Target { abi: "arm64-v8a".to_string() };
    let d = Device::new("SER1".into(), "P".into(), "Q".into(), &t);
    let c = d.boot_probe_command(&e);
    assert_eq!(c.program.display(), "/ohos/sdk/default/openharmony/toolchains/hdc");
    assert_eq!(args(&c), ["-t", "SER1", "shell", "param", "get", "ohos.boot.time.init"]);
    let c = d.install_hap_command(&e, &unix(&["p", "entry.hap"]));
    assert_eq!(args(&c), ["-t", "SER1", "install", "-r", "/p/entry.hap"]);
    let c = d.start_app_command(&e, "com.example.app");
    assert_eq!(args(&c), ["-t", "SER1", "shell", "aa", "start", "-b", "com.example.app", "-a", "EntryAbility"]);
    let c = d.stacktrace_command(&e, &unix(&["libs", "arm64-v8a", "libapp.so"]));
    assert_eq!(args(&c), ["-t", "SER1", "hilog", "-x", "-sym", "/libs/arm64-v8a/libapp.so"]);
    assert!(c.vars.iter().any(|(k, v)| k == "OHOS_HOME" && v == "/ohos/sdk/default/openharmony"));
}

#[test]
fn app_commands_and_log_stream() {
    let e = env();
    assert_eq!(args(&pidof_command(&e, "com.x")), ["shell", "pidof", "-s", "com.x"]);
    let specs = vec!["A:I".to_string(), "*:S".to_string()];
    assert_eq!(args(&hilog_command(&e, "1234", &specs)), ["hilog", "-v", "color", "--pid", "1234", "A:I", "*:S"]);
    assert_eq!(args(&hilog_command(&e, "", &specs)), ["hilog", "-v", "color", "A:I", "*:S"]);
    assert_eq!(args(&devtools_probe_command(&e)), ["shell", "cat", "/proc/net/unix"]);
    assert_eq!(
        args(&devtools_forward_command(&e, "77")),
        ["fport", "tcp:9222", "localabstract:webview_devtools_remote_77"]
    );
    assert_eq!(devtools_socket_name("77"), "@webview_devtools_remote_77");
}

#[test]
fn output_parsing() {
    assert_eq!(pid_from_output(b"  4242\r\n"), "4242");
    assert_eq!(pid_from_output(b"\xff1"), "\u{FFFD}1");
    assert!(boot_finished(b"1700000000\n"));
    assert!(!boot_finished(b"\n"));
    assert!(!boot_finished(b"booting"));
    assert!(!boot_finished(b"12\xff"));
    assert_eq!(boot_poll_outcome(None), None);
    assert_eq!(boot_poll_outcome(Some((false, b"17".as_slice()))), None);
    assert_eq!(boot_poll_outcome(Some((true, b"17\n".as_slice()))), Some(true));
    assert_eq!(boot_poll_outcome(Some((true, b"".as_slice()))), Some(false));
}

#[test]
fn boot_wait_gives_up_on_the_tenth_failed_poll() {
    let mut w = BootWait::new();
    for i in 1..MAX_BOOT_FAILURES {
        assert_eq!(w.observe(None), BootStep::Retry);
        assert_eq!(w.observe(Some(false)), BootStep::Retry);
        assert_eq!(w.failures(), i);
    }
    assert_eq!(w.observe(None), BootStep::GiveUp);
    assert_eq!(w.failures(), MAX_BOOT_FAILURES);
    let mut w = BootWait::new();
    assert_eq!(w.observe(None), BootStep::Retry);
    assert_eq!(w.observe(Some(true)), BootStep::Booted);
}

#[test]
fn devtools_wait_forwards_on_socket_or_failed_read() {
    let socket = devtools_socket_name("9");
    let mut w = DevtoolsWait::new();
    assert_eq!(w.observe(Some("nothing"), &socket), DevtoolsStep::Retry);
    assert_eq!(w.observe(Some("0: @webview_devtools_remote_9"), &socket), DevtoolsStep::Forward);
    assert_eq!(w.attempts(), 1);
    assert_eq!(w.observe(None, &socket), DevtoolsStep::Forward);
    let mut w = DevtoolsWait::new();
    for _ in 1..10 {
        assert_eq!(w.observe(Some(""), &socket), DevtoolsStep::Retry);
    }
    assert_eq!(w.observe(Some(""), &socket), DevtoolsStep::GiveUp);
}

#[test]
fn run_and_stacktrace_errors_report() {
    let hap = RunError::HapError(UpstreamError {
        message: "m".into(),
        report: Report::error("Failed to build HAP".into(), "d".into()),
    });
    assert_eq!(hap.report().msg, "Failed to build HAP");
    let io = RunError::Io(std::io::Error::new(std::io::ErrorKind::Other, "boom"));
    let r = io.report();
    assert_eq!(r.msg, "IO error");
    assert_eq!(r.details, "boom");
    let st = StacktraceError::Io(std::io::Error::new(std::io::ErrorKind::Other, "x"));
    assert_eq!(st.report().msg, "IO error");
}
