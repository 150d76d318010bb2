use open_harmony::app::{app_paths, build, hvigor_assemble_args, output_dir, AppError};
use open_harmony::env::{CoreEnv, Env};
use open_harmony::hdc::get_prop::{get_prop, get_prop_command, prop_value, Error};
use open_harmony::hdc::RunCheckedError;
use open_harmony::ohpm::install_command;
use open_harmony::opts::{HostOs, NoiseLevel, Profile};
use open_harmony::path::{PathPart, PathStyle, SdkPath};

fn unix(parts: &[&str]) -> SdkPath {
    let mut p = SdkPath { style: PathStyle::Unix, parts: vec![PathPart::Root] };
    for name in parts {
        p.parts.push(PathPart::Normal(name.to_string()));
    }
    p
}

fn env() -> Env {
    let base = CoreEnv { path: "/bin".to_string(), vars: vec![] };
    let home = unix(&["ohos", "sdk", "default", "openharmony"]);
    Env::from_env(base, HostOs::Linux, Some(home), None, true).unwrap()
}

#[test]
fn assemble_arguments_follow_profile_and_noise() {
    assert_eq!(
        hvigor_assemble_args(NoiseLevel::Polite, Profile::Release),
        ["assembleApp", "--parallel", "--incremental", "-p", "buildMode=release", "--info"]
    );
    assert_eq!(
        hvigor_assemble_args(NoiseLevel::FranklyQuitePedantic, Profile::Debug),
        ["assembleApp", "--parallel", "--incremental", "-p", "buildMode=debug", "--debug"]
    );
    assert_eq!(hvigor_assemble_args(NoiseLevel::LoudAndProud, Profile::Debug)[5], "--debug");
}

#[test]
fn output_dir_is_under_build_outputs_default() {
    assert_eq!(output_dir(&unix(&["proj"])).display(), "/proj/build/outputs/default");
}

#[test]
fn app_paths_keeps_app_files_in_order() {
    let entries = vec![
        unix(&["o", "p-default-signed.app"]),
        unix(&["o", "pack.info"]),
        unix(&["o", "p-default-unsigned.app"]),
        unix(&["o", ".app"]),
    ];
    let found: Vec<String> = app_paths(&entries).iter().map(|p| p.display()).collect();
    assert_eq!(found, ["/o/p-default-signed.app", "/o/p-default-unsigned.app"]);
}

#[test]
fn build_hands_back_the_unsigned_app_only() {
    let paths = vec![unix(&["o", "p-default-signed.app"]), unix(&["o", "p-default-unsigned.app"])];
    let p = build(Ok(()), &paths, unix(&["o"])).unwrap();
    assert_eq!(p.display(), "/o/p-default-unsigned.app");
    let stale = vec![unix(&["o", "p-default-signed.app"])];
    match build(Ok(()), &stale, unix(&["o"])) {
        Err(e @ AppError::NotFound(_)) => {
            let r = e.report();
            assert_eq!(r.msg, "Failed to assemble App");
            assert_eq!(r.details, "no .app found under /o");
        }
        other => panic!("unexpected {other:?}"),
    }
    let failed = build(Err(std::io::Error::new(std::io::ErrorKind::NotFound, "no hvigorw")), &paths, unix(&["o"]));
    match failed {
        Err(e @ AppError::AssembleFailed(_)) => assert_eq!(e.report().details, "no hvigorw"),
        other => panic!("unexpected {other:?}"),
    }
}

#[test]
fn ohpm_install_falls_back_to_path_lookup() {
    let e = env();
    let c = install_command(&e, true, &unix(&["proj"]));
    assert_eq!(c.program.display(), "/ohos/ohpm/bin/ohpm");
    assert_eq!(c.args, ["install"]);
    assert_eq!(c.dir.as_ref().unwrap().display(), "/proj");
    assert!(c.vars.is_empty());
    let c = install_command(&e, false, &unix(&["proj"]));
    assert_eq!(c.program.display(), "ohpm");
}

#[test]
fn property_lookup() {
    let e = env();
    let c = get_prop_command(&e, "SER", "const.product.model");
    assert_eq!(c.args, ["-t", "SER", "shell", "param", "get", "const.product.model"]);
    assert_eq!(prop_value("p", b" HUAWEI Mate 60\n".to_vec()).unwrap(), "HUAWEI Mate 60");
    let err = prop_value("p", vec![0xff, 0xfe]).unwrap_err();
    assert_eq!(err.prop(), "p");
    assert!(matches!(err, Error::LookupFailed { source: RunCheckedError::InvalidUtf8(_), .. }));
    assert_eq!(err.report().msg, "Failed to run `hdc shell param get p`");
    let timed_out = get_prop("p", Ok(None)).unwrap_err();
    match timed_out {
        Error::Io(io) => assert_eq!(io.kind(), std::io::ErrorKind::TimedOut),
        other => panic!("unexpected {other:?}"),
    }
    let io = get_prop("p", Err(std::io::Error::new(std::io::ErrorKind::Other, "spawn"))).unwrap_err();
    assert!(matches!(io, Error::Io(_)));
    assert_eq!(get_prop("p", Ok(Some(b"v\n".to_vec()))).unwrap(), "v");
}

#[test]
fn run_checked_error_report_carries_the_message() {
    let e = RunCheckedError::CommandFailed(std::io::Error::new(std::io::ErrorKind::Other, "gone"));
    let r = e.report("Failed to run hdc");
    assert_eq!(r.msg, "Failed to run hdc");
    assert_eq!(r.details, "gone");
}
