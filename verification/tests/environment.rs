use open_harmony::env::{default_deveco_root, CoreEnv, Env, Error};
use open_harmony::opts::HostOs;
use open_harmony::path::{PathPart, PathStyle, SdkPath};
use open_harmony::report::{Report, UpstreamError};

fn unix(parts: &[&str]) -> SdkPath {
    let mut p = SdkPath { style: PathStyle::Unix, parts: vec![PathPart::Root] };
    for name in parts {
        p.parts.push(PathPart::Normal(name.to_string()));
    }
    p
}

fn base() -> CoreEnv {
    CoreEnv {
        path: "/usr/bin:/bin".to_string(),
        vars: vec![
            ("PATH".to_string(), "/usr/bin:/bin".to_string()),
            ("OHOS_HOME".to_string(), "/stale".to_string()),
        ],
    }
}

fn lookup(vars: &[(String, String)], name: &str) -> Option<String> {
    let mut found = None;
    for (k, v) in vars {
        if k == name {
            found = Some(v.clone());
        }
    }
    found
}

#[test]
fn conventional_ohos_home_resolves_install_root_three_levels_up() {
    let home = unix(&["opt", "ohos", "sdk", "default", "openharmony"]);
    let env = Env::from_env(base(), HostOs::Linux, Some(home), None, true).unwrap();
    assert_eq!(env.ohos_home().display(), "/opt/ohos/sdk/default/openharmony");
    assert_eq!(env.deveco_root().display(), "/opt/ohos");
    assert_eq!(env.sdk_root().display(), "/opt/ohos/sdk");
    assert_eq!(env.toolchains_path().display(), "/opt/ohos/sdk/default/openharmony/toolchains");
    assert_eq!(env.path(), "/usr/bin:/bin");
}

#[test]
fn shallow_ohos_home_is_its_own_install_root() {
    let env = Env::from_env(base(), HostOs::Linux, Some(unix(&["sdk"])), None, true).unwrap();
    assert_eq!(env.deveco_root().display(), "/sdk");
    let env = Env::from_env(base(), HostOs::Linux, Some(unix(&["a", "b"])), None, true).unwrap();
    assert_eq!(env.deveco_root().display(), "/a/b");
    let env = Env::from_env(base(), HostOs::Linux, Some(unix(&["a", "b", "c"])), None, true).unwrap();
    assert_eq!(env.deveco_root().display(), "/");
}

#[test]
fn ohos_home_that_is_not_a_directory_is_rejected() {
    let r = Env::from_env(base(), HostOs::MacOs, Some(unix(&["nowhere"])), None, false);
    assert!(matches!(r, Err(Error::OhosHomeNotADir)));
}

#[test]
fn without_ohos_home_macos_uses_deveco_studio() {
    let cand = Env::ohos_home_candidate(HostOs::MacOs, &None, &None).unwrap();
    assert_eq!(
        cand.display(),
        "/Applications/DevEco-Studio.app/Contents/sdk/default/openharmony"
    );
    let env = Env::from_env(base(), HostOs::MacOs, None, None, true).unwrap();
    assert_eq!(env.deveco_root().display(), "/Applications/DevEco-Studio.app/Contents");
    assert_eq!(env.ohpm_path().display(), "/Applications/DevEco-Studio.app/Contents/tools/ohpm/bin/ohpm");
    assert_eq!(env.hvigor_node_path().display(), "/Applications/DevEco-Studio.app/Contents/tools/node/bin/node");
    assert_eq!(env.emulator_path().display(), "/Applications/DevEco-Studio.app/Contents/tools/emulator/Emulator");
    assert_eq!(
        env.hvigorw_script_path().display(),
        "/Applications/DevEco-Studio.app/Contents/tools/hvigor/bin/hvigorw.js"
    );
    let r = Env::from_env(base(), HostOs::MacOs, None, None, false);
    assert!(matches!(r, Err(Error::OhosHomeNotSet)));
}

#[test]
fn without_ohos_home_windows_prefers_the_install_path_variable() {
    let d = default_deveco_root(HostOs::Windows, None).unwrap();
    assert_eq!(d.display(), "C:\\Program Files\\Huawei\\DevEco Studio");
    let custom = SdkPath {
        style: PathStyle::Windows,
        parts: vec![PathPart::Prefix("D:".into()), PathPart::Root, PathPart::Normal("DevEco".into())],
    };
    let env = Env::from_env(base(), HostOs::Windows, None, Some(custom), true).unwrap();
    assert_eq!(env.ohos_home().display(), "D:\\DevEco\\sdk\\default\\openharmony");
    assert_eq!(env.ohpm_path().display(), "D:\\DevEco\\tools\\ohpm\\bin\\ohpm.bat");
    assert_eq!(env.hvigor_node_path().display(), "D:\\DevEco\\tools\\node\\node.exe");
    assert_eq!(env.emulator_path().display(), "D:\\DevEco\\tools\\emulator\\Emulator.exe");
}

#[test]
fn without_ohos_home_linux_has_no_default() {
    assert!(default_deveco_root(HostOs::Linux, None).is_none());
    assert!(Env::ohos_home_candidate(HostOs::Linux, &None, &None).is_none());
    let r = Env::from_env(base(), HostOs::Linux, None, None, true);
    assert!(matches!(r, Err(Error::OhosHomeNotSet)));
}

#[test]
fn linux_command_line_tools_keep_ohpm_under_the_root() {
    let home = unix(&["cli", "sdk", "default", "openharmony"]);
    let env = Env::from_env(base(), HostOs::Linux, Some(home), None, true).unwrap();
    assert_eq!(env.ohpm_path().display(), "/cli/ohpm/bin/ohpm");
}

#[test]
fn exported_variables_override_the_base() {
    let home = unix(&["opt", "ohos", "sdk", "default", "openharmony"]);
    let env = Env::from_env(base(), HostOs::Linux, Some(home), None, true).unwrap();
    let vars = env.explicit_env();
    let sdk_dir = "/opt/ohos/sdk/default/openharmony".to_string();
    assert_eq!(lookup(&vars, "OHOS_HOME"), Some(sdk_dir.clone()));
    assert_eq!(lookup(&vars, "OHOS_NDK_HOME"), Some(sdk_dir.clone()));
    assert_eq!(lookup(&vars, "OHOS_BASE_SDK_HOME"), Some(sdk_dir));
    assert_eq!(lookup(&vars, "DEVECO_SDK_HOME"), Some("/opt/ohos/sdk".to_string()));
    assert_eq!(lookup(&vars, "PATH"), Some("/usr/bin:/bin".to_string()));
}

#[test]
fn new_reports_a_failed_base_environment() {
    let upstream = UpstreamError {
        message: "no home".to_string(),
        report: Report::error("Failed to find home".to_string(), "details".to_string()),
    };
    let r = Env::new(Err(upstream), HostOs::MacOs, None, None, true);
    let e = r.unwrap_err();
    assert!(!e.sdk_issue());
    assert_eq!(e.message(), "no home");
    let rep = e.report();
    assert_eq!(rep.msg, "Failed to find home");
    assert_eq!(rep.details, "details");
    let ok = Env::new(Ok(base()), HostOs::MacOs, None, None, true);
    assert!(ok.is_ok());
}

#[test]
fn sdk_errors_are_reported_as_environment_setup_failures() {
    assert!(Error::OhosHomeNotSet.sdk_issue());
    assert!(Error::OhosHomeNotADir.sdk_issue());
    let rep = Error::OhosHomeNotADir.report();
    assert_eq!(rep.msg, "Failed to initialize OpenHarmony environment");
    assert_eq!(
        rep.details,
        "Have you installed the OpenHarmony SDK? The `OHOS_HOME` environment variable is set, but doesn't point to an existing directory."
    );
    assert!(Error::OhosHomeNotSet.message().contains("C:\\Program Files\\Huawei\\DevEco Studio\\sdk\\default\\openharmony"));
}
