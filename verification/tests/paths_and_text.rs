use open_harmony::path::{PathPart, PathStyle, SdkPath};
use open_harmony::text::{contains, ends_with, parses_as_usize, starts_with, trim};

fn unix(parts: &[&str]) -> SdkPath {
    let mut p = SdkPath { style: PathStyle::Unix, parts: vec![PathPart::Root] };
    for name in parts {
        p.parts.push(PathPart::Normal(name.to_string()));
    }
    p
}

#[test]
fn trim_strips_unicode_whitespace_on_both_ends() {
    assert_eq!(trim("  12345\n"), "12345");
    assert_eq!(trim("\u{A0}\t abc \u{3000}"), "abc");
    assert_eq!(trim("a b"), "a b");
    assert_eq!(trim(" \n\t "), "");
    assert_eq!(trim(""), "");
}

#[test]
fn usize_literals_parse_as_std_does() {
    for s in ["0", "42", "+7", "18446744073709551615", "0007"] {
        assert_eq!(parses_as_usize(s), s.parse::<usize>().is_ok(), "{s}");
        assert!(parses_as_usize(s));
    }
    for s in ["", "+", "-1", " 1", "1 ", "12a", "18446744073709551616", "99999999999999999999999"] {
        assert_eq!(parses_as_usize(s), s.parse::<usize>().is_ok(), "{s}");
        assert!(!parses_as_usize(s));
    }
}

#[test]
fn substring_and_affix_tests() {
    assert!(contains("x @webview_devtools_remote_42 y", "@webview_devtools_remote_42"));
    assert!(!contains("@webview_devtools_remote_4", "@webview_devtools_remote_42"));
    assert!(contains("abc", ""));
    assert!(starts_with("emulator-5554", "emulator"));
    assert!(!starts_with("emu", "emulator"));
    assert!(ends_with("app-unsigned.app", ".app"));
    assert!(!ends_with("app", ".app"));
}

#[test]
fn display_joins_named_components_with_the_separator() {
    assert_eq!(unix(&["a", "b"]).display(), "/a/b");
    assert_eq!(unix(&[]).display(), "/");
    let rel = SdkPath { style: PathStyle::Unix, parts: vec![PathPart::Current, PathPart::Normal("x".into())] };
    assert_eq!(rel.display(), "./x");
    let win = SdkPath {
        style: PathStyle::Windows,
        parts: vec![
            PathPart::Prefix("C:".into()),
            PathPart::Root,
            PathPart::Normal("Program Files".into()),
            PathPart::Normal("Huawei".into()),
        ],
    };
    assert_eq!(win.display(), "C:\\Program Files\\Huawei");
    let drive_relative = SdkPath {
        style: PathStyle::Windows,
        parts: vec![PathPart::Prefix("C:".into()), PathPart::Normal("x".into())],
    };
    assert_eq!(drive_relative.display(), "C:x");
}

#[test]
fn join_then_parent_gives_the_path_back() {
    let p = unix(&["opt", "sdk"]);
    let q = p.join("toolchains");
    assert_eq!(q.display(), "/opt/sdk/toolchains");
    assert_eq!(q.file_name().as_deref(), Some("toolchains"));
    assert_eq!(q.parent().unwrap().display(), "/opt/sdk");
    assert!(unix(&[]).parent().is_none());
    assert!(SdkPath::empty(PathStyle::Unix).parent().is_none());
    assert!(unix(&[]).file_name().is_none());
}

#[test]
fn extension_test_follows_path_extension() {
    assert!(unix(&["out", "x-default-unsigned.app"]).extension_is("app"));
    assert!(!unix(&["out", ".app"]).extension_is("app"));
    assert!(unix(&["out", "a.app"]).extension_is("app"));
    assert!(!unix(&["out", "a.hap"]).extension_is("app"));
    assert!(!unix(&["out", "app"]).extension_is("app"));
    assert!(!unix(&[]).extension_is("app"));
}
