//! Assembling the multi-entry `.app` with `hvigorw assembleApp`: the command
//! line, which files count as `.app` artifacts, and which one the build hands
//! back.

use vstd::prelude::*;
use crate::opts::{NoiseLevel, Profile};
use crate::path::{displayed, file_name_of, has_extension, is_component_name, joined, PathView, SdkPath};
use crate::report::Report;
use crate::std_io::io_error_text;
use crate::text::{contains, has_substring, has_suffix};
use crate::command::{push_str, strings_view};

verus! {

broadcast use vstd::string::group_string_axioms;

/// Why assembling the `.app` failed.
#[derive(Debug)]
pub enum AppError {
    /// Running `ohpm` or `hvigorw` failed.
    AssembleFailed(std::io::Error),
    /// No unsigned `.app` was found under the output directory.
    NotFound(SdkPath),
}

impl AppError {
    /// The report for the failure, headed "Failed to assemble App": the I/O
    /// error's text, or "no .app found under <dir>".
    pub fn report(&self) -> (r: Report)
        ensures
            r.msg@ == "Failed to assemble App"@,
            self matches AppError::NotFound(dir) ==> r.details@ == "no .app found under "@
                + displayed(dir@),
    {
        match self {
            AppError::AssembleFailed(e) => Report::error(
                "Failed to assemble App".to_owned(),
                io_error_text(e),
            ),
            AppError::NotFound(dir) => {
                let mut details = "no .app found under ".to_owned();
                let shown = dir.display();
                details.append(shown.as_str());
                Report::error("Failed to assemble App".to_owned(), details)
            },
        }
    }
}

/// `<project>/build/outputs/default`, where `assembleApp` puts the `.app`.
pub open spec fn output_dir_of(project_dir: PathView) -> PathView {
    joined(joined(joined(project_dir, "build"@), "outputs"@), "default"@)
}

/// The project-level output directory holding the assembled `.app`
/// (`<projectName>-default-*.app`).
pub fn output_dir(project_dir: &SdkPath) -> (r: SdkPath)
    ensures
        r@ == output_dir_of(project_dir@),
{
    assert(is_component_name("build"@)) by {
        reveal_strlit("build");
        assert("build"@ =~= seq!['b', 'u', 'i', 'l', 'd']);
    }
    assert(is_component_name("outputs"@)) by {
        reveal_strlit("outputs");
        assert("outputs"@ =~= seq!['o', 'u', 't', 'p', 'u', 't', 's']);
    }
    assert(is_component_name("default"@)) by {
        reveal_strlit("default");
        assert("default"@ =~= seq!['d', 'e', 'f', 'a', 'u', 'l', 't']);
    }
    project_dir.join("build").join("outputs").join("default")
}

/// The flag that sets `hvigorw`'s verbosity.
pub open spec fn noise_flag(noise_level: NoiseLevel) -> Seq<char> {
    match noise_level {
        NoiseLevel::Polite => "--info"@,
        _ => "--debug"@,
    }
}

/// The arguments of `hvigorw assembleApp`: a project-level task (no
/// `--mode module`), parallel and incremental, in the profile's build mode.
pub open spec fn assemble_args(noise_level: NoiseLevel, profile: Profile) -> Seq<Seq<char>> {
    seq![
        "assembleApp"@,
        "--parallel"@,
        "--incremental"@,
        "-p"@,
        "buildMode="@ + profile.name(),
        noise_flag(noise_level),
    ]
}

/// The arguments `hvigorw` runs with to assemble the `.app`.
pub fn hvigor_assemble_args(noise_level: NoiseLevel, profile: Profile) -> (r: Vec<String>)
    ensures
        strings_view(r@) == assemble_args(noise_level, profile),
{
    let mut r: Vec<String> = Vec::new();
    push_str(&mut r, "assembleApp");
    push_str(&mut r, "--parallel");
    push_str(&mut r, "--incremental");
    push_str(&mut r, "-p");
    let mut mode = "buildMode=".to_owned();
    mode.append(profile.as_str());
    push_str(&mut r, mode.as_str());
    match noise_level {
        NoiseLevel::Polite => push_str(&mut r, "--info"),
        _ => push_str(&mut r, "--debug"),
    }
    assert(strings_view(r@) =~= assemble_args(noise_level, profile));
    r
}

/// Whether a file is an `.app` artifact: its extension is `app`.
pub open spec fn is_app_artifact(p: PathView) -> bool {
    has_extension(p, "app"@)
}

/// Whether an artifact is the unsigned `.app`: its file name holds
/// `-unsigned`.
pub open spec fn is_unsigned_artifact(p: PathView) -> bool {
    match file_name_of(p) {
        Some(n) => has_substring(n, "-unsigned"@),
        None => false,
    }
}

/// The views of a list of paths.
pub open spec fn paths_view(v: Seq<SdkPath>) -> Seq<PathView> {
    v.map_values(|p: SdkPath| p@)
}

/// The `.app` artifacts among `entries`, in their order.
pub open spec fn app_artifacts(entries: Seq<PathView>) -> Seq<PathView>
    decreases entries.len(),
{
    if entries.len() == 0 {
        Seq::empty()
    } else {
        app_artifacts(entries.drop_last()) + if is_app_artifact(entries.last()) {
            seq![entries.last()]
        } else {
            Seq::empty()
        }
    }
}

/// Whether `p` is an `.app` artifact.
pub fn is_app_path(p: &SdkPath) -> (b: bool)
    ensures
        b == is_app_artifact(p@),
{
    p.extension_is("app")
}

/// Whether `p` is the unsigned `.app`.
pub fn is_unsigned_path(p: &SdkPath) -> (b: bool)
    ensures
        b == is_unsigned_artifact(p@),
{
    match p.file_name() {
        Some(n) => contains(n.as_str(), "-unsigned"),
        None => false,
    }
}

/// All `.app` artifacts (signed and unsigned) among the entries of the
/// output directory, found by extension rather than by name so that the
/// project name need not be known.
pub fn app_paths(entries: &Vec<SdkPath>) -> (r: Vec<SdkPath>)
    ensures
        paths_view(r@) == app_artifacts(paths_view(entries@)),
{
    let mut r: Vec<SdkPath> = Vec::new();
    let n = entries.len();
    let mut i: usize = 0;
    while i < n
        invariant
            n == entries.len(),
            i <= n,
            paths_view(r@) == app_artifacts(paths_view(entries@).take(i as int)),
        decreases n - i,
    {
        let ghost before = r@;
        let ghost t = paths_view(entries@).take(i + 1);
        assert(t.drop_last() =~= paths_view(entries@).take(i as int));
        assert(t.last() == entries@[i as int]@);
        if is_app_path(&entries[i]) {
            let p = entries[i].duplicate();
            r.push(p);
            assert(paths_view(r@) =~= paths_view(before) + seq![p@]);
        } else {
            assert(paths_view(r@) =~= paths_view(before) + Seq::<PathView>::empty());
        }
        i = i + 1;
    }
    assert(paths_view(entries@).take(n as int) =~= paths_view(entries@));
    r
}

/// The outcome of `assembleApp`, given how running `ohpm install` and
/// `hvigorw` went and the `.app` artifacts found afterwards: the failure to
/// run, else the first unsigned artifact. `assembleApp` always emits an
/// unsigned `.app`, so when there is none the build failed and `NotFound`
/// names the output directory; a signed artifact left from an earlier build
/// is never handed back.
pub fn build(run: Result<(), std::io::Error>, app_paths: &Vec<SdkPath>, output_dir: SdkPath) -> (r:
    Result<SdkPath, AppError>)
    ensures
        run matches Err(e) ==> r == Err::<SdkPath, AppError>(AppError::AssembleFailed(e)),
        run is Ok ==> match r {
            Ok(p) => exists|i: int|
                #![trigger app_paths@[i]]
                0 <= i < app_paths@.len() && p@ == app_paths@[i]@ && is_unsigned_artifact(
                    app_paths@[i]@,
                ) && forall|j: int| 0 <= j < i ==> !is_unsigned_artifact(#[trigger] app_paths@[j]@),
            Err(e) => e == AppError::NotFound(output_dir) && forall|j: int|
                0 <= j < app_paths@.len() ==> !is_unsigned_artifact(#[trigger] app_paths@[j]@),
        },
{
    match run {
        Err(e) => Err(AppError::AssembleFailed(e)),
        Ok(()) => {
            let n = app_paths.len();
            let mut i: usize = 0;
            while i < n
                invariant
                    n == app_paths.len(),
                    run is Ok,
                    i <= n,
                    forall|j: int| 0 <= j < i ==> !is_unsigned_artifact(#[trigger] app_paths@[j]@),
                decreases n - i,
            {
                if is_unsigned_path(&app_paths[i]) {
                    return Ok(app_paths[i].duplicate());
                }
                i = i + 1;
            }
            Err(AppError::NotFound(output_dir))
        },
    }
}

/// The `assembleApp` arguments for every noise level and profile: the fixed
/// task and flags, the profile's lower-case build mode, and a verbosity flag
/// that depends on the noise level alone (`--info` when polite, `--debug`
/// otherwise).
pub proof fn law_assemble_args(noise_level: NoiseLevel, profile: Profile)
    ensures
        assemble_args(noise_level, profile).len() == 6,
        assemble_args(noise_level, profile).take(4) == seq![
            "assembleApp"@,
            "--parallel"@,
            "--incremental"@,
            "-p"@,
        ],
        assemble_args(noise_level, profile)[4] == "buildMode="@ + (if profile == Profile::Debug {
            "debug"@
        } else {
            "release"@
        }),
        assemble_args(noise_level, profile)[5] == (if noise_level == NoiseLevel::Polite {
            "--info"@
        } else {
            "--debug"@
        }),
{
    assert(assemble_args(noise_level, profile).take(4) =~= seq![
        "assembleApp"@,
        "--parallel"@,
        "--incremental"@,
        "-p"@,
    ]);
}

/// The output directory is `<project>/build/outputs/default`.
pub proof fn law_output_dir(project_dir: PathView)
    ensures
        output_dir_of(project_dir) == (PathView {
            style: project_dir.style,
            parts: project_dir.parts + seq![
                crate::path::PartView::Normal("build"@),
                crate::path::PartView::Normal("outputs"@),
                crate::path::PartView::Normal("default"@),
            ],
        }),
{
    assert(output_dir_of(project_dir).parts =~= project_dir.parts + seq![
        crate::path::PartView::Normal("build"@),
        crate::path::PartView::Normal("outputs"@),
        crate::path::PartView::Normal("default"@),
    ]);
}

/// Which files count: a file named `<stem>.app` with a non-empty stem is an
/// `.app` artifact, a file named just `.app` is not, and an artifact's name
/// always ends in `.app`; a file whose name holds `-unsigned` anywhere is the
/// unsigned artifact.
pub proof fn law_artifact_names(
    dir: PathView,
    stem: Seq<char>,
    before: Seq<char>,
    after: Seq<char>,
    p: PathView,
)
    ensures
        stem.len() > 0 ==> is_app_artifact(joined(dir, stem + ".app"@)),
        !is_app_artifact(joined(dir, ".app"@)),
        is_app_artifact(p) ==> file_name_of(p) is Some && has_suffix(
            file_name_of(p)->Some_0,
            ".app"@,
        ),
        is_unsigned_artifact(joined(dir, before + "-unsigned"@ + after)),
{
    reveal_strlit(".app");
    crate::path::law_parent_of_joined(dir, stem + ".app"@);
    crate::path::law_parent_of_joined(dir, ".app"@);
    crate::path::law_parent_of_joined(dir, before + "-unsigned"@ + after);
    assert(seq!['.'] + "app"@ =~= ".app"@) by {
        reveal_strlit("app");
    }
    crate::text::law_suffix(stem, ".app"@, stem + ".app"@);
    crate::text::law_substring_of_concat(before, "-unsigned"@, after);
}

/// The artifacts kept from a directory listing are exactly its `.app`
/// entries: each one kept is an `.app` entry of the listing, and every `.app`
/// entry is kept.
pub proof fn law_app_artifacts(entries: Seq<PathView>)
    ensures
        forall|k: int|
            0 <= k < app_artifacts(entries).len() ==> is_app_artifact(
                #[trigger] app_artifacts(entries)[k],
            ) && entries.contains(app_artifacts(entries)[k]),
        forall|k: int|
            0 <= k < entries.len() && is_app_artifact(#[trigger] entries[k])
                ==> app_artifacts(entries).contains(entries[k]),
    decreases entries.len(),
{
    if entries.len() > 0 {
        let init = entries.drop_last();
        law_app_artifacts(init);
        let a = app_artifacts(entries);
        let ai = app_artifacts(init);
        assert forall|k: int| 0 <= k < a.len() implies is_app_artifact(#[trigger] a[k])
            && entries.contains(a[k]) by {
            if k < ai.len() {
                assert(a[k] == ai[k]);
                let w = choose|w: int| 0 <= w < init.len() && init[w] == ai[k];
                assert(entries[w] == init[w]);
            } else {
                assert(a[k] == entries.last());
                assert(entries[entries.len() - 1] == entries.last());
            }
        }
        assert forall|k: int| 0 <= k < entries.len() && is_app_artifact(#[trigger] entries[k])
            implies a.contains(entries[k]) by {
            if k < init.len() {
                assert(init[k] == entries[k]);
                let w = choose|w: int| 0 <= w < ai.len() && ai[w] == init[k];
                assert(a[w] == ai[w]);
            } else {
                assert(a[a.len() - 1] == entries.last());
            }
        }
    }
}

/// Only a file whose name holds `-unsigned` is the unsigned artifact.
pub proof fn law_unsigned_needs_marker(p: PathView)
    ensures
        is_unsigned_artifact(p) ==> file_name_of(p) is Some && has_substring(
            file_name_of(p)->Some_0,
            "-unsigned"@,
        ),
{
}

} // verus!
