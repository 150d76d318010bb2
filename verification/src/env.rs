//! The OpenHarmony environment: where the SDK and the DevEco Studio (or
//! command line tools) install root are, resolved from `OHOS_HOME`, and the
//! tool paths and environment variables derived from them.

use vstd::prelude::*;
use crate::opts::HostOs;
use crate::path::{
    displayed, is_component_name, joined, law_parent_of_joined, parent_of, PartView, PathPart, PathStyle, PathView,
    SdkPath,
};
use crate::report::{Report, UpstreamError};

verus! {

broadcast use vstd::string::group_string_axioms;

/// The base environment the OpenHarmony one extends: the `PATH` it runs
/// tools with and the variables it exports to them.
#[derive(Clone, Debug)]
pub struct CoreEnv {
    pub path: String,
    pub vars: Vec<(String, String)>,
}

/// Environment variables as name/value character sequences.
pub open spec fn vars_view(v: Seq<(String, String)>) -> Seq<(Seq<char>, Seq<char>)> {
    v.map_values(|p: (String, String)| (p.0@, p.1@))
}

/// The variables a list sets, a later entry for a name overriding an earlier
/// one (as inserting them in order into a map does).
pub open spec fn env_map(s: Seq<(Seq<char>, Seq<char>)>) -> Map<Seq<char>, Seq<char>>
    decreases s.len(),
{
    if s.len() == 0 {
        Map::empty()
    } else {
        env_map(s.drop_last()).insert(s.last().0, s.last().1)
    }
}

/// A copy of a list of variables.
pub fn copy_vars(v: &Vec<(String, String)>) -> (r: Vec<(String, String)>)
    ensures
        vars_view(r@) == vars_view(v@),
{
    let mut r: Vec<(String, String)> = Vec::new();
    let n = v.len();
    let mut i: usize = 0;
    while i < n
        invariant
            n == v.len(),
            i <= n,
            r@.len() == i,
            vars_view(r@) == vars_view(v@).take(i as int),
        decreases n - i,
    {
        let k = v[i].0.clone();
        let x = v[i].1.clone();
        let ghost prev = r@;
        r.push((k, x));
        proof {
            assert(forall|j: int| 0 <= j < i ==> r@[j] == prev[j]);
            assert(vars_view(r@) =~= vars_view(v@).take(i + 1));
        }
        i = i + 1;
    }
    assert(vars_view(v@).take(n as int) =~= vars_view(v@));
    r
}

impl CoreEnv {
    /// The `PATH` the tools run with.
    pub fn path(&self) -> (r: &String)
        ensures
            r@ == self.path@,
    {
        &self.path
    }

    /// The variables the base environment exports.
    pub fn explicit_env(&self) -> (r: Vec<(String, String)>)
        ensures
            vars_view(r@) == vars_view(self.vars@),
    {
        copy_vars(&self.vars)
    }
}

/// Why the OpenHarmony environment could not be set up.
#[derive(Debug)]
pub enum Error {
    /// The base environment failed.
    CoreEnvError(UpstreamError),
    /// `OHOS_HOME` is unset and no default install holds the SDK.
    OhosHomeNotSet,
    /// `OHOS_HOME` is set but is not an existing directory.
    OhosHomeNotADir,
}

/// The message of an SDK problem.
pub open spec fn sdk_error_message(e: Error) -> Seq<char> {
    match e {
        Error::CoreEnvError(u) => u.message@,
        Error::OhosHomeNotSet => "Have you installed DevEco Studio or the OpenHarmony command line tools? The `OHOS_HOME` environment variable isn't set, and is required. Set it to the `openharmony` SDK directory (by default `C:\\Program Files\\Huawei\\DevEco Studio\\sdk\\default\\openharmony` on Windows, `/Applications/DevEco-Studio.app/Contents/sdk/default/openharmony` on macOS, or `<command line tools>/sdk/default/openharmony` on Linux)."@,
        Error::OhosHomeNotADir => "Have you installed the OpenHarmony SDK? The `OHOS_HOME` environment variable is set, but doesn't point to an existing directory."@,
    }
}

impl Error {
    /// Whether the error is a problem with the OpenHarmony SDK rather than
    /// with the base environment.
    pub fn sdk_issue(&self) -> (b: bool)
        ensures
            b == !(self is CoreEnvError),
    {
        !matches!(self, Error::CoreEnvError(_))
    }

    /// The error's message (its `Display` text).
    pub fn message(&self) -> (r: String)
        ensures
            r@ == sdk_error_message(*self),
    {
        match self {
            Error::CoreEnvError(u) => u.message.clone(),
            Error::OhosHomeNotSet => "Have you installed DevEco Studio or the OpenHarmony command line tools? The `OHOS_HOME` environment variable isn't set, and is required. Set it to the `openharmony` SDK directory (by default `C:\\Program Files\\Huawei\\DevEco Studio\\sdk\\default\\openharmony` on Windows, `/Applications/DevEco-Studio.app/Contents/sdk/default/openharmony` on macOS, or `<command line tools>/sdk/default/openharmony` on Linux).".to_owned(),
            Error::OhosHomeNotADir => "Have you installed the OpenHarmony SDK? The `OHOS_HOME` environment variable is set, but doesn't point to an existing directory.".to_owned(),
        }
    }

    /// The report shown for the error: the base environment's own report,
    /// or a report headed "Failed to initialize OpenHarmony environment"
    /// with the error's message as details.
    pub fn report(&self) -> (r: Report)
        ensures
            match self {
                Error::CoreEnvError(u) => r.msg@ == u.report.msg@ && r.details@ == u.report.details@,
                _ => r.msg@ == "Failed to initialize OpenHarmony environment"@ && r.details@
                    == sdk_error_message(*self),
            },
    {
        match self {
            Error::CoreEnvError(u) => u.report(),
            _ => Report::error(
                "Failed to initialize OpenHarmony environment".to_owned(),
                self.message(),
            ),
        }
    }
}

/// The default DevEco Studio install root on macOS.
pub open spec fn macos_default_root() -> PathView {
    PathView {
        style: PathStyle::Unix,
        parts: seq![
            PartView::Root,
            PartView::Normal("Applications"@),
            PartView::Normal("DevEco-Studio.app"@),
            PartView::Normal("Contents"@),
        ],
    }
}

/// The default DevEco Studio install root on Windows.
pub open spec fn windows_default_root() -> PathView {
    PathView {
        style: PathStyle::Windows,
        parts: seq![
            PartView::Prefix("C:"@),
            PartView::Root,
            PartView::Normal("Program Files"@),
            PartView::Normal("Huawei"@),
            PartView::Normal("DevEco Studio"@),
        ],
    }
}

/// The per-host default install root: a fixed place on macOS; on Windows
/// `DEV_ECO_STUDIO_INSTALL_PATH` when it is set, else a fixed place; none
/// elsewhere (DevEco Studio is not made for Linux).
pub open spec fn default_root_for(host: HostOs, install_var: Option<PathView>) -> Option<
    PathView,
> {
    match host {
        HostOs::MacOs => Some(macos_default_root()),
        HostOs::Windows => Some(
            match install_var {
                Some(p) => p,
                None => windows_default_root(),
            },
        ),
        _ => None,
    }
}

/// `<root>/sdk/default/openharmony`, where an install keeps the SDK.
pub open spec fn conventional_home(root: PathView) -> PathView {
    joined(joined(joined(root, "sdk"@), "default"@), "openharmony"@)
}

/// Three levels up from `home`, or `home` itself where it has fewer levels.
pub open spec fn three_up(home: PathView) -> PathView {
    match parent_of(home) {
        Some(p1) => match parent_of(p1) {
            Some(p2) => match parent_of(p2) {
                Some(p3) => p3,
                None => home,
            },
            None => home,
        },
        None => home,
    }
}

/// The directory whose existence decides the outcome: `OHOS_HOME` when set,
/// else the SDK directory under the default install root, if there is one.
pub open spec fn home_candidate(
    host: HostOs,
    home_var: Option<PathView>,
    install_var: Option<PathView>,
) -> Option<PathView> {
    match home_var {
        Some(h) => Some(h),
        None => match default_root_for(host, install_var) {
            Some(r) => Some(conventional_home(r)),
            None => None,
        },
    }
}

/// The SDK directory and install root, or the error, for the given
/// `OHOS_HOME`, `DEV_ECO_STUDIO_INSTALL_PATH` and whether the candidate
/// directory exists.
pub open spec fn resolve_dirs(
    host: HostOs,
    home_var: Option<PathView>,
    install_var: Option<PathView>,
    candidate_is_dir: bool,
) -> Result<(PathView, PathView), Error> {
    match home_var {
        Some(h) => if candidate_is_dir {
            Ok((h, three_up(h)))
        } else {
            Err(Error::OhosHomeNotADir)
        },
        None => match default_root_for(host, install_var) {
            Some(r) => if candidate_is_dir {
                Ok((conventional_home(r), r))
            } else {
                Err(Error::OhosHomeNotSet)
            },
            None => Err(Error::OhosHomeNotSet),
        },
    }
}

/// The view of an optional path.
pub open spec fn opt_view(p: Option<SdkPath>) -> Option<PathView> {
    match p {
        Some(q) => Some(q@),
        None => None,
    }
}

/// The names the SDK layout is made of are single path components.
pub proof fn lemma_layout_names()
    ensures
        is_component_name("sdk"@),
        is_component_name("default"@),
        is_component_name("openharmony"@),
        is_component_name("toolchains"@),
        is_component_name("tools"@),
        is_component_name("ohpm"@),
        is_component_name("bin"@),
        is_component_name("ohpm.bat"@),
        is_component_name("node"@),
        is_component_name("node.exe"@),
        is_component_name("hvigor"@),
        is_component_name("hvigorw.js"@),
        is_component_name("emulator"@),
        is_component_name("Emulator"@),
        is_component_name("Emulator.exe"@),
        is_component_name("hdc"@),
{
    assert(is_component_name("sdk"@)) by {
        reveal_strlit("sdk");
        assert("sdk"@ =~= seq!['s', 'd', 'k']);
    }
    assert(is_component_name("default"@)) by {
        reveal_strlit("default");
        assert("default"@ =~= seq!['d', 'e', 'f', 'a', 'u', 'l', 't']);
    }
    assert(is_component_name("openharmony"@)) by {
        reveal_strlit("openharmony");
        assert("openharmony"@ =~= seq!['o', 'p', 'e', 'n', 'h', 'a', 'r', 'm', 'o', 'n', 'y']);
    }
    assert(is_component_name("toolchains"@)) by {
        reveal_strlit("toolchains");
        assert("toolchains"@ =~= seq!['t', 'o', 'o', 'l', 'c', 'h', 'a', 'i', 'n', 's']);
    }
    assert(is_component_name("tools"@)) by {
        reveal_strlit("tools");
        assert("tools"@ =~= seq!['t', 'o', 'o', 'l', 's']);
    }
    assert(is_component_name("ohpm"@)) by {
        reveal_strlit("ohpm");
        assert("ohpm"@ =~= seq!['o', 'h', 'p', 'm']);
    }
    assert(is_component_name("bin"@)) by {
        reveal_strlit("bin");
        assert("bin"@ =~= seq!['b', 'i', 'n']);
    }
    assert(is_component_name("ohpm.bat"@)) by {
        reveal_strlit("ohpm.bat");
        assert("ohpm.bat"@ =~= seq!['o', 'h', 'p', 'm', '.', 'b', 'a', 't']);
    }
    assert(is_component_name("node"@)) by {
        reveal_strlit("node");
        assert("node"@ =~= seq!['n', 'o', 'd', 'e']);
    }
    assert(is_component_name("node.exe"@)) by {
        reveal_strlit("node.exe");
        assert("node.exe"@ =~= seq!['n', 'o', 'd', 'e', '.', 'e', 'x', 'e']);
    }
    assert(is_component_name("hvigor"@)) by {
        reveal_strlit("hvigor");
        assert("hvigor"@ =~= seq!['h', 'v', 'i', 'g', 'o', 'r']);
    }
    assert(is_component_name("hvigorw.js"@)) by {
        reveal_strlit("hvigorw.js");
        assert("hvigorw.js"@ =~= seq!['h', 'v', 'i', 'g', 'o', 'r', 'w', '.', 'j', 's']);
    }
    assert(is_component_name("emulator"@)) by {
        reveal_strlit("emulator");
        assert("emulator"@ =~= seq!['e', 'm', 'u', 'l', 'a', 't', 'o', 'r']);
    }
    assert(is_component_name("Emulator"@)) by {
        reveal_strlit("Emulator");
        assert("Emulator"@ =~= seq!['E', 'm', 'u', 'l', 'a', 't', 'o', 'r']);
    }
    assert(is_component_name("Emulator.exe"@)) by {
        reveal_strlit("Emulator.exe");
        assert("Emulator.exe"@ =~= seq!['E', 'm', 'u', 'l', 'a', 't', 'o', 'r', '.', 'e', 'x', 'e']);
    }
    assert(is_component_name("hdc"@)) by {
        reveal_strlit("hdc");
        assert("hdc"@ =~= seq!['h', 'd', 'c']);
    }
}

fn macos_root() -> (r: SdkPath)
    ensures
        r@ == macos_default_root(),
{
    let mut parts: Vec<PathPart> = Vec::new();
    parts.push(PathPart::Root);
    parts.push(PathPart::Normal("Applications".to_owned()));
    parts.push(PathPart::Normal("DevEco-Studio.app".to_owned()));
    parts.push(PathPart::Normal("Contents".to_owned()));
    let r = SdkPath { style: PathStyle::Unix, parts };
    assert(r@.parts =~= macos_default_root().parts);
    r
}

fn windows_root() -> (r: SdkPath)
    ensures
        r@ == windows_default_root(),
{
    let mut parts: Vec<PathPart> = Vec::new();
    parts.push(PathPart::Prefix("C:".to_owned()));
    parts.push(PathPart::Root);
    parts.push(PathPart::Normal("Program Files".to_owned()));
    parts.push(PathPart::Normal("Huawei".to_owned()));
    parts.push(PathPart::Normal("DevEco Studio".to_owned()));
    let r = SdkPath { style: PathStyle::Windows, parts };
    assert(r@.parts =~= windows_default_root().parts);
    r
}

/// The per-host default DevEco Studio install root, given the value of
/// `DEV_ECO_STUDIO_INSTALL_PATH` (read only on Windows).
pub fn default_deveco_root(host: HostOs, install_var: Option<SdkPath>) -> (r: Option<SdkPath>)
    ensures
        opt_view(r) == default_root_for(host, opt_view(install_var)),
{
    match host {
        HostOs::MacOs => Some(macos_root()),
        HostOs::Windows => match install_var {
            Some(p) => Some(p),
            None => Some(windows_root()),
        },
        _ => None,
    }
}

/// `<root>/sdk/default/openharmony`.
pub fn sdk_dir_under(root: &SdkPath) -> (r: SdkPath)
    ensures
        r@ == conventional_home(root@),
{
    proof {
        lemma_layout_names();
    }
    root.join("sdk").join("default").join("openharmony")
}

fn three_levels_up(home: &SdkPath) -> (r: SdkPath)
    ensures
        r@ == three_up(home@),
{
    match home.parent() {
        Some(p1) => match p1.parent() {
            Some(p2) => match p2.parent() {
                Some(p3) => p3,
                None => home.duplicate(),
            },
            None => home.duplicate(),
        },
        None => home.duplicate(),
    }
}

fn copy_opt(p: &Option<SdkPath>) -> (r: Option<SdkPath>)
    ensures
        opt_view(r) == opt_view(*p),
{
    match p {
        Some(q) => Some(q.duplicate()),
        None => None,
    }
}

/// `<root>/<a>/<b>/<c>/<d>`.
pub open spec fn joined4(
    root: PathView,
    a: Seq<char>,
    b: Seq<char>,
    c: Seq<char>,
    d: Seq<char>,
) -> PathView {
    joined(joined(joined(joined(root, a), b), c), d)
}

/// Where the `ohpm` package manager lives under the install root: under
/// `tools/` with DevEco Studio (macOS, Windows), directly under the root with
/// the Linux command line tools, and as a `.bat` script off macOS and Linux.
pub open spec fn ohpm_path_for(host: HostOs, root: PathView) -> PathView {
    match host {
        HostOs::MacOs => joined4(root, "tools"@, "ohpm"@, "bin"@, "ohpm"@),
        HostOs::Linux => joined(joined(joined(root, "ohpm"@), "bin"@), "ohpm"@),
        _ => joined4(root, "tools"@, "ohpm"@, "bin"@, "ohpm.bat"@),
    }
}

/// The Node binary bundled with DevEco Studio.
pub open spec fn hvigor_node_path_for(host: HostOs, root: PathView) -> PathView {
    match host {
        HostOs::MacOs => joined4(root, "tools"@, "node"@, "bin"@, "node"@),
        _ => joined(joined(joined(root, "tools"@), "node"@), "node.exe"@),
    }
}

/// The `hvigorw.js` script bundled with DevEco Studio.
pub open spec fn hvigorw_script_path_for(root: PathView) -> PathView {
    joined4(root, "tools"@, "hvigor"@, "bin"@, "hvigorw.js"@)
}

/// The DevEco Studio emulator binary.
pub open spec fn emulator_path_for(host: HostOs, root: PathView) -> PathView {
    match host {
        HostOs::MacOs => joined(joined(joined(root, "tools"@), "emulator"@), "Emulator"@),
        _ => joined(joined(joined(root, "tools"@), "emulator"@), "Emulator.exe"@),
    }
}

/// The variables the OpenHarmony environment exports on top of the base
/// ones: the SDK directory as `OHOS_HOME`, `OHOS_NDK_HOME` and
/// `OHOS_BASE_SDK_HOME`, and `<install root>/sdk` as `DEVECO_SDK_HOME`.
pub open spec fn ohos_vars(home: PathView, root: PathView) -> Seq<(Seq<char>, Seq<char>)> {
    seq![
        ("OHOS_HOME"@, displayed(home)),
        ("OHOS_NDK_HOME"@, displayed(home)),
        ("OHOS_BASE_SDK_HOME"@, displayed(home)),
        ("DEVECO_SDK_HOME"@, displayed(joined(root, "sdk"@))),
    ]
}

/// The paths of the OpenHarmony environment.
#[derive(Clone, Debug)]
pub struct Env {
    pub base: CoreEnv,
    ohos_home: SdkPath,
    deveco_root: SdkPath,
    host: HostOs,
}

impl Env {
    /// The `openharmony` SDK directory.
    pub closed spec fn home_view(&self) -> PathView {
        self.ohos_home@
    }

    /// The install root the SDK directory was resolved from.
    pub closed spec fn root_view(&self) -> PathView {
        self.deveco_root@
    }

    /// The base environment.
    pub closed spec fn base_env(&self) -> CoreEnv {
        self.base
    }

    /// The host the environment was resolved on.
    pub closed spec fn host_os(&self) -> HostOs {
        self.host
    }

    /// The directory whose existence decides how the environment resolves:
    /// `OHOS_HOME` when it is set, else `<default root>/sdk/default/openharmony`
    /// when the host has a default install root, else none.
    pub fn ohos_home_candidate(
        host: HostOs,
        home_var: &Option<SdkPath>,
        install_var: &Option<SdkPath>,
    ) -> (r: Option<SdkPath>)
        ensures
            opt_view(r) == home_candidate(host, opt_view(*home_var), opt_view(*install_var)),
    {
        match home_var {
            Some(h) => Some(h.duplicate()),
            None => match default_deveco_root(host, copy_opt(install_var)) {
                Some(root) => Some(sdk_dir_under(&root)),
                None => None,
            },
        }
    }

    /// Resolves the environment from the value of `OHOS_HOME`, that of
    /// `DEV_ECO_STUDIO_INSTALL_PATH`, and whether the candidate directory
    /// ([`Env::ohos_home_candidate`]) is an existing directory.
    ///
    /// `OHOS_HOME` must point at the `openharmony` SDK directory, by
    /// convention `<install root>/sdk/default/openharmony`; the install root is
    /// taken as three levels up from it. Without `OHOS_HOME` the host's default
    /// install root is used.
    pub fn from_env(
        base: CoreEnv,
        host: HostOs,
        home_var: Option<SdkPath>,
        install_var: Option<SdkPath>,
        candidate_is_dir: bool,
    ) -> (r: Result<Env, Error>)
        ensures
            match r {
                Ok(env) => {
                    &&& env.base_env() == base
                    &&& env.host_os() == host
                    &&& resolve_dirs(host, opt_view(home_var), opt_view(install_var), candidate_is_dir)
                        == Ok::<(PathView, PathView), Error>((env.home_view(), env.root_view()))
                },
                Err(e) => resolve_dirs(
                    host,
                    opt_view(home_var),
                    opt_view(install_var),
                    candidate_is_dir,
                ) == Err::<(PathView, PathView), Error>(e),
            },
    {
        match home_var {
            Some(home) => {
                if !candidate_is_dir {
                    return Err(Error::OhosHomeNotADir);
                }
                let root = three_levels_up(&home);
                Ok(Env { base, ohos_home: home, deveco_root: root, host })
            },
            None => match default_deveco_root(host, install_var) {
                Some(root) => {
                    let home = sdk_dir_under(&root);
                    if !candidate_is_dir {
                        return Err(Error::OhosHomeNotSet);
                    }
                    Ok(Env { base, ohos_home: home, deveco_root: root, host })
                },
                None => Err(Error::OhosHomeNotSet),
            },
        }
    }

    /// Sets the environment up on top of the base environment, which failed
    /// or not; see [`Env::from_env`] for the other arguments.
    pub fn new(
        base: Result<CoreEnv, UpstreamError>,
        host: HostOs,
        home_var: Option<SdkPath>,
        install_var: Option<SdkPath>,
        candidate_is_dir: bool,
    ) -> (r: Result<Env, Error>)
        ensures
            match base {
                Err(u) => r == Err::<Env, Error>(Error::CoreEnvError(u)),
                Ok(b) => match r {
                    Ok(env) => {
                        &&& env.base_env() == b
                        &&& env.host_os() == host
                        &&& resolve_dirs(host, opt_view(home_var), opt_view(install_var), candidate_is_dir)
                            == Ok::<(PathView, PathView), Error>((env.home_view(), env.root_view()))
                    },
                    Err(e) => resolve_dirs(
                        host,
                        opt_view(home_var),
                        opt_view(install_var),
                        candidate_is_dir,
                    ) == Err::<(PathView, PathView), Error>(e),
                },
            },
    {
        match base {
            Err(u) => Err(Error::CoreEnvError(u)),
            Ok(b) => Env::from_env(b, host, home_var, install_var, candidate_is_dir),
        }
    }

    /// The `PATH` the tools run with.
    pub fn path(&self) -> (r: &String)
        ensures
            r@ == self.base_env().path@,
    {
        &self.base.path
    }

    /// The host the environment was resolved on.
    pub fn host(&self) -> (r: HostOs)
        ensures
            r == self.host_os(),
    {
        self.host
    }

    /// The `openharmony` SDK directory (`OHOS_HOME`).
    pub fn ohos_home(&self) -> (r: &SdkPath)
        ensures
            r@ == self.home_view(),
    {
        &self.ohos_home
    }

    /// The install root that `OHOS_HOME` was resolved from.
    pub fn deveco_root(&self) -> (r: &SdkPath)
        ensures
            r@ == self.root_view(),
    {
        &self.deveco_root
    }

    /// The SDK root, `<install root>/sdk`, exported as `DEVECO_SDK_HOME`.
    pub fn sdk_root(&self) -> (r: SdkPath)
        ensures
            r@ == joined(self.root_view(), "sdk"@),
    {
        proof {
            lemma_layout_names();
        }
        self.deveco_root.join("sdk")
    }

    /// `<OHOS_HOME>/toolchains`, where `hdc` lives.
    pub fn toolchains_path(&self) -> (r: SdkPath)
        ensures
            r@ == joined(self.home_view(), "toolchains"@),
    {
        proof {
            lemma_layout_names();
        }
        self.ohos_home.join("toolchains")
    }

    /// Path to the `ohpm` package manager binary.
    pub fn ohpm_path(&self) -> (r: SdkPath)
        ensures
            r@ == ohpm_path_for(self.host_os(), self.root_view()),
    {
        proof {
            lemma_layout_names();
        }
        match self.host {
            HostOs::MacOs => self.deveco_root.join("tools").join("ohpm").join("bin").join("ohpm"),
            HostOs::Linux => self.deveco_root.join("ohpm").join("bin").join("ohpm"),
            _ => self.deveco_root.join("tools").join("ohpm").join("bin").join("ohpm.bat"),
        }
    }

    /// Path to the Node binary bundled with DevEco Studio, used to run
    /// `hvigorw.js` when `hvigorw` is not on `PATH`.
    pub fn hvigor_node_path(&self) -> (r: SdkPath)
        ensures
            r@ == hvigor_node_path_for(self.host_os(), self.root_view()),
    {
        proof {
            lemma_layout_names();
        }
        match self.host {
            HostOs::MacOs => self.deveco_root.join("tools").join("node").join("bin").join("node"),
            _ => self.deveco_root.join("tools").join("node").join("node.exe"),
        }
    }

    /// Path to the `hvigorw.js` script bundled with DevEco Studio.
    pub fn hvigorw_script_path(&self) -> (r: SdkPath)
        ensures
            r@ == hvigorw_script_path_for(self.root_view()),
    {
        proof {
            lemma_layout_names();
        }
        self.deveco_root.join("tools").join("hvigor").join("bin").join("hvigorw.js")
    }

    /// Path to the DevEco Studio emulator binary.
    pub fn emulator_path(&self) -> (r: SdkPath)
        ensures
            r@ == emulator_path_for(self.host_os(), self.root_view()),
    {
        proof {
            lemma_layout_names();
        }
        match self.host {
            HostOs::MacOs => self.deveco_root.join("tools").join("emulator").join("Emulator"),
            _ => self.deveco_root.join("tools").join("emulator").join("Emulator.exe"),
        }
    }

    /// The variables the tools run with: the base environment's, then those
    /// of [`ohos_vars`]; a later entry for a name overrides an earlier one.
    pub fn explicit_env(&self) -> (r: Vec<(String, String)>)
        ensures
            vars_view(r@) == vars_view(self.base_env().vars@) + ohos_vars(
                self.home_view(),
                self.root_view(),
            ),
    {
        let mut r = self.base.explicit_env();
        let home = self.ohos_home.display();
        let sdk = self.sdk_root().display();
        let ghost before = vars_view(r@);
        r.push(("OHOS_HOME".to_owned(), home.clone()));
        r.push(("OHOS_NDK_HOME".to_owned(), home.clone()));
        r.push(("OHOS_BASE_SDK_HOME".to_owned(), home));
        r.push(("DEVECO_SDK_HOME".to_owned(), sdk));
        assert(vars_view(r@) =~= before + ohos_vars(self.home_view(), self.root_view()));
        r
    }
}

/// An `OHOS_HOME` of the conventional shape `<root>/sdk/default/openharmony`
/// that exists resolves to that SDK directory and to `<root>` as install
/// root, three levels up.
pub proof fn law_conventional_home_resolves_to_its_root(
    host: HostOs,
    root: PathView,
    install_var: Option<PathView>,
)
    ensures
        resolve_dirs(host, Some(conventional_home(root)), install_var, true) == Ok::<
            (PathView, PathView),
            Error,
        >((conventional_home(root), root)),
{
    let a = joined(root, "sdk"@);
    let b = joined(a, "default"@);
    law_parent_of_joined(b, "openharmony"@);
    law_parent_of_joined(a, "default"@);
    law_parent_of_joined(root, "sdk"@);
}

/// Without `OHOS_HOME`, a resolved environment always has the conventional
/// shape: the SDK directory is `<install root>/sdk/default/openharmony`.
pub proof fn law_default_install_is_conventional(
    host: HostOs,
    install_var: Option<PathView>,
    candidate_is_dir: bool,
)
    ensures
        resolve_dirs(host, None, install_var, candidate_is_dir) is Ok ==> {
            let (home, root) = resolve_dirs(host, None, install_var, candidate_is_dir)->Ok_0;
            home == conventional_home(root)
        },
{
}

/// In an environment of the conventional shape, the SDK root exported as
/// `DEVECO_SDK_HOME` (`<install root>/sdk`) is two levels up from
/// `OHOS_HOME`.
pub proof fn law_sdk_root_is_two_levels_up(root: PathView)
    ensures
        parent_of(conventional_home(root)) is Some,
        parent_of(parent_of(conventional_home(root))->Some_0) == Some(joined(root, "sdk"@)),
{
    let a = joined(root, "sdk"@);
    let b = joined(a, "default"@);
    law_parent_of_joined(b, "openharmony"@);
    law_parent_of_joined(a, "default"@);
}

/// Which error comes: a set `OHOS_HOME` that is not a directory gives
/// `OhosHomeNotADir`, never `OhosHomeNotSet`; without `OHOS_HOME` the only
/// error is `OhosHomeNotSet`. Resolution fails exactly when the candidate
/// directory is missing or there is none.
pub proof fn law_resolution_errors(
    host: HostOs,
    home_var: Option<PathView>,
    install_var: Option<PathView>,
    candidate_is_dir: bool,
)
    ensures
        resolve_dirs(host, home_var, install_var, candidate_is_dir) is Err <==> (!candidate_is_dir
            || home_candidate(host, home_var, install_var) is None),
        home_var is Some && resolve_dirs(host, home_var, install_var, candidate_is_dir) is Err
            ==> resolve_dirs(host, home_var, install_var, candidate_is_dir)->Err_0
            is OhosHomeNotADir,
        home_var is None && resolve_dirs(host, home_var, install_var, candidate_is_dir) is Err
            ==> resolve_dirs(host, home_var, install_var, candidate_is_dir)->Err_0
            is OhosHomeNotSet,
{
}

/// The variables the tools run with are the base ones, with `OHOS_HOME`,
/// `OHOS_NDK_HOME` and `OHOS_BASE_SDK_HOME` set to the SDK directory and
/// `DEVECO_SDK_HOME` to `<install root>/sdk`, whatever the base held for them.
pub proof fn law_exported_variables(
    base: Seq<(Seq<char>, Seq<char>)>,
    home: PathView,
    root: PathView,
)
    ensures
        env_map(base + ohos_vars(home, root)) == env_map(base).insert(
            "OHOS_HOME"@,
            displayed(home),
        ).insert("OHOS_NDK_HOME"@, displayed(home)).insert(
            "OHOS_BASE_SDK_HOME"@,
            displayed(home),
        ).insert("DEVECO_SDK_HOME"@, displayed(joined(root, "sdk"@))),
{
    let v = ohos_vars(home, root);
    let s4 = base + v;
    let s3 = base + v.take(3);
    let s2 = base + v.take(2);
    let s1 = base + v.take(1);
    assert(s4.drop_last() =~= s3);
    assert(s3.drop_last() =~= s2);
    assert(s2.drop_last() =~= s1);
    assert(s1.drop_last() =~= base);
    assert(s4.last() == v[3]);
    assert(s3.last() == v[2]);
    assert(s2.last() == v[1]);
    assert(s1.last() == v[0]);
    assert(env_map(s1) == env_map(base).insert(v[0].0, v[0].1));
    assert(env_map(s2) == env_map(s1).insert(v[1].0, v[1].1));
    assert(env_map(s3) == env_map(s2).insert(v[2].0, v[2].1));
    assert(env_map(s4) == env_map(s3).insert(v[3].0, v[3].1));
}

/// The directory whose existence decides the outcome is the one that
/// becomes the SDK directory: `OHOS_HOME` itself when it is set, else the SDK
/// directory under the default install root; there is none exactly when
/// resolution cannot succeed.
pub proof fn law_candidate_is_the_resolved_home(
    host: HostOs,
    home_var: Option<PathView>,
    install_var: Option<PathView>,
)
    ensures
        home_var matches Some(h) ==> home_candidate(host, home_var, install_var) == Some(h),
        resolve_dirs(host, home_var, install_var, true) is Ok ==> home_candidate(
            host,
            home_var,
            install_var,
        ) == Some(resolve_dirs(host, home_var, install_var, true)->Ok_0.0),
        home_candidate(host, home_var, install_var) is None ==> resolve_dirs(
            host,
            home_var,
            install_var,
            true,
        ) is Err,
{
}

/// The default install roots: `/Applications/DevEco-Studio.app/Contents` on
/// macOS; on Windows `DEV_ECO_STUDIO_INSTALL_PATH` when set, else
/// `C:\Program Files\Huawei\DevEco Studio`; none on Linux and elsewhere.
pub proof fn law_default_roots(host: HostOs, install_var: Option<PathView>)
    ensures
        host == HostOs::MacOs ==> default_root_for(host, install_var) == Some(
            PathView {
                style: PathStyle::Unix,
                parts: seq![PartView::Root, PartView::Normal("Applications"@), PartView::Normal("DevEco-Studio.app"@), PartView::Normal("Contents"@)],
            },
        ),
        host == HostOs::Windows && install_var is Some ==> default_root_for(host, install_var)
            == install_var,
        host == HostOs::Windows && install_var is None ==> default_root_for(host, install_var)
            == Some(
            PathView {
                style: PathStyle::Windows,
                parts: seq![
                    PartView::Prefix("C:"@),
                    PartView::Root,
                    PartView::Normal("Program Files"@),
                    PartView::Normal("Huawei"@),
                    PartView::Normal("DevEco Studio"@),
                ],
            },
        ),
        host == HostOs::Linux || host == HostOs::Other ==> default_root_for(host, install_var)
            is None,
{
}

/// Where the tools are under the install root `root`, on each host. The
/// result keeps `root`'s style and extends its components; only the host
/// decides between layouts, never the style of `root`.
pub proof fn law_tool_layout(host: HostOs, root: PathView)
    ensures
        conventional_home(root) == (PathView {
            style: root.style,
            parts: root.parts + seq![PartView::Normal("sdk"@), PartView::Normal("default"@), PartView::Normal("openharmony"@)],
        }),
        hvigorw_script_path_for(root) == (PathView {
            style: root.style,
            parts: root.parts + seq![PartView::Normal("tools"@), PartView::Normal("hvigor"@), PartView::Normal("bin"@), PartView::Normal("hvigorw.js"@)],
        }),
        host == HostOs::MacOs ==> ohpm_path_for(host, root) == (PathView {
            style: root.style,
            parts: root.parts + seq![PartView::Normal("tools"@), PartView::Normal("ohpm"@), PartView::Normal("bin"@), PartView::Normal("ohpm"@)],
        }),
        host == HostOs::Linux ==> ohpm_path_for(host, root) == (PathView {
            style: root.style,
            parts: root.parts + seq![PartView::Normal("ohpm"@), PartView::Normal("bin"@), PartView::Normal("ohpm"@)],
        }),
        host == HostOs::Windows || host == HostOs::Other ==> ohpm_path_for(host, root) == (
        PathView { style: root.style, parts: root.parts + seq![PartView::Normal("tools"@), PartView::Normal("ohpm"@), PartView::Normal("bin"@), PartView::Normal("ohpm.bat"@)] }),
        host == HostOs::MacOs ==> hvigor_node_path_for(host, root) == (PathView {
            style: root.style,
            parts: root.parts + seq![PartView::Normal("tools"@), PartView::Normal("node"@), PartView::Normal("bin"@), PartView::Normal("node"@)],
        }),
        host != HostOs::MacOs ==> hvigor_node_path_for(host, root) == (PathView {
            style: root.style,
            parts: root.parts + seq![PartView::Normal("tools"@), PartView::Normal("node"@), PartView::Normal("node.exe"@)],
        }),
        host == HostOs::MacOs ==> emulator_path_for(host, root) == (PathView {
            style: root.style,
            parts: root.parts + seq![PartView::Normal("tools"@), PartView::Normal("emulator"@), PartView::Normal("Emulator"@)],
        }),
        host != HostOs::MacOs ==> emulator_path_for(host, root) == (PathView {
            style: root.style,
            parts: root.parts + seq![PartView::Normal("tools"@), PartView::Normal("emulator"@), PartView::Normal("Emulator.exe"@)],
        }),
{
    assert(conventional_home(root).parts =~= root.parts + seq![PartView::Normal("sdk"@), PartView::Normal("default"@), PartView::Normal("openharmony"@)]);
    assert(hvigorw_script_path_for(root).parts =~= root.parts + seq![PartView::Normal("tools"@), PartView::Normal("hvigor"@), PartView::Normal("bin"@), PartView::Normal("hvigorw.js"@)]);
    assert(joined4(root, "tools"@, "ohpm"@, "bin"@, "ohpm"@).parts =~= root.parts + seq![PartView::Normal("tools"@), PartView::Normal("ohpm"@), PartView::Normal("bin"@), PartView::Normal("ohpm"@)]);
    assert(joined(joined(joined(root, "ohpm"@), "bin"@), "ohpm"@).parts =~= root.parts + seq![PartView::Normal("ohpm"@), PartView::Normal("bin"@), PartView::Normal("ohpm"@)]);
    assert(joined4(root, "tools"@, "ohpm"@, "bin"@, "ohpm.bat"@).parts =~= root.parts + seq![PartView::Normal("tools"@), PartView::Normal("ohpm"@), PartView::Normal("bin"@), PartView::Normal("ohpm.bat"@)]);
    assert(joined4(root, "tools"@, "node"@, "bin"@, "node"@).parts =~= root.parts + seq![PartView::Normal("tools"@), PartView::Normal("node"@), PartView::Normal("bin"@), PartView::Normal("node"@)]);
    assert(joined(joined(joined(root, "tools"@), "node"@), "node.exe"@).parts =~= root.parts + seq![PartView::Normal("tools"@), PartView::Normal("node"@), PartView::Normal("node.exe"@)]);
    assert(joined(joined(joined(root, "tools"@), "emulator"@), "Emulator"@).parts =~= root.parts + seq![PartView::Normal("tools"@), PartView::Normal("emulator"@), PartView::Normal("Emulator"@)]);
    assert(joined(joined(joined(root, "tools"@), "emulator"@), "Emulator.exe"@).parts =~= root.parts + seq![PartView::Normal("tools"@), PartView::Normal("emulator"@), PartView::Normal("Emulator.exe"@)]);
}

/// Three levels up from a directory whose last three components are names is
/// the directory without them; with fewer levels it is the directory itself.
pub proof fn law_three_up(home: PathView, a: Seq<char>, b: Seq<char>, c: Seq<char>)
    ensures
        three_up(joined(joined(joined(home, a), b), c)) == home,
        home.parts.len() == 0 ==> three_up(home) == home,
{
    law_parent_of_joined(joined(joined(home, a), b), c);
    law_parent_of_joined(joined(home, a), b);
    law_parent_of_joined(home, a);
}

/// Without `OHOS_HOME`, an existing SDK directory under the host's default
/// install root resolves to that directory and that root.
pub proof fn law_default_install_resolves(host: HostOs, install_var: Option<PathView>)
    ensures
        default_root_for(host, install_var) matches Some(r) ==> resolve_dirs(
            host,
            None,
            install_var,
            true,
        ) == Ok::<(PathView, PathView), Error>((conventional_home(r), r)),
        default_root_for(host, install_var) is None ==> resolve_dirs(host, None, install_var, true)
            == Err::<(PathView, PathView), Error>(Error::OhosHomeNotSet),
{
}

} // verus!
