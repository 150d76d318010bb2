//! Installing a project's packages with `ohpm`.

use vstd::prelude::*;
use crate::command::{push_str, Command, CommandView};
use crate::env::{ohpm_path_for, Env};
use crate::path::{PartView, PathPart, PathView, SdkPath};

verus! {

broadcast use vstd::string::group_string_axioms;

/// The `ohpm` to run: the one under the install root when it exists there,
/// else plain `ohpm`, looked up on `PATH`.
pub open spec fn ohpm_program(env: &Env, bundled_exists: bool) -> PathView {
    if bundled_exists {
        ohpm_path_for(env.host_os(), env.root_view())
    } else {
        PathView { style: env.host_os().style(), parts: seq![PartView::Normal("ohpm"@)] }
    }
}

/// `ohpm install`, run in the project directory with the inherited
/// environment; `bundled_exists` says whether [`Env::ohpm_path`] exists.
pub fn install_command(env: &Env, bundled_exists: bool, project_dir: &SdkPath) -> (r: Command)
    ensures
        r@ == (CommandView {
            program: ohpm_program(env, bundled_exists),
            args: seq!["install"@],
            vars: Seq::empty(),
            dir: Some(project_dir@),
        }),
{
    let program = if bundled_exists {
        env.ohpm_path()
    } else {
        let mut parts: Vec<PathPart> = Vec::new();
        parts.push(PathPart::Normal("ohpm".to_owned()));
        let p = SdkPath { style: env.host().path_style(), parts };
        assert(p@.parts =~= seq![PartView::Normal("ohpm"@)]);
        p
    };
    let mut c = Command::new(program);
    let mut args: Vec<String> = Vec::new();
    push_str(&mut args, "install");
    c.args = args;
    c.dir = Some(project_dir.duplicate());
    assert(c@.args =~= seq!["install"@]);
    c
}

/// Which `ohpm` runs: the bundled one exactly when it exists, otherwise plain
/// `ohpm` looked up on `PATH`, on every host; the host only decides where the
/// bundled one lives.
pub proof fn law_ohpm_fallback(env: &Env, bundled_exists: bool)
    ensures
        !bundled_exists ==> ohpm_program(env, bundled_exists) == (PathView {
            style: env.host_os().style(),
            parts: seq![PartView::Normal("ohpm"@)],
        }),
        bundled_exists ==> ohpm_program(env, bundled_exists) == ohpm_path_for(
            env.host_os(),
            env.root_view(),
        ),
{
}

} // verus!
