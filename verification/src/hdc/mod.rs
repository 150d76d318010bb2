//! `hdc`, the OpenHarmony device connector: how it is invoked and how its
//! failures are reported.

pub mod get_prop;

use vstd::prelude::*;
use crate::command::{strings_view, Command, CommandView};
use crate::env::{lemma_layout_names, ohos_vars, vars_view, Env};
use crate::path::{joined, PathView};
use crate::report::Report;
use crate::std_io::{io_error_text, utf8_error_text};

verus! {

/// Where `hdc` lives: `<OHOS_HOME>/toolchains/hdc`.
pub open spec fn hdc_program(env: &Env) -> PathView {
    joined(joined(env.home_view(), "toolchains"@), "hdc"@)
}

/// The variables every `hdc` invocation runs with (`Env::explicit_env`).
pub open spec fn tool_vars(env: &Env) -> Seq<(Seq<char>, Seq<char>)> {
    vars_view(env.base_env().vars@) + ohos_vars(env.home_view(), env.root_view())
}

/// `hdc` with the given arguments, run with the environment's variables.
pub open spec fn hdc_command(env: &Env, args: Seq<Seq<char>>) -> CommandView {
    CommandView { program: hdc_program(env), args, vars: tool_vars(env), dir: None }
}

/// The `hdc` command with `args`.
pub fn hdc(env: &Env, args: Vec<String>) -> (r: Command)
    ensures
        r@ == hdc_command(env, strings_view(args@)),
{
    proof {
        lemma_layout_names();
    }
    let program = env.toolchains_path().join("hdc");
    Command { program, args, vars: env.explicit_env(), dir: None }
}

/// Why running an `hdc` command and reading its output failed.
#[derive(Debug)]
pub enum RunCheckedError {
    /// The output was not valid UTF-8.
    InvalidUtf8(std::string::FromUtf8Error),
    /// The command could not be run.
    CommandFailed(std::io::Error),
}

impl RunCheckedError {
    /// The report for the failure, under the given message; the details are
    /// the underlying error's text.
    pub fn report(&self, msg: &str) -> (r: Report)
        ensures
            r.msg@ == msg@,
    {
        let details = match self {
            RunCheckedError::InvalidUtf8(e) => utf8_error_text(e),
            RunCheckedError::CommandFailed(e) => io_error_text(e),
        };
        Report::error(msg.to_owned(), details)
    }
}

/// `hdc` is `<OHOS_HOME>/toolchains/hdc`, in the style of `OHOS_HOME`, and
/// every `hdc` command runs with the environment's variables and no working
/// directory of its own.
pub proof fn law_hdc_location(env: &Env, args: Seq<Seq<char>>)
    ensures
        hdc_program(env) == (PathView {
            style: env.home_view().style,
            parts: env.home_view().parts + seq![
                crate::path::PartView::Normal("toolchains"@),
                crate::path::PartView::Normal("hdc"@),
            ],
        }),
        hdc_command(env, args).program == hdc_program(env),
        hdc_command(env, args).args == args,
        hdc_command(env, args).vars == vars_view(env.base_env().vars@) + ohos_vars(
            env.home_view(),
            env.root_view(),
        ),
        hdc_command(env, args).dir is None,
{
    assert(hdc_program(env).parts =~= env.home_view().parts + seq![
        crate::path::PartView::Normal("toolchains"@),
        crate::path::PartView::Normal("hdc"@),
    ]);
}

} // verus!
