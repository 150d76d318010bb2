//! External commands as the tooling runs them: the program, its arguments,
//! the environment variables it is given and the directory it runs in.

use vstd::prelude::*;
use crate::env::vars_view;
use crate::path::{PathView, SdkPath};

verus! {

broadcast use vstd::string::group_string_axioms;

/// A command to run.
#[derive(Debug)]
pub struct Command {
    pub program: SdkPath,
    pub args: Vec<String>,
    /// Variables set for the command, on top of the inherited environment; a
    /// later entry for a name overrides an earlier one.
    pub vars: Vec<(String, String)>,
    /// The working directory, when it is not the current one.
    pub dir: Option<SdkPath>,
}

/// The mathematical value of a [`Command`].
#[verifier::ext_equal]
pub struct CommandView {
    pub program: PathView,
    pub args: Seq<Seq<char>>,
    pub vars: Seq<(Seq<char>, Seq<char>)>,
    pub dir: Option<PathView>,
}

/// The character sequences of a list of strings.
pub open spec fn strings_view(v: Seq<String>) -> Seq<Seq<char>> {
    v.map_values(|s: String| s@)
}

/// Appending a string appends its characters' sequence.
pub proof fn lemma_strings_view_push(v: Seq<String>, x: String)
    ensures
        strings_view(v.push(x)) == strings_view(v).push(x@),
{
    assert(strings_view(v.push(x)) =~= strings_view(v).push(x@));
}

/// Appends `s` to a list of strings.
pub fn push_str(v: &mut Vec<String>, s: &str)
    ensures
        strings_view(final(v)@) == strings_view(old(v)@).push(s@),
{
    let x = s.to_owned();
    proof {
        lemma_strings_view_push(v@, x);
    }
    v.push(x);
}

impl View for Command {
    type V = CommandView;

    open spec fn view(&self) -> CommandView {
        CommandView {
            program: self.program@,
            args: strings_view(self.args@),
            vars: vars_view(self.vars@),
            dir: match self.dir {
                Some(d) => Some(d@),
                None => None,
            },
        }
    }
}

/// `c` with `more` appended to its arguments.
pub open spec fn with_args(c: CommandView, more: Seq<Seq<char>>) -> CommandView {
    CommandView { args: c.args + more, ..c }
}

impl Command {
    /// `program` with no arguments, no variables, in the current directory.
    pub fn new(program: SdkPath) -> (r: Command)
        ensures
            r@ == (CommandView {
                program: program@,
                args: Seq::empty(),
                vars: Seq::empty(),
                dir: None,
            }),
    {
        let r = Command { program, args: Vec::new(), vars: Vec::new(), dir: None };
        assert(r@.args =~= Seq::<Seq<char>>::empty());
        assert(r@.vars =~= Seq::<(Seq<char>, Seq<char>)>::empty());
        r
    }

    /// Appends one argument.
    pub fn arg(&mut self, a: &str)
        ensures
            final(self)@ == with_args(old(self)@, seq![a@]),
    {
        let ghost before = self@;
        self.args.push(a.to_owned());
        assert(self@.args =~= before.args + seq![a@]);
    }
}

} // verus!
