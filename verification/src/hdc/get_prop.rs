//! Reading a device property with `hdc shell param get`.

use vstd::prelude::*;
use vstd::utf8::{decode_utf8, valid_utf8};
use crate::command::{strings_view, Command};
use crate::env::Env;
use crate::hdc::{hdc, hdc_command, RunCheckedError};
use crate::report::Report;
use crate::std_io::{string_from_utf8, timed_out};
use crate::text::{trim, trimmed};

verus! {

broadcast use vstd::string::group_string_axioms;

/// Why a property could not be read.
#[derive(Debug)]
pub enum Error {
    /// `hdc shell param get <prop>` ran but its output could not be read.
    LookupFailed { prop: String, source: RunCheckedError },
    /// The command could not be run or did not finish in time.
    Io(std::io::Error),
}

/// The headline of the report for a failed lookup of `prop`.
pub open spec fn lookup_failed_msg(prop: Seq<char>) -> Seq<char> {
    "Failed to run `hdc shell param get "@ + prop + "`"@
}

impl Error {
    /// The property whose lookup failed.
    pub fn prop(&self) -> (r: &String)
        requires
            self is LookupFailed,
        ensures
            r@ == self->LookupFailed_prop@,
    {
        match self {
            Error::LookupFailed { prop, .. } => prop,
            Error::Io(_) => {
                assert(false);
                unreached()
            },
        }
    }

    /// The report for a failed lookup: headed "Failed to run `hdc shell
    /// param get <prop>`", with the underlying error's text as details. Only a
    /// failed lookup has one, since the headline names the property.
    pub fn report(&self) -> (r: Report)
        requires
            self is LookupFailed,
        ensures
            r.msg@ == lookup_failed_msg(self->LookupFailed_prop@),
    {
        let mut msg = "Failed to run `hdc shell param get ".to_owned();
        msg.append(self.prop().as_str());
        msg.append("`");
        match self {
            Error::LookupFailed { source, .. } => source.report(msg.as_str()),
            Error::Io(_) => {
                assert(false);
                unreached()
            },
        }
    }
}

/// The arguments of a property lookup after `-t <serial>`.
pub open spec fn get_prop_args(prop: Seq<char>) -> Seq<Seq<char>> {
    seq!["shell"@, "param"@, "get"@, prop]
}

/// A property lookup addresses the device and names the property last; the
/// report headline of a failed lookup names the property inside backticks.
pub proof fn law_get_prop_args(serial_no: Seq<char>, prop: Seq<char>)
    ensures
        get_prop_args(prop).len() == 4 && get_prop_args(prop).take(3) == seq![
            "shell"@,
            "param"@,
            "get"@,
        ] && get_prop_args(prop).last() == prop,
        lookup_failed_msg(prop) == "Failed to run `hdc shell param get "@ + prop + "`"@,
{
    assert(get_prop_args(prop).take(3) =~= seq!["shell"@, "param"@, "get"@]);
}

/// `hdc -t <serial_no> shell param get <prop>`.
pub fn get_prop_command(env: &Env, serial_no: &str, prop: &str) -> (r: Command)
    ensures
        r@ == hdc_command(env, seq!["-t"@, serial_no@, "shell"@, "param"@, "get"@, prop@]),
        r@ == hdc_command(env, seq!["-t"@, serial_no@] + get_prop_args(prop@)),
{
    let mut args: Vec<String> = Vec::new();
    args.push("-t".to_owned());
    args.push(serial_no.to_owned());
    args.push("shell".to_owned());
    args.push("param".to_owned());
    args.push("get".to_owned());
    args.push(prop.to_owned());
    assert(strings_view(args@) =~= seq!["-t"@, serial_no@, "shell"@, "param"@, "get"@, prop@]);
    assert(seq!["-t"@, serial_no@] + get_prop_args(prop@) =~= seq!["-t"@, serial_no@, "shell"@, "param"@, "get"@, prop@]);
    hdc(env, args)
}

/// The property's value from the command's captured output: the output
/// decoded as UTF-8 and trimmed, or a failed lookup when it is not UTF-8.
pub fn prop_value(prop: &str, stdout: Vec<u8>) -> (r: Result<String, Error>)
    ensures
        r is Ok <==> valid_utf8(stdout@),
        r matches Ok(v) ==> v@ == trimmed(decode_utf8(stdout@)),
        r matches Err(e) ==> e is LookupFailed && e->LookupFailed_prop@ == prop@
            && e->LookupFailed_source is InvalidUtf8,
{
    match string_from_utf8(stdout) {
        Ok(s) => Ok(trim(s.as_str())),
        Err(e) => Err(Error::LookupFailed { prop: prop.to_owned(), source: RunCheckedError::InvalidUtf8(e) }),
    }
}

/// The outcome of `hdc shell param get <prop>` given what running it gave:
/// the failure to run it, a timeout (`None`, reported as a timed-out I/O
/// error), or the captured output.
pub fn get_prop(prop: &str, run: Result<Option<Vec<u8>>, std::io::Error>) -> (r: Result<String, Error>)
    ensures
        run matches Err(e) ==> r == Err::<String, Error>(Error::Io(e)),
        run matches Ok(None) ==> r matches Err(Error::Io(_)),
        run matches Ok(Some(out)) ==> {
            &&& r is Ok <==> valid_utf8(out@)
            &&& r matches Ok(v) ==> v@ == trimmed(decode_utf8(out@))
            &&& r matches Err(e) ==> e is LookupFailed && e->LookupFailed_prop@ == prop@
                && e->LookupFailed_source is InvalidUtf8
        },
{
    match run {
        Err(e) => Err(Error::Io(e)),
        Ok(None) => Err(Error::Io(timed_out("`hdc shell param get` timed out"))),
        Ok(Some(out)) => prop_value(prop, out),
    }
}

} // verus!
