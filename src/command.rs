//! The argument templates of the pm2 invocations and the reading of their
//! outcome.

use vstd::prelude::*;
use crate::error::PmError;

verus! {

/// The lifecycle operations that act on one named process.
#[derive(Clone, Copy, Debug, PartialEq, Eq, Structural)]
pub enum Lifecycle {
    Start,
    Stop,
    Restart,
    Delete,
}

/// The pm2 subcommand word of a lifecycle operation.
pub open spec fn lifecycle_word(op: Lifecycle) -> Seq<char> {
    match op {
        Lifecycle::Start => "start"@,
        Lifecycle::Stop => "stop"@,
        Lifecycle::Restart => "restart"@,
        Lifecycle::Delete => "delete"@,
    }
}

/// One invocation of pm2.
pub enum Invocation {
    /// The version query that tests whether a candidate can be launched.
    Probe,
    /// The human-oriented listing.
    List,
    /// The listing as JSON.
    JsonList,
    /// A lifecycle operation on the named process.
    Act(Lifecycle, String),
}

/// The argument vector of an invocation.
pub open spec fn invocation_args(inv: Invocation) -> Seq<Seq<char>> {
    match inv {
        Invocation::Probe => seq!["--version"@],
        Invocation::List => seq!["list"@],
        Invocation::JsonList => seq!["jlist"@],
        Invocation::Act(op, name) => seq![lifecycle_word(op), name@],
    }
}

/// The views of a vector of strings.
pub open spec fn strings_view(v: Seq<String>) -> Seq<Seq<char>> {
    v.map_values(|s: String| s@)
}

fn lifecycle_str(op: Lifecycle) -> (r: &'static str)
    ensures
        r@ == lifecycle_word(op),
{
    match op {
        Lifecycle::Start => "start",
        Lifecycle::Stop => "stop",
        Lifecycle::Restart => "restart",
        Lifecycle::Delete => "delete",
    }
}

/// The arguments that pm2 is given for `inv`; the name of a lifecycle
/// operation is passed through as one argument, untouched.
pub fn arguments(inv: &Invocation) -> (r: Vec<String>)
    ensures
        strings_view(r@) == invocation_args(*inv),
{
    let mut v: Vec<String> = Vec::new();
    match inv {
        Invocation::Probe => v.push(String::from_str("--version")),
        Invocation::List => v.push(String::from_str("list")),
        Invocation::JsonList => v.push(String::from_str("jlist")),
        Invocation::Act(op, name) => {
            v.push(String::from_str(lifecycle_str(*op)));
            v.push(name.clone());
        },
    }
    assert(strings_view(v@) =~= invocation_args(*inv));
    v
}

/// The result of a pm2 run that started: its standard output when it exited
/// with success, else a command failure that carries its standard error.
pub fn command_outcome(success: bool, stdout: String, stderr: String) -> (r: Result<
    String,
    PmError,
>)
    ensures
        success ==> (r matches Ok(out) && out@ == stdout@),
        !success ==> (r matches Err(PmError::CommandFailed(msg)) && msg@ == stderr@),
{
    if success {
        Ok(stdout)
    } else {
        Err(PmError::CommandFailed(stderr))
    }
}

} // verus!
