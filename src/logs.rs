//! Where pm2 keeps the logs of a process, and how the two streams are
//! shown together.

use vstd::prelude::*;

verus! {

/// The log file of process `name` for the stream `stream` ("out" or
/// "error"), under the home directory `home`.
pub open spec fn log_file(home: Seq<char>, name: Seq<char>, stream: Seq<char>) -> Seq<char> {
    home + "/.pm2/logs/"@ + name + "-"@ + stream + ".log"@
}

fn log_path(home: &str, name: &str, stream: &str) -> (r: String)
    ensures
        r@ == log_file(home@, name@, stream@),
{
    let mut s = String::from_str(home);
    s.append("/.pm2/logs/");
    s.append(name);
    s.append("-");
    s.append(stream);
    s.append(".log");
    s
}

/// The paths of the standard output log and the standard error log of
/// process `name`, in that order.
pub fn log_paths(home: &str, name: &str) -> (r: (String, String))
    ensures
        r.0@ == log_file(home@, name@, "out"@),
        r.1@ == log_file(home@, name@, "error"@),
{
    (log_path(home, name, "out"), log_path(home, name, "error"))
}

/// The two streams shown together: the error stream, a newline, then the
/// output stream. A log that does not exist is passed as empty text.
pub fn join_logs(err_content: &str, out_content: &str) -> (r: String)
    ensures
        r@ == err_content@ + seq!['\n'] + out_content@,
{
    let mut s = String::from_str(err_content);
    proof {
        reveal_strlit("\n");
    }
    s.append("\n");
    s.append(out_content);
    s
}

} // verus!
