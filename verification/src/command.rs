//! The three remote commands the tool issues, as program name and
//! argument vectors, and the report text for a failed installation.
//!
//! The surrounding binary hands these unchanged to the remote execution
//! channel; their exact contents are part of the tool's observable
//! behaviour, so they are built here under contracts.

use vstd::prelude::*;
use vstd::string::StringExecFns;

verus! {

/// The firewall control utility run on the remote host.
pub fn remote_program() -> (r: &'static str)
    ensures
        r@ == "nft"@,
{
    "nft"
}

/// Arguments of the apply command: read the program from standard input.
pub fn apply_args() -> (r: Vec<String>)
    ensures
        r.deep_view() == seq!["-f"@, "-"@],
{
    let mut v: Vec<String> = Vec::new();
    v.push(String::from_str("-f"));
    v.push(String::from_str("-"));
    proof {
        assert(v.deep_view() =~~= seq!["-f"@, "-"@]);
    }
    v
}

/// Arguments of the existence check for the table named `identifier`.
pub fn check_args(identifier: &str) -> (r: Vec<String>)
    ensures
        r.deep_view() == seq!["list"@, "table"@, identifier@],
{
    let mut v: Vec<String> = Vec::new();
    v.push(String::from_str("list"));
    v.push(String::from_str("table"));
    v.push(String::from_str(identifier));
    proof {
        assert(v.deep_view() =~~= seq!["list"@, "table"@, identifier@]);
    }
    v
}

/// Arguments of the best-effort delete of the table named `identifier`.
pub fn delete_args(identifier: &str) -> (r: Vec<String>)
    ensures
        r.deep_view() == seq!["delete"@, "table"@, identifier@],
{
    let mut v: Vec<String> = Vec::new();
    v.push(String::from_str("delete"));
    v.push(String::from_str("table"));
    v.push(String::from_str(identifier));
    proof {
        assert(v.deep_view() =~~= seq!["delete"@, "table"@, identifier@]);
    }
    v
}

/// The report for a failed installation: it always carries the error
/// output captured from the remote apply command.
pub fn install_failure_message(stderr: &str) -> (r: String)
    ensures
        r@ == "Installing redirect failed: "@ + stderr@,
{
    let mut s = String::from_str("Installing redirect failed: ");
    s.append(stderr);
    s
}

} // verus!
