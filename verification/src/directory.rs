//! The transport directory: which endpoints there are.
//!
//! The system is asked by the caller; what it answered is given here its
//! final form. An empty answer is an answer, not a failure.

use vstd::prelude::*;
use vstd::string::*;
use crate::error::{Failure, SerialError};

verus! {

/// The endpoint identifiers that the system reported, or the reason for
/// which it could not be asked. The identifiers are passed on as they came,
/// none added, none dropped, in their order; a failure is passed on as a
/// failure of the listing and not tried again.
pub fn list_transports(found: Result<Vec<String>, String>) -> (listed: Result<
    Vec<String>,
    SerialError,
>)
    ensures
        match found {
            Ok(names) => listed == Ok::<Vec<String>, SerialError>(names),
            Err(cause) => listed is Err && listed->Err_0@ == (Failure::ListPorts {
                cause: cause@,
            }),
        },
{
    match found {
        Ok(names) => Ok(names),
        Err(cause) => Err(SerialError::ListPortsError(cause)),
    }
}

/// The lines that tell a user which endpoints there are: a heading and one
/// line for each identifier, or a single line that says there are none.
pub open spec fn report_lines(names: Seq<Seq<char>>) -> Seq<Seq<char>> {
    if names.len() == 0 {
        seq!["No serial ports found."@]
    } else {
        seq!["Available serial ports:"@] + names
    }
}

/// The lines that tell a user which endpoints there are.
pub fn port_report(names: &Vec<String>) -> (lines: Vec<String>)
    ensures
        lines.deep_view() == report_lines(names.deep_view()),
{
    let mut lines: Vec<String> = Vec::new();
    if names.len() == 0 {
        lines.push("No serial ports found.".to_owned());
        return lines;
    }
    lines.push("Available serial ports:".to_owned());
    let mut i: usize = 0;
    while i < names.len()
        invariant
            i <= names.len(),
            lines.len() == i + 1,
            lines[0]@ == "Available serial ports:"@,
            forall|k: int| 0 <= k < i ==> (#[trigger] lines[k + 1])@ == names[k]@,
        decreases names.len() - i,
    {
        lines.push(names[i].clone());
        i = i + 1;
    }
    proof {
        let told = lines.deep_view();
        let wanted = report_lines(names.deep_view());
        assert forall|k: int| 0 <= k < told.len() implies told[k] == wanted[k] by {
            if k > 0 {
                assert(lines[(k - 1) + 1]@ == names[k - 1]@);
            }
        }
    }
    lines
}

/// The line that tells a user why the endpoints could not be listed.
pub fn listing_failure_line(cause: &str) -> (line: String)
    ensures
        line@ == "Error listing ports: "@ + cause@,
{
    let mut line = "Error listing ports: ".to_owned();
    line.append(cause);
    line
}

} // verus!
