//! The container status facade: classify one invocation's outcome.

use vstd::prelude::*;

use crate::text::seq_contains;
use crate::text::str_contains;
use crate::text::trim_spec;
use crate::text::trim_str;

verus! {

/// What one attempt to run the external tool produced: the executable could
/// not be located, the process failed to launch for another reason, or the
/// process ran to completion with an exit status and captured output.
pub enum Outcome {
    /// The executable could not be located; carries the OS error text.
    NotFound(String),
    /// The OS failed to start the process for another reason; carries the OS
    /// error text.
    LaunchFailed(String),
    /// The process ran and exited.
    Exited { success: bool, stdout: String, stderr: String },
}

/// Builds a greeting for `name`.
pub fn greet(name: &str) -> (r: String)
    ensures
        r@ == "Hello, "@ + name@ + "! You've been greeted from Rust!"@,
{
    let mut m = "Hello, ".to_owned();
    m.append(name);
    m.append("! You've been greeted from Rust!");
    m
}

/// The views of a result's payload strings, for stating contracts.
pub open spec fn result_view(r: Result<String, String>) -> Result<Seq<char>, Seq<char>> {
    match r {
        Ok(s) => Ok(s@),
        Err(s) => Err(s@),
    }
}

/// The substring of the combined output that marks the backing API server as
/// not running.
pub open spec fn not_running_pattern() -> Seq<char> {
    "apiserver is not running"@
}

/// The result the version query owes for a given invocation outcome.
pub open spec fn spec_check_version(o: Outcome) -> Result<Seq<char>, Seq<char>> {
    match o {
        Outcome::NotFound(_e) => Err(
            "Container CLI not found. Please install the Apple Container system."@,
        ),
        Outcome::LaunchFailed(e) => Err("Failed to execute container command: "@ + e@),
        Outcome::Exited { success, stdout, stderr } => if success {
            Ok(trim_spec(stdout@))
        } else {
            Err("Container command failed: "@ + trim_spec(stderr@))
        },
    }
}

/// Classifies the outcome of invoking the external tool's version query.
///
/// A located, zero-exit process succeeds with its trimmed standard output;
/// a non-zero exit fails with the trimmed standard error; a process that
/// could not be launched fails with a message naming the cause, with the
/// executable-not-found condition singled out as an installation hint.
pub fn check_container_version(o: &Outcome) -> (r: Result<String, String>)
    ensures
        result_view(r) == spec_check_version(*o),
{
    match o {
        Outcome::NotFound(_e) => Err(
            "Container CLI not found. Please install the Apple Container system.".to_owned(),
        ),
        Outcome::LaunchFailed(e) => {
            let mut m = "Failed to execute container command: ".to_owned();
            m.append(e.as_str());
            Err(m)
        },
        Outcome::Exited { success, stdout, stderr } => {
            if *success {
                Ok(trim_str(stdout.as_str()))
            } else {
                let t = trim_str(stderr.as_str());
                let mut m = "Container command failed: ".to_owned();
                m.append(t.as_str());
                Err(m)
            }
        },
    }
}

/// The result the system-status query owes for a given invocation outcome.
///
/// The check for the not-running pattern in the combined output comes first,
/// whatever the exit status says: the tool's exit code is not a reliable
/// signal for this condition.
pub open spec fn spec_check_system_status(o: Outcome) -> Result<Seq<char>, Seq<char>> {
    match o {
        Outcome::NotFound(_e) => Err("Container CLI not found. Cannot check system status."@),
        Outcome::LaunchFailed(e) => Err("Failed to execute container system status: "@ + e@),
        Outcome::Exited { success, stdout, stderr } => if seq_contains(
            stdout@ + stderr@,
            not_running_pattern(),
        ) {
            Err("Container system is not running. Please start the container system."@)
        } else if success && trim_spec(stdout@).len() > 0 {
            Ok(trim_spec(stdout@))
        } else {
            Err("Container system status check failed: "@ + trim_spec(stdout@ + stderr@))
        },
    }
}

/// Classifies the outcome of invoking the external tool's system-status query.
///
/// Standard output and standard error are concatenated, in that order and
/// untrimmed, for pattern inspection only. First match wins: the not-running
/// pattern in the combined output fails the call regardless of exit status;
/// otherwise a zero exit with non-empty trimmed standard output succeeds with
/// that text; anything else fails with the trimmed combined output.
pub fn check_container_system_status(o: &Outcome) -> (r: Result<String, String>)
    ensures
        result_view(r) == spec_check_system_status(*o),
{
    match o {
        Outcome::NotFound(_e) => Err(
            "Container CLI not found. Cannot check system status.".to_owned(),
        ),
        Outcome::LaunchFailed(e) => {
            let mut m = "Failed to execute container system status: ".to_owned();
            m.append(e.as_str());
            Err(m)
        },
        Outcome::Exited { success, stdout, stderr } => {
            let mut combined = stdout.clone();
            combined.append(stderr.as_str());
            if str_contains(combined.as_str(), "apiserver is not running") {
                Err("Container system is not running. Please start the container system."
                    .to_owned())
            } else {
                let st = trim_str(stdout.as_str());
                if *success && !st.as_str().is_empty() {
                    Ok(st)
                } else {
                    let tc = trim_str(combined.as_str());
                    let mut m = "Container system status check failed: ".to_owned();
                    m.append(tc.as_str());
                    Err(m)
                }
            }
        },
    }
}

/// The result the start action owes for a given invocation outcome.
///
/// The start action launches a shell, not the tool itself, so a launch
/// failure gets no executable-not-found hint: both launch-failure conditions
/// report the OS error text the same way.
pub open spec fn spec_start_system(o: Outcome) -> Result<Seq<char>, Seq<char>> {
    match o {
        Outcome::NotFound(e) => Err("Failed to execute container system start: "@ + e@),
        Outcome::LaunchFailed(e) => Err("Failed to execute container system start: "@ + e@),
        Outcome::Exited { success, stdout, stderr } => if success {
            Ok(trim_spec(stdout@))
        } else {
            Err("Failed to start container system: "@ + trim_spec(stderr@))
        },
    }
}

/// Classifies the outcome of the start action's shell invocation.
///
/// A zero exit succeeds with the trimmed standard output, which may be
/// empty; a non-zero exit fails with the trimmed standard error; a launch
/// failure of either kind fails with the OS error text.
pub fn start_container_system(o: &Outcome) -> (r: Result<String, String>)
    ensures
        result_view(r) == spec_start_system(*o),
{
    match o {
        Outcome::NotFound(e) => {
            let mut m = "Failed to execute container system start: ".to_owned();
            m.append(e.as_str());
            Err(m)
        },
        Outcome::LaunchFailed(e) => {
            let mut m = "Failed to execute container system start: ".to_owned();
            m.append(e.as_str());
            Err(m)
        },
        Outcome::Exited { success, stdout, stderr } => {
            if *success {
                Ok(trim_str(stdout.as_str()))
            } else {
                let t = trim_str(stderr.as_str());
                let mut m = "Failed to start container system: ".to_owned();
                m.append(t.as_str());
                Err(m)
            }
        },
    }
}

/// Every operation resolves each invocation outcome to exactly one of a
/// success payload or a failure payload: never both, never neither.
pub proof fn lemma_exactly_one_result(o: Outcome)
    ensures
        spec_check_version(o) is Ok <==> !(spec_check_version(o) is Err),
        spec_check_system_status(o) is Ok <==> !(spec_check_system_status(o) is Err),
        spec_start_system(o) is Ok <==> !(spec_start_system(o) is Err),
{
}

/// Querying the version twice under identical process behavior yields
/// identical results: the facade keeps no state across calls, so the result
/// is a function of the invocation outcome alone.
pub proof fn lemma_version_repeatable(first: Outcome, second: Outcome)
    requires
        first == second,
    ensures
        spec_check_version(first) == spec_check_version(second),
{
}

} // verus!
