//! What happens once a version is decided: scripts run and manifests patched.
use vstd::prelude::*;
use crate::text::{push_decimal, signed_decimal};

verus! {

/// One action to take when releasing.
pub enum ReleaseConfig {
    /// Run the given shell command.
    RunScript(String),
    /// Write the version into the Cargo manifest at the given path, relative
    /// to the repository.
    CargoToml(String),
}

/// A release action as text.
pub enum ReleaseStep {
    /// Run the given shell command.
    RunScript(Seq<char>),
    /// Patch the Cargo manifest at the given path.
    CargoToml(Seq<char>),
}

impl View for ReleaseConfig {
    type V = ReleaseStep;

    open spec fn view(&self) -> ReleaseStep {
        match self {
            ReleaseConfig::RunScript(s) => ReleaseStep::RunScript(s@),
            ReleaseConfig::CargoToml(p) => ReleaseStep::CargoToml(p@),
        }
    }
}

/// The report printed after a manifest has been patched.
pub open spec fn patched_report(path: Seq<char>, old_version: Seq<char>, new_version: Seq<char>) -> Seq<char> {
    "Patched '"@ + path + "'\nOld version: "@ + old_version + "\nNew version: "@ + new_version
}

/// The report printed after a script has exited.
pub open spec fn exit_report(script: Seq<char>, code: int) -> Seq<char> {
    "'"@ + script + "' exited with code: "@ + signed_decimal(code)
}

/// The report printed after the manifest at `path` has had its version
/// `old_version` replaced by `new_version`.
pub fn patched_message(path: &str, old_version: &str, new_version: &str) -> (r: String)
    ensures
        r@ == patched_report(path@, old_version@, new_version@),
{
    let mut r = String::from_str("Patched '");
    r.append(path);
    r.append("'\nOld version: ");
    r.append(old_version);
    r.append("\nNew version: ");
    r.append(new_version);
    r
}

/// Appends the decimal text of `n`, with a `-` when it is negative.
fn push_signed_decimal(out: &mut String, n: i32)
    ensures
        final(out)@ == old(out)@ + signed_decimal(n as int),
{
    if n < 0 {
        out.append("-");
        proof {
            reveal_strlit("-");
        }
        let magnitude: i64 = -(n as i64);
        push_decimal(out, magnitude as u64);
    } else {
        push_decimal(out, n as u64);
    }
}

/// The report printed after `script` has exited with `code`.
pub fn exit_message(script: &str, code: i32) -> (r: String)
    ensures
        r@ == exit_report(script@, code as int),
{
    let mut r = String::from_str("'");
    r.append(script);
    r.append("' exited with code: ");
    push_signed_decimal(&mut r, code);
    r
}

} // verus!
