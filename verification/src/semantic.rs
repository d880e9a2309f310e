//! Semantic version numbers, parsed and printed by the `semver` crate.
use vstd::prelude::*;
use crate::text::decimal;

verus! {

#[verifier::external_type_specification]
#[verifier::external_body]
pub struct ExSemverError(semver::Error);

/// The numeric components (major, minor, patch) of the version that
/// `semver::Version::parse` reads from `text`, or `None` where it refuses it.
pub uninterp spec fn semver_parse(text: Seq<char>) -> Option<(u64, u64, u64)>;

/// The text of a version without pre-release or build metadata:
/// `major.minor.patch`, each in decimal.
pub open spec fn version_text(major: nat, minor: nat, patch: nat) -> Seq<char> {
    decimal(major) + seq!['.'] + decimal(minor) + seq!['.'] + decimal(patch)
}

/// Parses `text` with `semver::Version::parse` and keeps the numeric
/// components. The contract names what the parser reads (`semver_parse`);
/// pre-release and build metadata, which the parser also accepts, are
/// dropped here, as nothing downstream reads them.
#[verifier::external_body]
pub(crate) fn parse_version(text: &str) -> (r: Result<(u64, u64, u64), semver::Error>)
    ensures
        r matches Ok(v) ==> semver_parse(text@) == Some(v),
        r is Err ==> semver_parse(text@) is None,
{
    semver::Version::parse(text).map(|v| (v.major, v.minor, v.patch))
}

/// Builds `semver::Version::new(major, minor, patch)` and prints it with its
/// `Display` impl. The contract claims the text that this impl writes for a
/// version with no pre-release and no build metadata: the three components
/// in decimal, joined by dots.
#[verifier::external_body]
pub(crate) fn render_version(major: u64, minor: u64, patch: u64) -> (r: String)
    ensures
        r@ == version_text(major as nat, minor as nat, patch as nat),
{
    semver::Version::new(major, minor, patch).to_string()
}

} // verus!
