//! Why a version could not be calculated.
use vstd::prelude::*;

verus! {

/// The reasons for which no next version can be calculated.
#[derive(Debug, Clone, Copy, PartialEq, Eq, Structural)]
pub enum CalcverError {
    /// A release was asked for, but there are no commits and no tag to
    /// release from.
    NoCommitsOnRelease,
    /// One of the configured regular expressions does not compile.
    InvalidPattern,
    /// The version found in the last tag is not a semantic version.
    InvalidVersion,
    /// The component to bump already holds the largest value it can hold.
    VersionOverflow,
}

} // verus!
