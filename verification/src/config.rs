//! What a project configures: how versions are found, bumped and released.
use vstd::prelude::*;
use crate::release::{ReleaseConfig, ReleaseStep};
use crate::repository::RepositoryConfig;

verus! {

/// The pre-release label that unreleased versions carry by default.
pub const PRERELEASE_PREFIX_DEFAULT: &'static str = "alpha";
/// The pattern that finds the version inside a tag name by default.
pub const TAG_REGEX_DEFAULT: &'static str = r"\d+\.\d+\.\d+";
/// The pattern of a commit message that breaks compatibility, by default.
pub const MAJOR_REGEX_DEFAULT: &'static str = r"(?m)^BREAKING CHANGE:";
/// The pattern of a commit message that adds a feature, by default.
pub const MINOR_REGEX_DEFAULT: &'static str = r"^feat(\([^)]*\))?:";
/// The pattern of a commit message that fixes a bug, by default.
pub const PATCH_REGEX_DEFAULT: &'static str = r"^fix(\([^)]*\))?:";

/// How the next version of a project is derived from its history.
pub struct VersionConfig {
    /// The label put between the version and the commit count of an
    /// unreleased version.
    pub prerelease_prefix: String,
    /// Finds the version inside the name of the last tag.
    pub tag_regex: String,
    /// Marks a commit message that calls for a major bump.
    pub major_regex: String,
    /// Marks a commit message that calls for a minor bump.
    pub minor_regex: String,
    /// Marks a commit message that calls for a patch bump.
    pub patch_regex: String,
}

impl VersionConfig {
    /// Whether every field holds its default text.
    pub open spec fn is_default(&self) -> bool {
        &&& self.prerelease_prefix@ == PRERELEASE_PREFIX_DEFAULT@
        &&& self.tag_regex@ == TAG_REGEX_DEFAULT@
        &&& self.major_regex@ == MAJOR_REGEX_DEFAULT@
        &&& self.minor_regex@ == MINOR_REGEX_DEFAULT@
        &&& self.patch_regex@ == PATCH_REGEX_DEFAULT@
    }

    /// The configuration that uses the default of every field.
    pub fn from_defaults() -> (c: VersionConfig)
        ensures
            c.is_default(),
    {
        VersionConfig {
            prerelease_prefix: String::from_str(PRERELEASE_PREFIX_DEFAULT),
            tag_regex: String::from_str(TAG_REGEX_DEFAULT),
            major_regex: String::from_str(MAJOR_REGEX_DEFAULT),
            minor_regex: String::from_str(MINOR_REGEX_DEFAULT),
            patch_regex: String::from_str(PATCH_REGEX_DEFAULT),
        }
    }
}

/// Everything a run needs: how versions are found, where the repository
/// lies, and what to do on release.
pub struct CalcverConfig {
    /// How the next version is derived.
    pub project: VersionConfig,
    /// Which repository holds the history.
    pub repository: RepositoryConfig,
    /// The actions to take on release, in order.
    pub release: Vec<ReleaseConfig>,
}

/// A configuration file as written, every entry optional.
pub struct CalcverFileConfig {
    /// The kind of source control; `git` when absent.
    pub repository_type: Option<String>,
    /// The directory of the repository; `.` when absent.
    pub root: Option<String>,
    /// The pre-release label.
    pub prerelease_prefix: Option<String>,
    /// The pattern that finds the version in a tag.
    pub tag_regex: Option<String>,
    /// The pattern of a breaking commit.
    pub major_regex: Option<String>,
    /// The pattern of a feature commit.
    pub minor_regex: Option<String>,
    /// The pattern of a fix commit.
    pub patch_regex: Option<String>,
    /// The Cargo manifest whose version to patch on release.
    pub cargo: Option<String>,
    /// The shell commands to run on release, in order.
    pub actions: Option<Vec<String>>,
}

/// The text of an optional entry, or `default` when it is absent.
pub open spec fn text_or(entry: Option<String>, default: Seq<char>) -> Seq<char> {
    match entry {
        Some(s) => s@,
        None => default,
    }
}

/// The release actions that a file asks for: its scripts in order, then the
/// manifest patch when a manifest is named.
pub open spec fn requested_steps(actions: Option<Vec<String>>, cargo: Option<String>) -> Seq<
    ReleaseStep,
> {
    let scripts = match actions {
        Some(a) => a@.map_values(|s: String| ReleaseStep::RunScript(s@)),
        None => Seq::empty(),
    };
    match cargo {
        Some(c) => scripts.push(ReleaseStep::CargoToml(c@)),
        None => scripts,
    }
}

/// The number of scripts that a file lists.
pub open spec fn script_count(actions: Option<Vec<String>>) -> int {
    match actions {
        Some(a) => a@.len() as int,
        None => 0,
    }
}

/// The actions that a file asks for are its scripts, each as written and in
/// the order written, whether or not a manifest is named; then the manifest
/// patch, exactly when a manifest is named.
pub proof fn requested_steps_lists_scripts_then_manifest(
    actions: Option<Vec<String>>,
    cargo: Option<String>,
)
    ensures
        requested_steps(actions, cargo).len() == script_count(actions) + if cargo is Some {
            1int
        } else {
            0int
        },
        forall|i: int|
            0 <= i < script_count(actions) ==> #[trigger] requested_steps(actions, cargo)[i]
                == ReleaseStep::RunScript(actions.unwrap()@[i]@),
        cargo matches Some(p) ==> requested_steps(actions, cargo)[script_count(actions)]
            == ReleaseStep::CargoToml(p@),
{
}

/// The views of a list of release actions.
pub open spec fn steps_view(v: Seq<ReleaseConfig>) -> Seq<ReleaseStep> {
    v.map_values(|r: ReleaseConfig| r@)
}

impl CalcverFileConfig {
    /// The configuration that this file describes, with defaults for what it
    /// leaves out.
    pub fn convert(self) -> (c: CalcverConfig)
        ensures
            c.project.prerelease_prefix@ == text_or(
                self.prerelease_prefix,
                PRERELEASE_PREFIX_DEFAULT@,
            ),
            c.project.tag_regex@ == text_or(self.tag_regex, TAG_REGEX_DEFAULT@),
            c.project.major_regex@ == text_or(self.major_regex, MAJOR_REGEX_DEFAULT@),
            c.project.minor_regex@ == text_or(self.minor_regex, MINOR_REGEX_DEFAULT@),
            c.project.patch_regex@ == text_or(self.patch_regex, PATCH_REGEX_DEFAULT@),
            c.repository.scm_type@ == text_or(self.repository_type, "git"@),
            c.repository.path@ == text_or(self.root, "."@),
            steps_view(c.release@) == requested_steps(self.actions, self.cargo),
            c.release@.len() == script_count(self.actions) + if self.cargo is Some {
                1int
            } else {
                0int
            },
            forall|i: int|
                0 <= i < script_count(self.actions) ==> #[trigger] c.release@[i]@
                    == ReleaseStep::RunScript(self.actions.unwrap()@[i]@),
            self.cargo matches Some(p) ==> c.release@[script_count(self.actions)]@
                == ReleaseStep::CargoToml(p@),
    {
        proof {
            requested_steps_lists_scripts_then_manifest(self.actions, self.cargo);
        }
        let ghost requested = requested_steps(self.actions, self.cargo);
        let project_defaults = VersionConfig::from_defaults();
        let CalcverFileConfig {
            repository_type,
            root,
            prerelease_prefix,
            tag_regex,
            major_regex,
            minor_regex,
            patch_regex,
            cargo,
            actions: requested_actions,
        } = self;
        let mut actions: Vec<ReleaseConfig> = Vec::new();
        match requested_actions {
            Some(a) => {
                let mut i: usize = 0;
                while i < a.len()
                    invariant
                        i <= a@.len(),
                        steps_view(actions@) =~= a@.take(i as int).map_values(
                            |s: String| ReleaseStep::RunScript(s@),
                        ),
                    decreases a.len() - i,
                {
                    let ghost before = actions@;
                    let script = a[i].clone();
                    actions.push(ReleaseConfig::RunScript(script));
                    proof {
                        assert(actions@ =~= before.push(ReleaseConfig::RunScript(script)));
                        assert(steps_view(actions@) =~= steps_view(before).push(
                            ReleaseStep::RunScript(a@[i as int]@),
                        ));
                        assert(a@.take(i + 1) =~= a@.take(i as int).push(a@[i as int]));
                    }
                    i += 1;
                }
                proof {
                    assert(a@.take(i as int) =~= a@);
                }
            },
            None => {},
        }
        match cargo {
            Some(c) => {
                actions.push(ReleaseConfig::CargoToml(c));
            },
            None => {},
        }
        proof {
            assert(steps_view(actions@) =~= requested);
            assert forall|i: int| 0 <= i < actions@.len() implies #[trigger] actions@[i]@
                == requested[i] by {
                assert(steps_view(actions@)[i] == actions@[i]@);
            }
        }
        CalcverConfig {
            project: VersionConfig {
                prerelease_prefix: prerelease_prefix.unwrap_or(project_defaults.prerelease_prefix),
                tag_regex: tag_regex.unwrap_or(project_defaults.tag_regex),
                major_regex: major_regex.unwrap_or(project_defaults.major_regex),
                minor_regex: minor_regex.unwrap_or(project_defaults.minor_regex),
                patch_regex: patch_regex.unwrap_or(project_defaults.patch_regex),
            },
            repository: RepositoryConfig {
                scm_type: repository_type.unwrap_or(String::from_str("git")),
                path: root.unwrap_or(String::from_str(".")),
            },
            release: actions,
        }
    }
}

} // verus!
