//! The next version of a project: found in its last tag, bumped as its
//! commit messages call for.
use vstd::prelude::*;
use crate::config::VersionConfig;
use crate::error::CalcverError;
use crate::repository::CodeRepository;
use crate::patterns::{
    compile_pattern, compile_pattern_set, find_first, regex_compiles, regex_first_match,
    regex_set_compiles, regex_set_member_matches, set_matches,
};
use crate::semantic::{parse_version, render_version, semver_parse, version_text};
use crate::text::{decimal, push_decimal};

verus! {

/// Which component of the version to increase.
#[derive(Debug, Clone, Copy, PartialEq, Eq, Structural)]
pub enum VersionBumpBehavior {
    /// Keep the version as it is.
    NoBump,
    /// Let the commit messages decide.
    Auto,
    /// Increase the major component and reset the others.
    Major,
    /// Increase the minor component and reset the patch component.
    Minor,
    /// Increase the patch component.
    Patch,
}

/// The texts of a list of strings.
pub open spec fn texts(v: Seq<String>) -> Seq<Seq<char>> {
    v.map_values(|s: String| s@)
}

/// The text of an optional string.
pub open spec fn opt_text(t: Option<&str>) -> Option<Seq<char>> {
    match t {
        Some(s) => Some(s@),
        None => None,
    }
}

/// The text of a computed version, or the error in its place.
pub open spec fn result_text(r: Result<String, CalcverError>) -> Result<Seq<char>, CalcverError> {
    match r {
        Ok(s) => Ok(s@),
        Err(e) => Err(e),
    }
}

/// The three commit-message patterns, in the order in which they are
/// compiled together: major, minor, patch.
pub open spec fn bump_patterns(config: &VersionConfig) -> Seq<Seq<char>> {
    seq![config.major_regex@, config.minor_regex@, config.patch_regex@]
}

/// Whether a commit message matches the major pattern.
pub open spec fn calls_for_major(config: &VersionConfig, msg: Seq<char>) -> bool {
    regex_set_member_matches(config.major_regex@, msg)
}

/// Whether a commit message matches the minor pattern.
pub open spec fn calls_for_minor(config: &VersionConfig, msg: Seq<char>) -> bool {
    regex_set_member_matches(config.minor_regex@, msg)
}

/// Some message of the list calls for a major bump.
pub open spec fn some_major(config: &VersionConfig, commits: Seq<Seq<char>>) -> bool {
    exists|i: int| 0 <= i < commits.len() && calls_for_major(config, #[trigger] commits[i])
}

/// Some message of the list calls for a minor bump.
pub open spec fn some_minor(config: &VersionConfig, commits: Seq<Seq<char>>) -> bool {
    exists|i: int| 0 <= i < commits.len() && calls_for_minor(config, #[trigger] commits[i])
}

/// The bump that a list of commit messages calls for: major if one message
/// matches the major pattern, else minor if one matches the minor pattern,
/// else patch if there is any commit at all, else none.
pub open spec fn auto_bump(config: &VersionConfig, commits: Seq<Seq<char>>) -> VersionBumpBehavior {
    if some_major(config, commits) {
        VersionBumpBehavior::Major
    } else if some_minor(config, commits) {
        VersionBumpBehavior::Minor
    } else if commits.len() > 0 {
        VersionBumpBehavior::Patch
    } else {
        VersionBumpBehavior::NoBump
    }
}

/// The bump that the commit messages call for, or the error when the three
/// patterns do not compile together.
pub open spec fn spec_bump_behavior(config: &VersionConfig, commits: Seq<Seq<char>>) -> Result<
    VersionBumpBehavior,
    CalcverError,
> {
    if regex_set_compiles(bump_patterns(config)) {
        Ok(auto_bump(config, commits))
    } else {
        Err(CalcverError::InvalidPattern)
    }
}

/// The version that a project holds before the bump: what the tag pattern
/// finds in the last tag, else `0.0.0`.
pub open spec fn spec_current_version(config: &VersionConfig, last_tag: Option<Seq<char>>) -> Result<
    Seq<char>,
    CalcverError,
> {
    if !regex_compiles(config.tag_regex@) {
        Err(CalcverError::InvalidPattern)
    } else {
        match last_tag {
            Some(tag) => match regex_first_match(config.tag_regex@, tag) {
                Some(found) => Ok(found),
                None => Ok(version_text(0, 0, 0)),
            },
            None => Ok(version_text(0, 0, 0)),
        }
    }
}

/// The components of `v` after `bump`, or `None` where the component to
/// increase has no room left.
pub open spec fn bumped(v: (u64, u64, u64), bump: VersionBumpBehavior) -> Option<(nat, nat, nat)> {
    match bump {
        VersionBumpBehavior::Major => if v.0 == u64::MAX {
            None
        } else {
            Some(((v.0 + 1) as nat, 0, 0))
        },
        VersionBumpBehavior::Minor => if v.1 == u64::MAX {
            None
        } else {
            Some((v.0 as nat, (v.1 + 1) as nat, 0))
        },
        VersionBumpBehavior::Patch => if v.2 == u64::MAX {
            None
        } else {
            Some((v.0 as nat, v.1 as nat, (v.2 + 1) as nat))
        },
        _ => Some((v.0 as nat, v.1 as nat, v.2 as nat)),
    }
}

/// The suffix of an unreleased version: `-`, the pre-release label, `.` and
/// the number of commits.
pub open spec fn prerelease_suffix(config: &VersionConfig, num_commits: nat) -> Seq<char> {
    seq!['-'] + config.prerelease_prefix@ + seq!['.'] + decimal(num_commits)
}

/// The version that `current` becomes under `bump`: released as is, or, when
/// something was bumped but nothing is released, with the pre-release suffix.
pub open spec fn spec_bump_version(
    config: &VersionConfig,
    bump: VersionBumpBehavior,
    current: Seq<char>,
    release: bool,
    num_commits: nat,
) -> Result<Seq<char>, CalcverError> {
    match semver_parse(current) {
        None => Err(CalcverError::InvalidVersion),
        Some(v) => spec_bump_parsed(config, bump, v, release, num_commits),
    }
}

/// The version with components `v` becomes under `bump`: released as is, or,
/// when something was bumped but nothing is released, with the pre-release
/// suffix.
pub open spec fn spec_bump_parsed(
    config: &VersionConfig,
    bump: VersionBumpBehavior,
    v: (u64, u64, u64),
    release: bool,
    num_commits: nat,
) -> Result<Seq<char>, CalcverError> {
    match bumped(v, bump) {
        None => Err(CalcverError::VersionOverflow),
        Some(t) => if bump == VersionBumpBehavior::NoBump || release {
            Ok(version_text(t.0, t.1, t.2))
        } else {
            Ok(version_text(t.0, t.1, t.2) + prerelease_suffix(config, num_commits))
        },
    }
}

/// The next version of a project whose last tag is `last_tag` and whose
/// commits since then have the messages `commits`.
pub open spec fn spec_next_version(
    config: &VersionConfig,
    bump: VersionBumpBehavior,
    commits: Seq<Seq<char>>,
    last_tag: Option<Seq<char>>,
    release: bool,
) -> Result<Seq<char>, CalcverError> {
    if commits.len() == 0 && release {
        match last_tag {
            Some(tag) => spec_current_version(config, Some(tag)),
            None => Err(CalcverError::NoCommitsOnRelease),
        }
    } else {
        let normalized = if bump == VersionBumpBehavior::Auto {
            spec_bump_behavior(config, commits)
        } else {
            Ok(bump)
        };
        match normalized {
            Err(e) => Err(e),
            Ok(b) => match spec_current_version(config, last_tag) {
                Err(e) => Err(e),
                Ok(current) => spec_bump_version(config, b, current, release, commits.len()),
            },
        }
    }
}

/// Calculates the next version of the project held in `repo`.
pub fn get_version<R: CodeRepository>(
    config: &VersionConfig,
    repo: &R,
    bump_behavior: VersionBumpBehavior,
    release: bool,
) -> (r: Result<String, CalcverError>)
    ensures
        exists|commits: &Vec<String>, last_tag: Option<&str>|
            {
                &&& call_ensures(R::get_commits_since_last_tag, (repo,), commits)
                &&& call_ensures(R::get_last_tag, (repo,), last_tag)
                &&& result_text(r) == spec_next_version(
                    config,
                    bump_behavior,
                    texts(commits@),
                    opt_text(last_tag),
                    release,
                )
            },
{
    let commits = repo.get_commits_since_last_tag();
    let last_tag = repo.get_last_tag();
    get_next_version(config, bump_behavior, commits, last_tag, release)
}

/// Calculates the next version from the commit messages since the last tag
/// and the last tag itself.
pub fn get_next_version(
    config: &VersionConfig,
    bump_behavior: VersionBumpBehavior,
    commits: &Vec<String>,
    last_tag: Option<&str>,
    release: bool,
) -> (r: Result<String, CalcverError>)
    ensures
        result_text(r) == spec_next_version(
            config,
            bump_behavior,
            texts(commits@),
            opt_text(last_tag),
            release,
        ),
{
    if commits.len() == 0 && release {
        return match last_tag {
            Some(tag) => get_current_version(config, Some(tag)),
            None => Err(CalcverError::NoCommitsOnRelease),
        };
    }
    let normalized_bump_behavior = match bump_behavior {
        VersionBumpBehavior::Auto => match get_bump_behavior(config, commits) {
            Ok(b) => b,
            Err(e) => return Err(e),
        },
        _ => bump_behavior,
    };
    let current_version = match get_current_version(config, last_tag) {
        Ok(v) => v,
        Err(e) => return Err(e),
    };
    bump_version(
        config,
        normalized_bump_behavior,
        current_version.as_str(),
        release,
        commits.len(),
    )
}

/// Applies `bump_behavior` to `current_version`, and marks the result as a
/// pre-release unless it is released or nothing was bumped. A version that
/// does not parse is an error whatever the bump; `Auto` must have been
/// resolved before a version that parses is bumped.
fn bump_version(
    config: &VersionConfig,
    bump_behavior: VersionBumpBehavior,
    current_version: &str,
    release: bool,
    num_commits: usize,
) -> (r: Result<String, CalcverError>)
    requires
        bump_behavior == VersionBumpBehavior::Auto ==> semver_parse(current_version@) is None,
    ensures
        result_text(r) == spec_bump_version(
            config,
            bump_behavior,
            current_version@,
            release,
            num_commits as nat,
        ),
{
    match parse_version(current_version) {
        Ok(v) => bump_parsed_version(config, bump_behavior, v, release, num_commits),
        Err(_) => Err(CalcverError::InvalidVersion),
    }
}

/// Applies `bump_behavior` to the version whose components are `version`
/// (major, minor, patch), and marks the result as a pre-release of
/// `num_commits` commits unless it is released or nothing was bumped.
pub fn bump_parsed_version(
    config: &VersionConfig,
    bump_behavior: VersionBumpBehavior,
    version: (u64, u64, u64),
    release: bool,
    num_commits: usize,
) -> (r: Result<String, CalcverError>)
    requires
        bump_behavior != VersionBumpBehavior::Auto,
    ensures
        result_text(r) == spec_bump_parsed(config, bump_behavior, version, release, num_commits as nat),
{
    let (major, minor, patch) = version;
    let output = match bump_behavior {
        VersionBumpBehavior::Major => {
            if major == u64::MAX {
                return Err(CalcverError::VersionOverflow);
            }
            render_version(major + 1, 0, 0)
        },
        VersionBumpBehavior::Minor => {
            if minor == u64::MAX {
                return Err(CalcverError::VersionOverflow);
            }
            render_version(major, minor + 1, 0)
        },
        VersionBumpBehavior::Patch => {
            if patch == u64::MAX {
                return Err(CalcverError::VersionOverflow);
            }
            render_version(major, minor, patch + 1)
        },
        _ => render_version(major, minor, patch),
    };
    if bump_behavior == VersionBumpBehavior::NoBump || release {
        Ok(output)
    } else {
        let mut retval = output;
        proof {
            reveal_strlit("-");
            reveal_strlit(".");
        }
        retval.append("-");
        retval.append(config.prerelease_prefix.as_str());
        retval.append(".");
        push_decimal(&mut retval, num_commits as u64);
        proof {
            let t = bumped(version, bump_behavior).unwrap();
            assert(retval@ =~= version_text(t.0, t.1, t.2) + prerelease_suffix(
                config,
                num_commits as nat,
            ));
        }
        Ok(retval)
    }
}

/// The bump after one more commit message, given the bump called for by the
/// messages before it: major if the message is breaking, else minor if it
/// adds a feature, else at least patch.
pub open spec fn bump_after(
    bump: VersionBumpBehavior,
    breaking: bool,
    feature: bool,
) -> VersionBumpBehavior {
    if breaking {
        VersionBumpBehavior::Major
    } else if feature {
        VersionBumpBehavior::Minor
    } else if bump == VersionBumpBehavior::NoBump {
        VersionBumpBehavior::Patch
    } else {
        bump
    }
}

/// The bump after one more commit message, whose flags say whether it
/// matches the major pattern (`breaking`) and the minor one (`feature`).
pub fn next_bump(bump: VersionBumpBehavior, breaking: bool, feature: bool) -> (r: VersionBumpBehavior)
    ensures
        r == bump_after(bump, breaking, feature),
{
    if breaking {
        VersionBumpBehavior::Major
    } else if feature {
        VersionBumpBehavior::Minor
    } else if bump == VersionBumpBehavior::NoBump {
        VersionBumpBehavior::Patch
    } else {
        bump
    }
}

/// The bump that the commit messages call for.
pub fn get_bump_behavior(config: &VersionConfig, commit_messages: &Vec<String>) -> (r: Result<
    VersionBumpBehavior,
    CalcverError,
>)
    ensures
        r == spec_bump_behavior(config, texts(commit_messages@)),
{
    let patterns = [
        config.major_regex.as_str(),
        config.minor_regex.as_str(),
        config.patch_regex.as_str(),
    ];
    proof {
        assert(patterns@.map_values(|p: &str| p@) =~= bump_patterns(config));
    }
    let set = match compile_pattern_set(patterns.as_slice()) {
        Ok(s) => s,
        Err(_) => return Err(CalcverError::InvalidPattern),
    };
    let ghost msgs = texts(commit_messages@);
    let mut bump_behavior = VersionBumpBehavior::NoBump;
    let mut i: usize = 0;
    while i < commit_messages.len()
        invariant
            i <= commit_messages.len(),
            msgs == texts(commit_messages@),
            set.sources() == bump_patterns(config),
            regex_set_compiles(bump_patterns(config)),
            forall|j: int| 0 <= j < i ==> !calls_for_major(config, #[trigger] msgs[j]),
            bump_behavior == (if some_minor(config, msgs.take(i as int)) {
                VersionBumpBehavior::Minor
            } else if i > 0 {
                VersionBumpBehavior::Patch
            } else {
                VersionBumpBehavior::NoBump
            }),
        decreases commit_messages.len() - i,
    {
        let flags = set_matches(&set, commit_messages[i].as_str());
        assert(msgs[i as int] == commit_messages@[i as int]@);
        bump_behavior = next_bump(bump_behavior, flags[0], flags[1]);
        if bump_behavior == VersionBumpBehavior::Major {
            assert(calls_for_major(config, msgs[i as int]));
            return Ok(VersionBumpBehavior::Major);
        }
        proof {
            if flags[1] {
                assert(msgs.take(i + 1)[i as int] == msgs[i as int]);
            }
            assert(some_minor(config, msgs.take(i + 1)) == (some_minor(config, msgs.take(i as int))
                || calls_for_minor(config, msgs[i as int]))) by {
                if some_minor(config, msgs.take(i as int)) {
                    let j = choose|j: int|
                        0 <= j < i && calls_for_minor(config, #[trigger] msgs.take(i as int)[j]);
                    assert(msgs.take(i + 1)[j] == msgs.take(i as int)[j]);
                }
                if some_minor(config, msgs.take(i + 1)) {
                    let j = choose|j: int|
                        0 <= j < i + 1 && calls_for_minor(config, #[trigger] msgs.take(i + 1)[j]);
                    if j < i {
                        assert(msgs.take(i as int)[j] == msgs.take(i + 1)[j]);
                    }
                }
            }
        }
        i += 1;
    }
    proof {
        assert(msgs.take(i as int) =~= msgs);
    }
    Ok(bump_behavior)
}

/// The version that the tag pattern found, or `0.0.0` where it found none.
pub fn version_or_zero(found: Option<String>) -> (r: String)
    ensures
        r@ == match found {
            Some(s) => s@,
            None => version_text(0, 0, 0),
        },
{
    proof {
        reveal_strlit("0.0.0");
        assert("0.0.0"@ =~= version_text(0, 0, 0));
    }
    match found {
        Some(s) => s,
        None => String::from_str("0.0.0"),
    }
}

/// The version in the last tag, as the tag pattern finds it, or `0.0.0`.
pub fn get_current_version(config: &VersionConfig, last_tag: Option<&str>) -> (r: Result<
    String,
    CalcverError,
>)
    ensures
        result_text(r) == spec_current_version(config, opt_text(last_tag)),
{
    let r = match compile_pattern(config.tag_regex.as_str()) {
        Ok(p) => p,
        Err(_) => return Err(CalcverError::InvalidPattern),
    };
    match last_tag {
        Some(tag) => Ok(version_or_zero(find_first(&r, tag))),
        None => Ok(version_or_zero(None)),
    }
}

/// How the messages decide the bump, stated over the matches of the major
/// and minor patterns themselves: the three patterns must compile together;
/// then one breaking message makes it major whatever else the messages hold;
/// with no breaking message, one feature message makes it minor; with
/// neither, any commit makes it patch; and no commit keeps the version.
pub proof fn bump_decision(config: &VersionConfig, commits: Seq<Seq<char>>)
    ensures
        !regex_set_compiles(seq![config.major_regex@, config.minor_regex@, config.patch_regex@])
            ==> spec_bump_behavior(config, commits) == Err::<VersionBumpBehavior, CalcverError>(
            CalcverError::InvalidPattern,
        ),
        regex_set_compiles(seq![config.major_regex@, config.minor_regex@, config.patch_regex@])
            ==> {
            &&& (exists|i: int|
                0 <= i < commits.len() && #[trigger] regex_set_member_matches(
                    config.major_regex@,
                    commits[i],
                )) ==> spec_bump_behavior(config, commits) == Ok::<
                VersionBumpBehavior,
                CalcverError,
            >(VersionBumpBehavior::Major)
            &&& (forall|i: int|
                0 <= i < commits.len() ==> !#[trigger] regex_set_member_matches(
                    config.major_regex@,
                    commits[i],
                )) && (exists|i: int|
                0 <= i < commits.len() && #[trigger] regex_set_member_matches(
                    config.minor_regex@,
                    commits[i],
                )) ==> spec_bump_behavior(config, commits) == Ok::<
                VersionBumpBehavior,
                CalcverError,
            >(VersionBumpBehavior::Minor)
            &&& (forall|i: int|
                0 <= i < commits.len() ==> !#[trigger] regex_set_member_matches(
                    config.major_regex@,
                    commits[i],
                ) && !regex_set_member_matches(config.minor_regex@, commits[i])) && commits.len()
                > 0 ==> spec_bump_behavior(config, commits) == Ok::<
                VersionBumpBehavior,
                CalcverError,
            >(VersionBumpBehavior::Patch)
            &&& commits.len() == 0 ==> spec_bump_behavior(config, commits) == Ok::<
                VersionBumpBehavior,
                CalcverError,
            >(VersionBumpBehavior::NoBump)
        },
{
    assert(bump_patterns(config) =~= seq![
        config.major_regex@,
        config.minor_regex@,
        config.patch_regex@,
    ]);
    if exists|i: int|
        0 <= i < commits.len() && #[trigger] regex_set_member_matches(
            config.major_regex@,
            commits[i],
        ) {
        let i = choose|i: int|
            0 <= i < commits.len() && #[trigger] regex_set_member_matches(
                config.major_regex@,
                commits[i],
            );
        assert(calls_for_major(config, commits[i]));
    }
    if exists|i: int|
        0 <= i < commits.len() && #[trigger] regex_set_member_matches(
            config.minor_regex@,
            commits[i],
        ) {
        let i = choose|i: int|
            0 <= i < commits.len() && #[trigger] regex_set_member_matches(
                config.minor_regex@,
                commits[i],
            );
        assert(calls_for_minor(config, commits[i]));
    }
}

/// An unreleased version that was bumped is the released one followed by
/// `-`, the pre-release label, `.` and the full number of commits in
/// decimal; the released one has the bumped component one higher and the
/// components after it zero; and both fail alike.
pub proof fn prerelease_carries_full_commit_count(
    config: &VersionConfig,
    bump: VersionBumpBehavior,
    v: (u64, u64, u64),
    num_commits: nat,
)
    requires
        bump == VersionBumpBehavior::Major || bump == VersionBumpBehavior::Minor || bump
            == VersionBumpBehavior::Patch,
    ensures
        match (
            spec_bump_parsed(config, bump, v, false, num_commits),
            spec_bump_parsed(config, bump, v, true, num_commits),
        ) {
            (Ok(pre), Ok(rel)) => pre == rel + seq!['-'] + config.prerelease_prefix@ + seq!['.']
                + decimal(num_commits),
            (Err(a), Err(b)) => a == b && a == CalcverError::VersionOverflow,
            _ => false,
        },
        bump == VersionBumpBehavior::Major && v.0 < u64::MAX ==> spec_bump_parsed(
            config,
            bump,
            v,
            true,
            num_commits,
        ) == Ok::<Seq<char>, CalcverError>(version_text((v.0 + 1) as nat, 0, 0)),
        bump == VersionBumpBehavior::Minor && v.1 < u64::MAX ==> spec_bump_parsed(
            config,
            bump,
            v,
            true,
            num_commits,
        ) == Ok::<Seq<char>, CalcverError>(version_text(v.0 as nat, (v.1 + 1) as nat, 0)),
        bump == VersionBumpBehavior::Patch && v.2 < u64::MAX ==> spec_bump_parsed(
            config,
            bump,
            v,
            true,
            num_commits,
        ) == Ok::<Seq<char>, CalcverError>(version_text(v.0 as nat, v.1 as nat, (v.2 + 1) as nat)),
{
    let t = bumped(v, bump);
    if t is Some {
        let u = t.unwrap();
        assert(version_text(u.0, u.1, u.2) + prerelease_suffix(config, num_commits)
            =~= version_text(u.0, u.1, u.2) + seq!['-'] + config.prerelease_prefix@ + seq!['.']
            + decimal(num_commits));
    }
}

/// The version before the bump is the text that the tag pattern finds in
/// the last tag, unchanged; it is `0.0.0` when there is no tag or the
/// pattern finds nothing in it; and a tag pattern that does not compile is an
/// error even when there is no tag.
pub proof fn current_version_is_found_text(config: &VersionConfig, last_tag: Option<Seq<char>>)
    ensures
        !regex_compiles(config.tag_regex@) ==> spec_current_version(config, last_tag) == Err::<
            Seq<char>,
            CalcverError,
        >(CalcverError::InvalidPattern),
        regex_compiles(config.tag_regex@) ==> spec_current_version(config, last_tag) == Ok::<
            Seq<char>,
            CalcverError,
        >(
            match last_tag {
                Some(tag) => match regex_first_match(config.tag_regex@, tag) {
                    Some(found) => found,
                    None => seq!['0', '.', '0', '.', '0'],
                },
                None => seq!['0', '.', '0', '.', '0'],
            },
        ),
{
    assert(version_text(0, 0, 0) =~= seq!['0', '.', '0', '.', '0']);
}

/// Letting the messages decide gives the same next version as asking for
/// the bump that they call for.
pub proof fn auto_is_the_decided_bump(
    config: &VersionConfig,
    commits: Seq<Seq<char>>,
    last_tag: Option<Seq<char>>,
    release: bool,
    decided: VersionBumpBehavior,
)
    requires
        spec_bump_behavior(config, commits) == Ok::<VersionBumpBehavior, CalcverError>(decided),
    ensures
        spec_next_version(config, VersionBumpBehavior::Auto, commits, last_tag, release)
            == spec_next_version(config, decided, commits, last_tag, release),
{
}

/// A bump never lowers a version: the bumped components are at least the
/// old ones in the order of major, then minor, then patch, and above them
/// unless nothing is bumped.
pub proof fn bump_never_lowers(v: (u64, u64, u64), bump: VersionBumpBehavior)
    requires
        bump != VersionBumpBehavior::Auto,
        bumped(v, bump) is Some,
    ensures
        ({
            let t = bumped(v, bump).unwrap();
            &&& t.0 >= v.0
            &&& t.0 == v.0 ==> t.1 >= v.1
            &&& t.0 == v.0 && t.1 == v.1 ==> t.2 >= v.2
            &&& bump != VersionBumpBehavior::NoBump ==> (t.0 > v.0 || (t.0 == v.0 && (t.1 > v.1
                || (t.1 == v.1 && t.2 > v.2))))
        }),
{
}

/// Letting the commit messages decide gives the same bump, and so the same
/// next version, whatever order the messages come in.
pub proof fn auto_bump_ignores_order(
    config: &VersionConfig,
    a: Seq<Seq<char>>,
    b: Seq<Seq<char>>,
    last_tag: Option<Seq<char>>,
    release: bool,
)
    requires
        a.to_multiset() == b.to_multiset(),
    ensures
        spec_bump_behavior(config, a) == spec_bump_behavior(config, b),
        spec_next_version(config, VersionBumpBehavior::Auto, a, last_tag, release)
            == spec_next_version(config, VersionBumpBehavior::Auto, b, last_tag, release),
{
    broadcast use vstd::seq_lib::group_to_multiset_ensures;

    assert(a.len() == b.len()) by {
        assert(a.len() == a.to_multiset().len());
        assert(b.len() == b.to_multiset().len());
    }
    same_messages_same_flags(config, a, b);
    same_messages_same_flags(config, b, a);
}

/// Every message of `a` is also a message of `b`, so whatever `a` calls for,
/// `b` calls for too.
proof fn same_messages_same_flags(config: &VersionConfig, a: Seq<Seq<char>>, b: Seq<Seq<char>>)
    requires
        a.to_multiset() == b.to_multiset(),
    ensures
        some_major(config, a) ==> some_major(config, b),
        some_minor(config, a) ==> some_minor(config, b),
{
    broadcast use vstd::seq_lib::group_to_multiset_ensures;

    if some_major(config, a) {
        let i = choose|i: int| 0 <= i < a.len() && calls_for_major(config, #[trigger] a[i]);
        assert(a.contains(a[i]));
        assert(a.to_multiset().count(a[i]) > 0);
        assert(b.contains(a[i]));
        let j = choose|j: int| 0 <= j < b.len() && b[j] == a[i];
        assert(calls_for_major(config, b[j]));
    }
    if some_minor(config, a) {
        let i = choose|i: int| 0 <= i < a.len() && calls_for_minor(config, #[trigger] a[i]);
        assert(a.contains(a[i]));
        assert(a.to_multiset().count(a[i]) > 0);
        assert(b.contains(a[i]));
        let j = choose|j: int| 0 <= j < b.len() && b[j] == a[i];
        assert(calls_for_minor(config, b[j]));
    }
}

/// The patch pattern decides nothing but whether the three patterns compile
/// together: configurations that differ only in it call for the same bump on
/// the same messages once their patterns compile.
pub proof fn patch_pattern_only_needs_to_compile(
    c1: &VersionConfig,
    c2: &VersionConfig,
    commits: Seq<Seq<char>>,
)
    requires
        c1.major_regex@ == c2.major_regex@,
        c1.minor_regex@ == c2.minor_regex@,
        regex_set_compiles(bump_patterns(c1)),
        regex_set_compiles(bump_patterns(c2)),
    ensures
        spec_bump_behavior(c1, commits) == spec_bump_behavior(c2, commits),
{
    assert forall|m: Seq<char>| calls_for_major(c1, m) == calls_for_major(c2, m)
        && calls_for_minor(c1, m) == calls_for_minor(c2, m) by {}
    assert(some_major(c1, commits) == some_major(c2, commits));
    assert(some_minor(c1, commits) == some_minor(c2, commits));
}

/// As soon as there is one commit, letting the messages decide bumps at
/// least the patch component, whether or not any message matches a pattern.
pub proof fn commits_always_bump(config: &VersionConfig, commits: Seq<Seq<char>>)
    requires
        commits.len() > 0,
    ensures
        auto_bump(config, commits) != VersionBumpBehavior::NoBump,
{
}

/// Once something is bumped, the unreleased version is the released one
/// followed by `-`, the pre-release label, `.` and the number of commits;
/// both fail alike.
pub proof fn prerelease_extends_release(
    config: &VersionConfig,
    bump: VersionBumpBehavior,
    commits: Seq<Seq<char>>,
    last_tag: Option<Seq<char>>,
)
    requires
        commits.len() > 0,
        bump != VersionBumpBehavior::NoBump,
    ensures
        spec_next_version(config, bump, commits, last_tag, false) == match spec_next_version(
            config,
            bump,
            commits,
            last_tag,
            true,
        ) {
            Ok(v) => Ok(v + prerelease_suffix(config, commits.len())),
            Err(e) => Err(e),
        },
{
    commits_always_bump(config, commits);
}

/// When nothing is to be bumped and there are commits, releasing or not
/// gives the same version.
pub proof fn keeping_ignores_release(
    config: &VersionConfig,
    commits: Seq<Seq<char>>,
    last_tag: Option<Seq<char>>,
)
    requires
        commits.len() > 0,
    ensures
        spec_next_version(config, VersionBumpBehavior::NoBump, commits, last_tag, true)
            == spec_next_version(config, VersionBumpBehavior::NoBump, commits, last_tag, false),
{
}

/// Releasing with no commits since the last tag gives back the version found
/// in that tag, whatever bump was asked for.
pub proof fn release_without_commits_keeps_tag(
    config: &VersionConfig,
    bump: VersionBumpBehavior,
    tag: Seq<char>,
)
    ensures
        spec_next_version(config, bump, seq![], Some(tag), true) == spec_current_version(
            config,
            Some(tag),
        ),
{
}

} // verus!
