//! One run of the tool: the version that a configured project moves to.
use vstd::prelude::*;
use crate::config::CalcverConfig;
use crate::error::CalcverError;
use crate::repository::CodeRepository;
use crate::version::{get_version, opt_text, result_text, spec_next_version, texts, VersionBumpBehavior};

verus! {

/// The version that the project configured by `config`, whose history is
/// `repo`, moves to when its commit messages decide the bump. The caller then
/// takes the release actions of `config`, in order, with this version, and
/// records the release in the repository when `release` is set.
pub fn run<R: CodeRepository>(config: &CalcverConfig, repo: &R, release: bool) -> (r: Result<
    String,
    CalcverError,
>)
    ensures
        exists|commits: &Vec<String>, last_tag: Option<&str>|
            {
                &&& call_ensures(R::get_commits_since_last_tag, (repo,), commits)
                &&& call_ensures(R::get_last_tag, (repo,), last_tag)
                &&& result_text(r) == spec_next_version(
                    &config.project,
                    VersionBumpBehavior::Auto,
                    texts(commits@),
                    opt_text(last_tag),
                    release,
                )
            },
{
    get_version(&config.project, repo, VersionBumpBehavior::Auto, release)
}

/// One thing to do after the version is known.
#[derive(Debug, Clone, Copy, PartialEq, Eq, Structural)]
pub enum RunStep {
    /// Take the release action at this index of the configuration.
    TakeAction(usize),
    /// Record the release in the repository.
    CommitRelease,
}

/// What to do, in order, once the version is known: every release action of
/// the configuration in turn, then, when releasing, the commit of the
/// release. The dry-run flag is taken but, as in the command it serves,
/// changes nothing.
pub fn release_plan(num_actions: usize, release: bool, dry_run: bool) -> (steps: Vec<RunStep>)
    ensures
        steps@.len() == num_actions + if release { 1int } else { 0int },
        forall|i: int| 0 <= i < num_actions ==> #[trigger] steps@[i] == RunStep::TakeAction(i as usize),
        release ==> steps@[num_actions as int] == RunStep::CommitRelease,
{
    let _ = dry_run;
    let mut steps: Vec<RunStep> = Vec::new();
    let mut i: usize = 0;
    while i < num_actions
        invariant
            i <= num_actions,
            steps@.len() == i,
            forall|j: int| 0 <= j < i ==> #[trigger] steps@[j] == RunStep::TakeAction(j as usize),
        decreases num_actions - i,
    {
        steps.push(RunStep::TakeAction(i));
        i += 1;
    }
    if release {
        steps.push(RunStep::CommitRelease);
    }
    steps
}

} // verus!
