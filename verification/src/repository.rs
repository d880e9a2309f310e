//! Where the history of a project comes from.
use vstd::prelude::*;

verus! {

/// Which kind of repository holds the project, and where.
pub struct RepositoryConfig {
    /// The kind of source control, such as `git`.
    pub scm_type: String,
    /// The directory that holds the repository.
    pub path: String,
}

/// A repository that is opened from a directory.
pub trait FileSystemRepository: Sized {
    /// Opens the repository found at `path`.
    fn from(path: &str) -> Self;
}

/// A repository that knows its last tag and the commits made since.
pub trait CodeRepository {
    /// Records a release of the given version.
    fn commit(&self, tag: &str);

    /// The name of the last tag reachable from the current commit, if any.
    fn get_last_tag(&self) -> Option<&str>;

    /// The messages of the commits made since the last tag, newest first.
    fn get_commits_since_last_tag(&self) -> &Vec<String>;
}

impl RepositoryConfig {
    /// Opens the repository that this configuration points at.
    pub fn get_repo<T: FileSystemRepository + CodeRepository>(&self) -> (r: T)
        ensures
            exists|path: &str| path@ == self.path@ && call_ensures(T::from, (path,), r),
    {
        T::from(self.path.as_str())
    }

    /// Whether the configured kind of source control is `git`, the one kind
    /// that is supported.
    pub fn uses_git(&self) -> (r: bool)
        ensures
            r == (self.scm_type@ == "git"@),
    {
        self.scm_type == String::from_str("git")
    }
}

} // verus!
