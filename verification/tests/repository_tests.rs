use calcver::config::VersionConfig;
use calcver::config::CalcverConfig;
use calcver::release::ReleaseConfig;
use calcver::repository::{CodeRepository, FileSystemRepository, RepositoryConfig};
use calcver::{get_version, VersionBumpBehavior};

struct DummyRepo {
    pub commits: Vec<String>,
    pub last_tag: Option<String>,
}

impl CodeRepository for DummyRepo {
    fn get_last_tag(&self) -> Option<&str> {
        match self.last_tag {
            Some(ref tag) => Some(tag),
            None => None,
        }
    }
    fn get_commits_since_last_tag(&self) -> &Vec<String> {
        &self.commits
    }
    fn commit(&self, _tag: &str) {}
}

#[test]
fn smoke_test() {
    let repo = DummyRepo {
        commits: vec!["feat: smoke test".to_string()],
        last_tag: Some("v1.2.3".to_string()),
    };
    let config = VersionConfig::from_defaults();

    assert_eq!("1.3.0-alpha.1", get_version(&config, &repo, VersionBumpBehavior::Auto, false).unwrap());
    assert_eq!("1.3.0", get_version(&config, &repo, VersionBumpBehavior::Auto, true).unwrap())
}

#[test]
fn smoke_test_release() {
    let repo = DummyRepo {
        commits: vec![],
        last_tag: Some("v1.2.3".to_string()),
    };
    let config = VersionConfig::from_defaults();
    assert_eq!("1.2.3", get_version(&config, &repo, VersionBumpBehavior::Auto, true).unwrap())
}

#[test]
fn error_if_no_info() {
    let repo = DummyRepo {
        commits: vec![],
        last_tag: None,
    };
    let config = VersionConfig::from_defaults();
    assert!(get_version(&config, &repo, VersionBumpBehavior::Auto, true).is_err())
}

#[test]
fn error_if_invalid_regex() {
    let repo = DummyRepo {
        commits: vec!["feat: smoke test".to_string()],
        last_tag: Some("v1.2.3".to_string()),
    };
    let config = VersionConfig {
        prerelease_prefix: String::from(calcver::config::PRERELEASE_PREFIX_DEFAULT),
        tag_regex: String::from(calcver::config::TAG_REGEX_DEFAULT),
        major_regex: String::from(calcver::config::MAJOR_REGEX_DEFAULT),
        minor_regex: String::from(calcver::config::MINOR_REGEX_DEFAULT),
        patch_regex: String::from("invalidregex[\\t"),
    };
    assert!(get_version(&config, &repo, VersionBumpBehavior::Auto, true).is_err())
}

impl FileSystemRepository for DummyRepo {
    fn from(path: &str) -> Self {
        DummyRepo {
            commits: vec![format!("fix: in {}", path)],
            last_tag: Some("v0.1.0".to_string()),
        }
    }
}

#[test]
fn get_repo_opens_the_configured_path() {
    let rc = RepositoryConfig { scm_type: "git".to_string(), path: "somewhere".to_string() };
    let repo: DummyRepo = rc.get_repo::<DummyRepo>();
    assert_eq!(repo.commits, vec!["fix: in somewhere".to_string()]);
}

#[test]
fn run_lets_the_messages_decide() {
    let config = CalcverConfig {
        project: VersionConfig::from_defaults(),
        repository: RepositoryConfig { scm_type: "git".to_string(), path: ".".to_string() },
        release: vec![ReleaseConfig::RunScript("echo".to_string())],
    };
    let repo = DummyRepo {
        commits: vec!["feat: a".to_string(), "BREAKING CHANGE: b".to_string()],
        last_tag: Some("v1.2.3".to_string()),
    };
    assert_eq!(calcver::run(&config, &repo, true).unwrap(), "2.0.0");
    assert_eq!(calcver::run(&config, &repo, false).unwrap(), "2.0.0-alpha.2");
}
