use calcver::config::{CalcverConfig, CalcverFileConfig, VersionConfig};
use calcver::release::ReleaseConfig;

const NO_ACTIONS_CONFIG: &'static str = "repository_type: git";
const MIN_CONFIG: &'static str = "cargo: .\\cargo.toml";
const SCRIPTS_CONFIG: &'static str = r###"
actions:
  - .\bin\update-version.cmd
  - .\bin\publish.cmd
"###;
const OVERRIDE_CONFIG: &'static str = r###"cargo: .\\cargo.toml
root: ..\src
repository_type: hg
"###;

fn entry(doc: &serde_yaml::Value, key: &str) -> Option<String> {
    doc.get(key).and_then(|v| v.as_str()).map(|s| s.to_string())
}

/// Reads a configuration file's text into its entries, then fills in the
/// defaults.
fn parse_config(config_yaml: &str) -> CalcverConfig {
    let doc: serde_yaml::Value = serde_yaml::from_str(config_yaml).unwrap();
    let actions = doc.get("actions").and_then(|v| v.as_sequence()).map(|items| {
        items.iter().map(|i| i.as_str().unwrap().to_string()).collect::<Vec<String>>()
    });
    let file = CalcverFileConfig {
        repository_type: entry(&doc, "repository_type"),
        root: entry(&doc, "root"),
        prerelease_prefix: entry(&doc, "prerelease_prefix"),
        tag_regex: entry(&doc, "tag_regex"),
        major_regex: entry(&doc, "major_regex"),
        minor_regex: entry(&doc, "minor_regex"),
        patch_regex: entry(&doc, "patch_regex"),
        cargo: entry(&doc, "cargo"),
        actions,
    };
    file.convert()
}

#[test]
fn default_repo_is_git() {
    assert_eq!(parse_config(MIN_CONFIG).repository.scm_type, "git");
}

#[test]
fn default_repo_path_is_current() {
    assert_eq!(parse_config(MIN_CONFIG).repository.path, ".");
}

#[test]
fn repository_type_is_configurable() {
    assert_eq!(parse_config(OVERRIDE_CONFIG).repository.scm_type, "hg");
}

#[test]
fn repo_path_is_configurable() {
    assert_eq!(parse_config(OVERRIDE_CONFIG).repository.path, "..\\src");
}

#[test]
fn cargo_toml_is_added_if_present() {
    let parsed = parse_config(MIN_CONFIG);
    let cargo = parsed.release.into_iter().find(|i| match i {
        &ReleaseConfig::CargoToml(ref t) => {
            assert_eq!(t, ".\\cargo.toml");
            true
        }
        _ => false,
    });

    assert!(cargo.is_some());
}

#[test]
fn cargo_toml_is_not_added_if_not_defined() {
    let parsed = parse_config(SCRIPTS_CONFIG);
    let has_cargo = parsed.release.into_iter().any(|i| match i {
        ReleaseConfig::CargoToml(_) => true,
        _ => false,
    });

    assert!(!has_cargo);
}

#[test]
fn no_actions_by_default() {
    let parsed = parse_config(NO_ACTIONS_CONFIG);
    assert!(parsed.release.len() == 0);
}

fn empty_file() -> CalcverFileConfig {
    CalcverFileConfig {
        repository_type: None,
        root: None,
        prerelease_prefix: None,
        tag_regex: None,
        major_regex: None,
        minor_regex: None,
        patch_regex: None,
        cargo: None,
        actions: None,
    }
}

#[test]
fn empty_file_gives_defaults() {
    let c = empty_file().convert();
    let d = VersionConfig::from_defaults();
    assert_eq!(c.project.prerelease_prefix, d.prerelease_prefix);
    assert_eq!(c.project.tag_regex, d.tag_regex);
    assert_eq!(c.project.major_regex, d.major_regex);
    assert_eq!(c.project.minor_regex, d.minor_regex);
    assert_eq!(c.project.patch_regex, d.patch_regex);
    assert_eq!(c.repository.scm_type, "git");
    assert_eq!(c.repository.path, ".");
    assert!(c.release.is_empty());
}

#[test]
fn defaults_are_the_documented_texts() {
    let d = VersionConfig::from_defaults();
    assert_eq!(d.prerelease_prefix, "alpha");
    assert_eq!(d.tag_regex, calcver::config::TAG_REGEX_DEFAULT);
    assert_eq!(d.major_regex, calcver::config::MAJOR_REGEX_DEFAULT);
    assert_eq!(d.minor_regex, calcver::config::MINOR_REGEX_DEFAULT);
    assert_eq!(d.patch_regex, calcver::config::PATCH_REGEX_DEFAULT);
}

#[test]
fn file_entries_override_defaults() {
    let mut f = empty_file();
    f.prerelease_prefix = Some("beta".to_string());
    f.tag_regex = Some("x".to_string());
    f.major_regex = Some("a".to_string());
    f.minor_regex = Some("b".to_string());
    f.patch_regex = Some("c".to_string());
    let c = f.convert();
    assert_eq!(c.project.prerelease_prefix, "beta");
    assert_eq!(c.project.tag_regex, "x");
    assert_eq!(c.project.major_regex, "a");
    assert_eq!(c.project.minor_regex, "b");
    assert_eq!(c.project.patch_regex, "c");
}

#[test]
fn scripts_keep_their_order_and_cargo_comes_last() {
    let mut f = empty_file();
    f.actions = Some(vec!["first".to_string(), "second".to_string()]);
    f.cargo = Some("Cargo.toml".to_string());
    let c = f.convert();
    assert_eq!(c.release.len(), 3);
    match &c.release[0] {
        ReleaseConfig::RunScript(s) => assert_eq!(s, "first"),
        _ => panic!("expected a script"),
    }
    match &c.release[1] {
        ReleaseConfig::RunScript(s) => assert_eq!(s, "second"),
        _ => panic!("expected a script"),
    }
    match &c.release[2] {
        ReleaseConfig::CargoToml(p) => assert_eq!(p, "Cargo.toml"),
        _ => panic!("expected the manifest"),
    }
}

#[test]
fn only_git_is_supported() {
    let git = parse_config(NO_ACTIONS_CONFIG);
    assert!(git.repository.uses_git());
    let hg = parse_config(OVERRIDE_CONFIG);
    assert!(!hg.repository.uses_git());
}
