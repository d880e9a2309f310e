use calcver::repogit::{HistoryScan, TagTarget};

fn id(n: u8) -> Vec<u8> {
    vec![n; 20]
}

fn tag(name: &str, commit: Option<u8>) -> TagTarget {
    TagTarget { name: name.to_string(), commit: commit.map(id) }
}

#[test]
fn scan_collects_messages_until_the_tagged_commit() {
    let mut scan = HistoryScan::new(vec![tag("v1.0.0", Some(3))]);
    assert!(!scan.is_done());
    assert!(scan.step(&id(1), Some("fix: b".to_string())));
    assert!(scan.step(&id(2), Some("feat: a".to_string())));
    assert!(!scan.step(&id(3), Some("release".to_string())));
    assert!(scan.is_done());
    let repo = scan.finish("repo".to_string());
    assert_eq!(repo.get_path(), "repo");
    assert_eq!(repo.get_last_tag(), Some("v1.0.0"));
    assert_eq!(repo.get_commits_since_last_tag(), &vec!["fix: b".to_string(), "feat: a".to_string()]);
}

#[test]
fn scan_ignores_commits_after_the_tag() {
    let mut scan = HistoryScan::new(vec![tag("v1.0.0", Some(1))]);
    assert!(!scan.step(&id(1), Some("tagged".to_string())));
    assert!(!scan.step(&id(2), Some("older".to_string())));
    let repo = scan.finish(".".to_string());
    assert_eq!(repo.get_last_tag(), Some("v1.0.0"));
    assert!(repo.get_commits_since_last_tag().is_empty());
}

#[test]
fn scan_without_tags_keeps_every_message() {
    let mut scan = HistoryScan::new(vec![tag("loose", None)]);
    assert!(scan.step(&id(1), Some("one".to_string())));
    assert!(scan.step(&id(2), None));
    assert!(scan.step(&id(3), Some("three".to_string())));
    let repo = scan.finish(".".to_string());
    assert_eq!(repo.get_last_tag(), None);
    assert_eq!(repo.get_commits_since_last_tag(), &vec!["one".to_string(), "three".to_string()]);
}

#[test]
fn last_listed_tag_wins_for_a_commit() {
    let mut scan = HistoryScan::new(vec![tag("v1.0.0", Some(1)), tag("v1.0.1", Some(1)), tag("other", Some(2))]);
    assert!(!scan.step(&id(1), None));
    let repo = scan.finish(".".to_string());
    assert_eq!(repo.get_last_tag(), Some("v1.0.1"));
}

#[test]
fn ids_of_other_lengths_do_not_match() {
    let mut scan = HistoryScan::new(vec![TagTarget { name: "t".to_string(), commit: Some(vec![1, 1]) }]);
    assert!(scan.step(&vec![1, 1, 1], Some("m".to_string())));
    assert!(!scan.step(&vec![1, 1], Some("n".to_string())));
    let repo = scan.finish(".".to_string());
    assert_eq!(repo.get_last_tag(), Some("t"));
    assert_eq!(repo.get_commits_since_last_tag(), &vec!["m".to_string()]);
}
