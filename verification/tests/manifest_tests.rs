use calcver::manifest::update_toml;
use toml::Value;

#[test]
fn update_cargo_toml_version() {
    let toml = r###"[package]
name = "calcver"
version = "0.1.0"
authors = ["Jerahmeel Cosinas <me@jerahmeelcosinas.net>","Joelle Ortiz <contact@joelleortiz.me>"]

[dependencies]
libcalcver = "0.2.0-beta.2"
clap = "2.29.2"
git2 = "0.6"
toml = "0.4"
serde_derive = "1.0"
"###;
    let (old, new) = update_toml(toml, "1.2.3").unwrap();
    assert_eq!(old, "0.1.0");
    let parsed = new.parse::<Value>().unwrap();
    let updated = parsed.as_table().unwrap()
        .get("package").unwrap().as_table().unwrap()
        .get("version").unwrap().as_str().unwrap();

    assert_eq!(updated, "1.2.3");
}

#[test]
fn manifest_without_version_is_refused() {
    assert!(update_toml("[package]\nname = \"x\"\n", "1.0.0").is_none());
    assert!(update_toml("[package]\nversion = 3\n", "1.0.0").is_none());
    assert!(update_toml("not = [toml", "1.0.0").is_none());
}

#[test]
fn other_entries_survive_the_update() {
    let (_, new) = update_toml("[package]\nname = \"x\"\nversion = \"0.0.1\"\n[dependencies]\na = \"1\"\n", "0.0.2").unwrap();
    let parsed = new.parse::<Value>().unwrap();
    assert_eq!(parsed["package"]["name"].as_str(), Some("x"));
    assert_eq!(parsed["dependencies"]["a"].as_str(), Some("1"));
    assert_eq!(parsed["package"]["version"].as_str(), Some("0.0.2"));
}
