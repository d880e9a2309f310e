//! The version written in a Cargo manifest, read and replaced with the
//! `toml` crate.
use vstd::prelude::*;

verus! {

/// The string that the TOML document `text` holds under `key` of its table
/// `table`, as `toml` parses the document (`None` where the text does not
/// parse, the table or the key is missing, or the value is not a string).
pub uninterp spec fn toml_string_at(text: Seq<char>, table: Seq<char>, key: Seq<char>) -> Option<
    Seq<char>,
>;

/// The TOML document `text`, parsed by `toml`, with the value under `key` of
/// its table `table` replaced by the string `value`, printed again with
/// `toml::to_string_pretty` (`None` where the text does not parse, the table
/// or the key is missing, or printing fails).
pub uninterp spec fn toml_with_string_at(
    text: Seq<char>,
    table: Seq<char>,
    key: Seq<char>,
    value: Seq<char>,
) -> Option<Seq<char>>;

/// Parses `text` as a `toml::Value` and reads the string at `table`/`key`
/// with `Value::get` and `Value::as_str`. The contract names the result
/// (`toml_string_at`) over the three texts.
#[verifier::external_body]
fn toml_get_string(text: &str, table: &str, key: &str) -> (r: Option<String>)
    ensures
        r matches Some(s) ==> toml_string_at(text@, table@, key@) == Some(s@),
        r is None ==> toml_string_at(text@, table@, key@) is None,
{
    let doc: toml::Value = text.parse().ok()?;
    doc.get(table)?.get(key)?.as_str().map(|s| s.to_string())
}

/// Parses `text` as a `toml::Value`, replaces the value at `table`/`key`
/// (found with `Value::get_mut`) by `Value::String(value)`, and prints the
/// document with `toml::to_string_pretty`. The contract names the result
/// (`toml_with_string_at`) over the four texts.
#[verifier::external_body]
fn toml_set_string(text: &str, table: &str, key: &str, value: &str) -> (r: Option<String>)
    ensures
        r matches Some(s) ==> toml_with_string_at(text@, table@, key@, value@) == Some(s@),
        r is None ==> toml_with_string_at(text@, table@, key@, value@) is None,
{
    let mut doc: toml::Value = text.parse().ok()?;
    *doc.get_mut(table)?.get_mut(key)? = toml::Value::String(value.to_string());
    toml::to_string_pretty(&doc).ok()
}

/// Sets `package.version` of the Cargo manifest `text` to `version`: the old
/// version and the new manifest text, or `None` where the manifest does not
/// parse, has no string `package.version`, or cannot be printed again.
pub fn update_toml(text: &str, version: &str) -> (r: Option<(String, String)>)
    ensures
        r matches Some((old, new)) ==> {
            &&& toml_string_at(text@, "package"@, "version"@) == Some(old@)
            &&& toml_with_string_at(text@, "package"@, "version"@, version@) == Some(new@)
        },
        r is None ==> {
            ||| toml_string_at(text@, "package"@, "version"@) is None
            ||| toml_with_string_at(text@, "package"@, "version"@, version@) is None
        },
{
    let old = match toml_get_string(text, "package", "version") {
        Some(v) => v,
        None => return None,
    };
    match toml_set_string(text, "package", "version", version) {
        Some(new) => Some((old, new)),
        None => None,
    }
}

} // verus!
