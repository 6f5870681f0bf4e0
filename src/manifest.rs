use vstd::prelude::*;
use crate::text::concat_str;

verus! {

/// Glob pattern matching every manifest below the working copy `repo`.
pub open spec fn manifest_pattern_spec(repo: Seq<char>) -> Seq<char> {
    repo + "/**/cjpm.toml"@
}

/// Whether `toml::from_str` accepts `s` as a TOML document.
pub uninterp spec fn toml_parses(s: Seq<char>) -> bool;

/// The rendered error of `toml::from_str` on a text that is no document.
pub uninterp spec fn toml_error_text(s: Seq<char>) -> Seq<char>;

/// The string stored under `key` in the table `table` of the document `s`,
/// as `toml::Value::get`, `get` and `as_str` find it.
pub uninterp spec fn toml_str_at(s: Seq<char>, table: Seq<char>, key: Seq<char>) -> Option<Seq<char>>;

/// Relies on `toml::from_str::<toml::Value>`, then `Value::get(table)`,
/// `Value::get(key)` and `Value::as_str`: the string at `table.key` of the
/// document, or the parser's rendered error.
#[verifier::external_body]
fn toml_str_lookup(content: &str, table: &str, key: &str) -> (r: Result<Option<String>, String>)
    ensures
        r is Ok == toml_parses(content@),
        r matches Ok(o) ==> match toml_str_at(content@, table@, key@) {
            None => o is None,
            Some(v) => o matches Some(x) && x@ == v,
        },
        r matches Err(e) ==> e@ == toml_error_text(content@),
{
    toml::from_str::<toml::Value>(content)
        .map(|doc| doc.get(table).and_then(|t| t.get(key)).and_then(|n| n.as_str()).map(String::from))
        .map_err(|e| e.to_string())
}

/// The glob pattern under which manifests of the working copy are searched.
pub fn manifest_pattern(repo_path: &str) -> (r: String)
    ensures
        r@ == manifest_pattern_spec(repo_path@),
{
    concat_str(repo_path, "/**/cjpm.toml")
}

/// Picks the manifest to read among the search's matches: the first one.
pub fn first_manifest(paths: &Vec<String>) -> (r: Result<String, String>)
    ensures
        paths.len() == 0 ==> (r matches Err(m) && m@ == "No cjpm.toml found"@),
        paths.len() > 0 ==> (r matches Ok(p) && p@ == paths[0]@),
{
    if paths.len() == 0 {
        Err(String::from_str("No cjpm.toml found"))
    } else {
        Ok(paths[0].clone())
    }
}

/// What reading a manifest with text `content` yields: the parser's error
/// when the text is no TOML document; else the string `package.name`, or
/// the error that the manifest declares none.
pub open spec fn manifest_outcome(content: Seq<char>, r: Result<String, String>) -> bool {
    if !toml_parses(content) {
        r matches Err(m) && m@ == "Failed to parse TOML: "@ + toml_error_text(content)
    } else {
        match toml_str_at(content, "package"@, "name"@) {
            Some(n) => r matches Ok(x) && x@ == n,
            None => r matches Err(m) && m@ == "package.name not found in cjpm.toml"@,
        }
    }
}

/// Extracts `package.name` from the text of a manifest.
pub fn package_name_of(content: &str) -> (r: Result<String, String>)
    ensures
        manifest_outcome(content@, r),
{
    match toml_str_lookup(content, "package", "name") {
        Err(e) => Err(concat_str("Failed to parse TOML: ", e.as_str())),
        Ok(Some(n)) => Ok(n),
        Ok(None) => Err(String::from_str("package.name not found in cjpm.toml")),
    }
}

/// What the manifest lookup yields from the search's matches (or its
/// error) and the outcome of reading the first match.
pub open spec fn lookup_outcome(
    matches: Result<Vec<String>, String>,
    read: Result<String, String>,
    r: Result<String, String>,
) -> bool {
    match matches {
        Err(e) => r matches Err(m) && m@ == "Failed to read glob pattern: "@ + e@,
        Ok(paths) => if paths.len() == 0 {
            r matches Err(m) && m@ == "No cjpm.toml found"@
        } else {
            match read {
                Err(e) => r matches Err(m) && m@ == "Failed to read cjpm.toml: "@ + e@,
                Ok(content) => manifest_outcome(content@, r),
            }
        },
    }
}

/// The package name of a working copy, from the manifest search's matches
/// (or the search's error) and the outcome of reading the first match. The
/// read outcome is not looked at when there is no match.
pub fn find_package_name(
    matches: Result<Vec<String>, String>,
    read: Result<String, String>,
) -> (r: Result<String, String>)
    ensures
        lookup_outcome(matches, read, r),
{
    match matches {
        Err(e) => Err(concat_str("Failed to read glob pattern: ", e.as_str())),
        Ok(paths) => match first_manifest(&paths) {
            Err(m) => Err(m),
            Ok(_) => match read {
                Err(e) => Err(concat_str("Failed to read cjpm.toml: ", e.as_str())),
                Ok(content) => package_name_of(content.as_str()),
            },
        },
    }
}

} // verus!
