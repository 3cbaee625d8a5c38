use vstd::prelude::*;

use crate::error::{cat, cat3, AppError, AppResult};

verus! {

/// The connection parameters of a site's database.
#[derive(Debug, Clone)]
pub struct DatabaseCredentials {
    pub username: String,
    pub password: String,
    pub database: String,
}

/// Whether the regex crate accepts `p` as a pattern.
pub uninterp spec fn regex_accepts(p: Seq<char>) -> bool;

/// The text of capture group 1 in the leftmost match of pattern `p` in `t`;
/// none when nothing matches or the group takes no part in the match.
pub uninterp spec fn regex_first_group(p: Seq<char>, t: Seq<char>) -> Option<Seq<char>>;

/// `s` without its leading and trailing white space.
pub uninterp spec fn trimmed(s: Seq<char>) -> Seq<char>;

#[verifier::external_type_specification]
#[verifier::external_body]
pub struct ExRegexError(regex::Error);

/// Relies on regex::Regex::new, which compiles `pattern` or refuses it by its
/// text alone, and on Regex::captures with Captures::get(1), which give the
/// first group of the leftmost match in `text`.
#[verifier::external_body]
fn first_group(pattern: &str, text: &str) -> (r: Result<Option<String>, regex::Error>)
    ensures
        r is Ok <==> regex_accepts(pattern@),
        match r {
            Ok(Some(g)) => regex_first_group(pattern@, text@) == Some(g@),
            Ok(None) => regex_first_group(pattern@, text@) is None,
            Err(_) => true,
        },
{
    let re = regex::Regex::new(pattern)?;
    Ok(re.captures(text).and_then(|c| c.get(1)).map(|m| m.as_str().to_string()))
}

/// Relies on str::trim, which drops leading and trailing white space.
#[verifier::external_body]
fn trim(s: &str) -> (r: String)
    ensures
        r@ == trimmed(s@),
{
    s.trim().to_string()
}

/// The pattern that finds `define('KEY', 'VALUE');` in a PHP file and
/// captures `VALUE`.
pub open spec fn wordpress_pattern(key: Seq<char>) -> Seq<char> {
    "define\\(\\s*'"@ + key + "',\\s*'([^']+)'\\s*\\);"@
}

/// The pattern that finds a `KEY=value` line and captures the rest of it.
pub open spec fn env_pattern(key: Seq<char>) -> Seq<char> {
    key + "=(.*)"@
}

/// The value of `key` in a WordPress configuration, if it can be found.
pub open spec fn wordpress_value(content: Seq<char>, key: Seq<char>) -> Option<Seq<char>> {
    let p = wordpress_pattern(key);
    if regex_accepts(p) {
        regex_first_group(p, content)
    } else {
        None
    }
}

/// The value of `key` in a `.env` file, trimmed, if it can be found.
pub open spec fn env_value(content: Seq<char>, key: Seq<char>) -> Option<Seq<char>> {
    let p = env_pattern(key);
    if regex_accepts(p) {
        match regex_first_group(p, content) {
            Some(g) => Some(trimmed(g)),
            None => None,
        }
    } else {
        None
    }
}

/// The error a lookup of `key` with pattern `p` fails with: the pattern is
/// refused, or else the key is missing.
pub open spec fn lookup_failure(e: AppError, p: Seq<char>, key: Seq<char>) -> bool {
    if regex_accepts(p) {
        match e {
            AppError::CredentialParseError(k) => k@ == key,
            _ => false,
        }
    } else {
        e is RegexParseError
    }
}

fn pattern_error(key: &str) -> (e: AppError)
    ensures
        e is RegexParseError,
{
    AppError::RegexParseError(cat3("Failed to compile regex for key '", key, "'"))
}

/// Finds `define('KEY', 'VALUE');` in a PHP configuration and returns `VALUE`.
pub fn extract_value(content: &str, key: &str) -> (r: AppResult<String>)
    ensures
        match r {
            Ok(v) => wordpress_value(content@, key@) == Some(v@),
            Err(e) => wordpress_value(content@, key@) is None && lookup_failure(
                e,
                wordpress_pattern(key@),
                key@,
            ),
        },
{
    let pattern = cat3("define\\(\\s*'", key, "',\\s*'([^']+)'\\s*\\);");
    proof {
        assert(pattern@ == wordpress_pattern(key@));
    }
    match first_group(pattern.as_str(), content) {
        Ok(Some(g)) => Ok(g),
        Ok(None) => Err(AppError::CredentialParseError(String::from_str(key))),
        Err(_) => Err(pattern_error(key)),
    }
}

/// Finds the first `KEY=value` in a `.env` file and returns `value` without
/// surrounding white space.
pub fn extract_env_value(content: &str, key: &str) -> (r: AppResult<String>)
    ensures
        match r {
            Ok(v) => env_value(content@, key@) == Some(v@),
            Err(e) => env_value(content@, key@) is None && lookup_failure(
                e,
                env_pattern(key@),
                key@,
            ),
        },
{
    let pattern = cat(key, "=(.*)");
    match first_group(pattern.as_str(), content) {
        Ok(Some(g)) => Ok(trim(g.as_str())),
        Ok(None) => Err(AppError::CredentialParseError(String::from_str(key))),
        Err(_) => Err(pattern_error(key)),
    }
}

} // verus!
