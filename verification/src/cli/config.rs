//! The configuration file.

use vstd::prelude::*;
use vstd::string::*;
use crate::config::{default_config_path, join_path};
use crate::text::{count_char, join_with, lemma_split_join, lemma_split_len, lemma_split_pieces_free, split_on, split_text};

verus! {

/// Creating, showing and changing the configuration file.
pub enum ConfigCommands {
    /// Initialize configuration file.
    Init,
    /// Show current configuration.
    Show,
    /// Set a configuration value.
    SetValue {
        key: String,
        value: String,
    },
}

/// The configuration file a command works on: the one given, else the default
/// one; an error when neither is known.
pub fn config_file_path(given: Option<String>) -> (r: Result<String, String>)
    ensures
        match given {
            Some(g) => r == Ok::<String, String>(g),
            None => match r {
                Ok(p) => exists|b: Seq<char>, s: Seq<char>|
                    p@ == join_path(join_path(b, "xero-cli"@, s), "config.toml"@, s),
                Err(m) => m@ == "Could not determine config path"@,
            },
        },
{
    match given {
        Some(g) => Ok(g),
        None => match default_config_path() {
            Ok(p) => Ok(p),
            Err(_) => Err(String::from_str("Could not determine config path")),
        },
    }
}

/// A key of `config set` names a section and a field: `section.field`, with
/// exactly one dot.
pub fn parse_config_key(key: &str) -> (r: Result<(String, String), String>)
    ensures
        match r {
            Ok((section, field)) => split_on(key@, '.') == seq![section@, field@],
            Err(m) => split_on(key@, '.').len() != 2 && m@
                == "Key format: section.field (e.g. auth.client_id)"@,
        },
{
    let parts = split_text(key, '.');
    if parts.len() == 2 {
        let section = parts[0].clone();
        let field = parts[1].clone();
        assert(split_on(key@, '.') =~= seq![section@, field@]);
        Ok((section, field))
    } else {
        Err(String::from_str("Key format: section.field (e.g. auth.client_id)"))
    }
}

/// A key is accepted exactly when it holds one dot; its section and field are
/// then the text before and after that dot, and neither holds a dot.
pub proof fn lemma_config_key_parts(key: Seq<char>)
    ensures
        (split_on(key, '.').len() == 2) == (count_char(key, '.') == 1),
        split_on(key, '.').len() == 2 ==> {
            let p = split_on(key, '.');
            &&& p[0].push('.') + p[1] == key
            &&& !p[0].contains('.')
            &&& !p[1].contains('.')
        },
{
    lemma_split_len(key, '.');
    lemma_split_join(key, '.');
    lemma_split_pieces_free(key, '.');
    let p = split_on(key, '.');
    if p.len() == 2 {
        assert(p.drop_last() =~= seq![p[0]]);
        assert(join_with(p, '.') == join_with(p.drop_last(), '.').push('.') + p.last());
        assert(!p[0].contains('.')) by {
            if p[0].contains('.') {
                let j = choose|j: int| 0 <= j < p[0].len() && p[0][j] == '.';
            }
        }
        assert(!p[1].contains('.')) by {
            if p[1].contains('.') {
                let j = choose|j: int| 0 <= j < p[1].len() && p[1][j] == '.';
            }
        }
    }
}

/// What `toml_edit` reports when `content` is not a TOML document (the text of its
/// parse error); `None` when it is one.
pub uninterp spec fn toml_parse_failure(content: Seq<char>) -> Option<Seq<char>>;

/// The TOML text `toml_edit` prints after parsing `content` and setting `field` of
/// `section` to the string `value`; `None` when `content` does not parse or
/// `section` holds something other than a table.
pub uninterp spec fn toml_with_value(
    content: Seq<char>,
    section: Seq<char>,
    field: Seq<char>,
    value: Seq<char>,
) -> Option<Seq<char>>;

/// The parse error `toml_edit` gives for `content` (`str::parse` into
/// `toml_edit::DocumentMut`), as text; `None` when it parses. Its result is named
/// `toml_parse_failure`.
#[verifier::external_body]
fn toml_parse_error(content: &str) -> (r: Option<String>)
    ensures
        match r {
            Some(e) => toml_parse_failure(content@) == Some(e@),
            None => toml_parse_failure(content@) is None,
        },
{
    match content.parse::<toml_edit::DocumentMut>() {
        Ok(_) => None,
        Err(e) => Some(e.to_string()),
    }
}

/// Parses `content` into a `toml_edit::DocumentMut`, sets `doc[section][field]` to
/// the string `value` as `toml_edit`'s indexing does (a missing section becomes
/// an inline table), and prints the document. Where that indexing would panic
/// (the section holds a plain value or an array of tables) it gives `None`, as it
/// does when `content` does not parse. Its result is named `toml_with_value`.
#[verifier::external_body]
fn set_toml_string(content: &str, section: &str, field: &str, value: &str) -> (r: Option<String>)
    ensures
        match r {
            Some(t) => toml_with_value(content@, section@, field@, value@) == Some(t@),
            None => toml_with_value(content@, section@, field@, value@) is None,
        },
{
    let mut doc = match content.parse::<toml_edit::DocumentMut>() {
        Ok(d) => d,
        Err(_) => return None,
    };
    match doc[section].get_mut(field) {
        Some(item) => {
            *item = toml_edit::value(value);
            Some(doc.to_string())
        },
        None => None,
    }
}

/// The message when the section of a key holds something other than a table.
pub open spec fn not_a_table_message(section: Seq<char>) -> Seq<char> {
    "Failed to set config: `"@ + section + "` is not a table"@
}

/// The configuration file's text after `config set key value`: `content` (empty
/// for a missing file) must be a TOML document, else `Failed to parse config`;
/// then the key must be `section.field`; the field is then set to the string
/// `value`, keeping everything else in the file.
pub fn config_set_text(content: &str, key: &str, value: &str) -> (r: Result<String, String>)
    ensures
        match toml_parse_failure(content@) {
            Some(e) => r matches Err(m) && m@ == "Failed to parse config: "@ + e,
            None => {
                let parts = split_on(key@, '.');
                if parts.len() != 2 {
                    r matches Err(m) && m@ == "Key format: section.field (e.g. auth.client_id)"@
                } else {
                    match toml_with_value(content@, parts[0], parts[1], value@) {
                        Some(t) => r matches Ok(u) && u@ == t,
                        None => r matches Err(m) && m@ == not_a_table_message(parts[0]),
                    }
                }
            },
        },
{
    match toml_parse_error(content) {
        Some(e) => {
            let m = String::from_str("Failed to parse config: ").concat(e.as_str());
            proof {
                reveal_strlit("Failed to parse config: ");
            }
            return Err(m);
        },
        None => {},
    }
    let (section, field) = match parse_config_key(key) {
        Ok(p) => p,
        Err(m) => {
            return Err(m);
        },
    };
    match set_toml_string(content, section.as_str(), field.as_str(), value) {
        Some(t) => Ok(t),
        None => {
            let m = String::from_str("Failed to set config: `").concat(section.as_str()).concat(
                "` is not a table",
            );
            proof {
                reveal_strlit("Failed to set config: `");
                reveal_strlit("` is not a table");
            }
            Err(m)
        },
    }
}

} // verus!
