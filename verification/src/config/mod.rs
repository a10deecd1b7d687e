//! Configuration: the file's sections, profiles, and where the file lives.

pub mod file;
pub mod profiles;

use vstd::prelude::*;
use vstd::string::*;
use crate::error::XeroCliError;
use crate::text::or_empty;
use self::file::ConfigFile;
use self::profiles::Profile;

verus! {

/// The loaded configuration and the path it belongs to.
pub struct AppConfig {
    pub config_file: ConfigFile,
    pub config_path: String,
}

/// Whether `c` separates path components on a platform whose separator is the
/// text `sep`: `sep` itself, and `/`, which every platform accepts.
pub open spec fn is_separator(c: char, sep: Seq<char>) -> bool {
    sep == seq![c] || c == '/'
}

/// `base` with the relative component `comp` appended, as `PathBuf::join` does on
/// a platform whose separator is `sep`: `sep` between them unless `base` is empty
/// or already ends in a separator.
pub open spec fn join_path(base: Seq<char>, comp: Seq<char>, sep: Seq<char>) -> Seq<char> {
    if base.len() == 0 || is_separator(base.last(), sep) {
        base + comp
    } else {
        base + sep + comp
    }
}

/// Appends the relative component `comp` to the path `base`, on a platform whose
/// separator is `sep`.
pub fn join(base: &str, comp: &str, sep: &str) -> (r: String)
    ensures
        r@ == join_path(base@, comp@, sep@),
{
    let n = base.unicode_len();
    let mut r = String::from_str(base);
    if n > 0 {
        let last = base.get_char(n - 1);
        let sep_is_last = sep.unicode_len() == 1 && sep.get_char(0) == last;
        proof {
            if sep@.len() == 1 {
                assert(sep_is_last == (sep@ == seq![last])) by {
                    if sep@[0] == last {
                        assert(sep@ =~= seq![last]);
                    }
                }
            } else {
                assert(sep@ != seq![last]);
            }
        }
        if !sep_is_last && last != '/' {
            r.append(sep);
        }
    }
    r.append(comp);
    assert(r@ =~= join_path(base@, comp@, sep@));
    r
}

/// The separator of path components on this platform, as text
/// (`std::path::MAIN_SEPARATOR_STR`). It depends on the platform; nothing is
/// stated of it.
#[verifier::external_body]
fn path_separator() -> (r: &'static str) {
    std::path::MAIN_SEPARATOR_STR
}

/// The user's configuration directory (`dirs::config_dir`), as text. It depends on
/// the environment and the platform; nothing is stated of it.
#[verifier::external_body]
fn os_config_dir() -> (r: Option<String>) {
    match dirs::config_dir() {
        Some(p) => Some(p.to_string_lossy().into_owned()),
        None => None,
    }
}

/// The user's cache directory (`dirs::cache_dir`), as text. It depends on the
/// environment and the platform; nothing is stated of it.
#[verifier::external_body]
fn os_cache_dir() -> (r: Option<String>) {
    match dirs::cache_dir() {
        Some(p) => Some(p.to_string_lossy().into_owned()),
        None => None,
    }
}

/// The application's directory under the platform directory `base`, or the
/// error `message` when the platform has none.
pub fn app_dir_under(base: Option<String>, sep: &str, message: &str) -> (r: Result<
    String,
    XeroCliError,
>)
    ensures
        match base {
            Some(b) => r matches Ok(p) && p@ == join_path(b@, "xero-cli"@, sep@),
            None => r matches Err(XeroCliError::Config { message: m }) && m@ == message@,
        },
{
    match base {
        Some(b) => Ok(join(b.as_str(), "xero-cli", sep)),
        None => Err(XeroCliError::config(message)),
    }
}

/// The directory that holds the configuration and the stored tokens.
pub fn default_config_dir() -> (r: Result<String, XeroCliError>)
    ensures
        match r {
            Ok(p) => exists|b: Seq<char>, s: Seq<char>| p@ == join_path(b, "xero-cli"@, s),
            Err(e) => e matches XeroCliError::Config { message }
                && message@ == "Could not determine config directory"@,
        },
{
    let base = os_config_dir();
    let sep = path_separator();
    let ghost b = or_empty(base);
    let r = app_dir_under(base, sep, "Could not determine config directory");
    proof {
        if r is Ok {
            assert(r->Ok_0@ == join_path(b, "xero-cli"@, sep@));
        }
    }
    r
}

/// The configuration file's path inside the configuration directory `dir`.
pub fn config_path_in(dir: Result<String, XeroCliError>, sep: &str) -> (r: Result<
    String,
    XeroCliError,
>)
    ensures
        match dir {
            Ok(d) => r matches Ok(p) && p@ == join_path(d@, "config.toml"@, sep@),
            Err(e) => r == Err::<String, XeroCliError>(e),
        },
{
    match dir {
        Ok(d) => Ok(join(d.as_str(), "config.toml", sep)),
        Err(e) => Err(e),
    }
}

/// Where the configuration file lives when no path is given.
pub fn default_config_path() -> (r: Result<String, XeroCliError>)
    ensures
        match r {
            Ok(p) => exists|b: Seq<char>, s: Seq<char>|
                p@ == join_path(join_path(b, "xero-cli"@, s), "config.toml"@, s),
            Err(e) => e matches XeroCliError::Config { message }
                && message@ == "Could not determine config directory"@,
        },
{
    let base = os_config_dir();
    let sep = path_separator();
    let ghost b = or_empty(base);
    let dir = app_dir_under(base, sep, "Could not determine config directory");
    let r = config_path_in(dir, sep);
    proof {
        if r is Ok {
            assert(r->Ok_0@ == join_path(join_path(b, "xero-cli"@, sep@), "config.toml"@, sep@));
        }
    }
    r
}

/// The directory that holds cached responses.
pub fn default_cache_dir() -> (r: Result<String, XeroCliError>)
    ensures
        match r {
            Ok(p) => exists|b: Seq<char>, s: Seq<char>| p@ == join_path(b, "xero-cli"@, s),
            Err(e) => e matches XeroCliError::Config { message }
                && message@ == "Could not determine cache directory"@,
        },
{
    let base = os_cache_dir();
    let sep = path_separator();
    let ghost b = or_empty(base);
    let r = app_dir_under(base, sep, "Could not determine cache directory");
    proof {
        if r is Ok {
            assert(r->Ok_0@ == join_path(b, "xero-cli"@, sep@));
        }
    }
    r
}

/// The name of the profile to use: the one asked for, else the configured
/// active profile, else `default`.
pub open spec fn selected_profile(asked: Option<Seq<char>>, active: Option<String>) -> Seq<char> {
    match asked {
        Some(n) => n,
        None => match active {
            Some(a) => a@,
            None => "default"@,
        },
    }
}

impl AppConfig {
    /// The configuration read from `config_path`, or from the default path when
    /// none is given. `file` is what the file held, `None` when it does not exist;
    /// a missing file gives the default configuration.
    pub fn load(config_path: Option<&str>, file: Option<ConfigFile>) -> (r: Result<
        Self,
        XeroCliError,
    >)
        ensures
            match config_path {
                Some(p) => r is Ok && r->Ok_0.config_path@ == p@,
                None => match r {
                    Ok(c) => exists|b: Seq<char>, s: Seq<char>|
                        c.config_path@ == join_path(
                            join_path(b, "xero-cli"@, s),
                            "config.toml"@,
                            s,
                        ),
                    Err(e) => e matches XeroCliError::Config { message }
                        && message@ == "Could not determine config directory"@,
                },
            },
            r is Ok ==> match file {
                Some(f) => r->Ok_0.config_file == f,
                None => r->Ok_0.config_file.is_default(),
            },
    {
        let path = match config_path {
            Some(p) => String::from_str(p),
            None => {
                match default_config_path() {
                    Ok(p) => p,
                    Err(e) => {
                        return Err(e);
                    },
                }
            },
        };
        let config_file = match file {
            Some(f) => f,
            None => ConfigFile::default(),
        };
        Ok(AppConfig { config_file, config_path: path })
    }

    /// The profile to use: the one called `name` when given, else the configured
    /// active profile, else the one called `default`; `None` when there is no
    /// profile of that name.
    pub fn active_profile(&self, name: Option<&str>) -> (r: Option<&Profile>)
        ensures
            ({
                let sel = selected_profile(
                    match name {
                        Some(n) => Some(n@),
                        None => None,
                    },
                    self.config_file.default.active_profile,
                );
                match r {
                    Some(p) => self.config_file.profiles@.dom().contains(sel) && *p
                        == self.config_file.profiles@[sel],
                    None => !self.config_file.profiles@.dom().contains(sel),
                }
            }),
    {
        let profile_name: &str = match name {
            Some(n) => n,
            None => match &self.config_file.default.active_profile {
                Some(a) => a.as_str(),
                None => "default",
            },
        };
        self.config_file.profiles.get(profile_name)
    }
}

} // verus!
