//! What every API command decides before it makes its first call: the client id,
//! the tenant, and whether and where responses are cached.

use vstd::prelude::*;
use crate::config::{AppConfig, default_cache_dir, join_path};
use crate::error::XeroCliError;
use crate::text::or_empty;

verus! {

/// The client id for API calls: the one from the environment, which overrides the
/// configuration file, else the configured one, else empty.
pub fn resolve_client_id(configured: &Option<String>, env: Option<String>) -> (r: String)
    ensures
        r@ == match env {
            Some(e) => e@,
            None => or_empty(*configured),
        },
{
    match env {
        Some(e) => e,
        None => match configured {
            Some(c) => c.clone(),
            None => String::new(),
        },
    }
}

/// The profile whose tenant is used: the one named on the command line, else the
/// configured active profile.
pub open spec fn tenant_profile_name(profile: Option<Seq<char>>, active: Option<String>) -> Option<
    Seq<char>,
> {
    match profile {
        Some(p) => Some(p),
        None => match active {
            Some(a) => Some(a@),
            None => None,
        },
    }
}

/// `r` is the tenant that API calls go to, given the configuration, the profile
/// named on the command line, the tenant of the tokens and the one from the
/// environment.
pub open spec fn resolves_tenant(
    config: AppConfig,
    profile: Option<Seq<char>>,
    token_tenant: Option<String>,
    env_tenant: Option<String>,
    r: Result<String, XeroCliError>,
) -> bool {
    let profiles = config.config_file.profiles@;
    let name = tenant_profile_name(profile, config.config_file.default.active_profile);
    let from_profile = match name {
        Some(n) => profiles.dom().contains(n),
        None => false,
    };
    if from_profile {
        r matches Ok(t) && t@ == profiles[name->0].tenant_id@
    } else if token_tenant is Some {
        r == Ok::<String, XeroCliError>(token_tenant->0)
    } else if env_tenant is Some {
        r == Ok::<String, XeroCliError>(env_tenant->0)
    } else {
        r matches Err(XeroCliError::Config { message }) && message@
            == "No tenant ID found. Run `xero auth login` or set XERO_TENANT_ID"@
    }
}

/// The tenant that API calls go to: the tenant of the profile named on the
/// command line, else of the configured active profile, when that profile exists;
/// else the tenant the tokens were issued for, else the one from the environment;
/// an error when none is known.
pub fn resolve_tenant_id(
    config: &AppConfig,
    profile: Option<&str>,
    token_tenant: Option<String>,
    env_tenant: Option<String>,
) -> (r: Result<String, XeroCliError>)
    ensures
        resolves_tenant(
            *config,
            match profile {
                Some(p) => Some(p@),
                None => None,
            },
            token_tenant,
            env_tenant,
            r,
        ),
{
    let name: Option<&str> = match profile {
        Some(p) => Some(p),
        None => match &config.config_file.default.active_profile {
            Some(a) => Some(a.as_str()),
            None => None,
        },
    };
    match name {
        Some(n) => {
            match config.config_file.profiles.get(n) {
                Some(found) => {
                    return Ok(found.tenant_id.clone());
                },
                None => {},
            }
        },
        None => {},
    }
    match token_tenant {
        Some(t) => Ok(t),
        None => match env_tenant {
            Some(t) => Ok(t),
            None => Err(
                XeroCliError::config(
                    "No tenant ID found. Run `xero auth login` or set XERO_TENANT_ID",
                ),
            ),
        },
    }
}

/// A profile named on the command line that exists decides the tenant, whatever
/// profile the configuration marks as active and whatever the tokens or the
/// environment say.
pub proof fn lemma_named_profile_wins(
    config: AppConfig,
    name: Seq<char>,
    token_tenant: Option<String>,
    env_tenant: Option<String>,
    r: Result<String, XeroCliError>,
)
    requires
        resolves_tenant(config, Some(name), token_tenant, env_tenant, r),
        config.config_file.profiles@.dom().contains(name),
    ensures
        r matches Ok(t) && t@ == config.config_file.profiles@[name].tenant_id@,
{
}

/// Without a profile on the command line, the configured active profile decides
/// the tenant when it exists.
pub proof fn lemma_active_profile_used(
    config: AppConfig,
    token_tenant: Option<String>,
    env_tenant: Option<String>,
    r: Result<String, XeroCliError>,
)
    requires
        resolves_tenant(config, None, token_tenant, env_tenant, r),
        config.config_file.default.active_profile matches Some(a)
            && config.config_file.profiles@.dom().contains(a@),
    ensures
        r matches Ok(t) && t@ == config.config_file.profiles@[
            config.config_file.default.active_profile->0@
        ].tenant_id@,
{
}

/// When no existing profile is named, either on the command line or as the active
/// one, the tokens' tenant is used, else the environment's, else there is an error.
pub proof fn lemma_tenant_fallbacks(
    config: AppConfig,
    profile: Option<Seq<char>>,
    token_tenant: Option<String>,
    env_tenant: Option<String>,
    r: Result<String, XeroCliError>,
)
    requires
        resolves_tenant(config, profile, token_tenant, env_tenant, r),
        profile matches Some(p) ==> !config.config_file.profiles@.dom().contains(p),
        profile is None ==> (config.config_file.default.active_profile matches Some(a)
            ==> !config.config_file.profiles@.dom().contains(a@)),
    ensures
        token_tenant is Some ==> r == Ok::<String, XeroCliError>(token_tenant->0),
        token_tenant is None && env_tenant is Some ==> r == Ok::<String, XeroCliError>(
            env_tenant->0,
        ),
        token_tenant is None && env_tenant is None ==> r is Err,
{
}

/// Whether responses are cached: caching is enabled and not turned off for this run.
pub fn wants_cache(no_cache: bool, config: &AppConfig) -> (r: bool)
    ensures
        r == (!no_cache && config.config_file.cache.enabled),
{
    !no_cache && config.config_file.cache.enabled
}

/// Where cached responses are kept: the configured directory, else the default one.
pub fn cache_directory(config: &AppConfig) -> (r: Result<String, XeroCliError>)
    ensures
        match config.config_file.cache.directory {
            Some(d) => r matches Ok(p) && p@ == d@,
            None => match r {
                Ok(p) => exists|b: Seq<char>, s: Seq<char>| p@ == join_path(b, "xero-cli"@, s),
                Err(e) => e matches XeroCliError::Config { message }
                    && message@ == "Could not determine cache directory"@,
            },
        },
{
    match &config.config_file.cache.directory {
        Some(d) => Ok(d.clone()),
        None => default_cache_dir(),
    }
}

} // verus!
