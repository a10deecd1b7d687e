//! The sections of the configuration file and their default values.

use vstd::prelude::*;
use vstd::string::*;
use crate::config::profiles::{Profile, ProfileMap};
use crate::text::{strings, views};

verus! {

/// Everything the configuration file holds. A section missing from the file
/// takes its default values.
pub struct ConfigFile {
    pub default: DefaultSection,
    pub auth: AuthSection,
    pub cache: CacheSection,
    pub rate_limit: RateLimitSection,
    pub profiles: ProfileMap,
}

/// The `[default]` section.
pub struct DefaultSection {
    pub active_profile: Option<String>,
    pub output_format: String,
    pub page_size: u32,
}

/// The `[auth]` section.
pub struct AuthSection {
    pub client_id: Option<String>,
    pub callback_port: u16,
    pub scopes: Vec<String>,
}

/// The `[cache]` section.
pub struct CacheSection {
    pub enabled: bool,
    pub ttl_secs: u64,
    pub list_ttl_secs: u64,
    pub get_ttl_secs: u64,
    pub max_size_mb: u64,
    pub directory: Option<String>,
}

/// The `[rate_limit]` section.
pub struct RateLimitSection {
    pub calls_per_minute: u32,
    pub daily_limit: u64,
    pub max_concurrent: u32,
}

/// The scopes requested when the configuration names none.
pub open spec fn default_scope_list() -> Seq<Seq<char>> {
    seq![
        "openid"@,
        "offline_access"@,
        "accounting.invoices.read"@,
        "accounting.payments.read"@,
        "accounting.banktransactions.read"@,
        "accounting.contacts.read"@,
        "accounting.settings.read"@,
        "accounting.reports.profitandloss.read"@,
        "accounting.reports.balancesheet.read"@,
    ]
}

impl DefaultSection {
    /// Whether every field holds its default.
    pub open spec fn is_default(&self) -> bool {
        &&& self.active_profile is None
        &&& self.output_format@ == "table"@
        &&& self.page_size == 100
    }
}

impl AuthSection {
    /// Whether every field holds its default.
    pub open spec fn is_default(&self) -> bool {
        &&& self.client_id is None
        &&& self.callback_port == 8080
        &&& views(self.scopes@) == default_scope_list()
    }
}

impl CacheSection {
    /// Whether every field holds its default.
    pub open spec fn is_default(&self) -> bool {
        &&& self.enabled
        &&& self.ttl_secs == 300
        &&& self.list_ttl_secs == 300
        &&& self.get_ttl_secs == 900
        &&& self.max_size_mb == 50
        &&& self.directory is None
    }
}

impl RateLimitSection {
    /// Whether every field holds its default.
    pub open spec fn is_default(&self) -> bool {
        &&& self.calls_per_minute == 60
        &&& self.daily_limit == 5000
        &&& self.max_concurrent == 5
    }
}

impl ConfigFile {
    /// Whether every section holds its defaults and there are no profiles.
    pub open spec fn is_default(&self) -> bool {
        &&& self.default.is_default()
        &&& self.auth.is_default()
        &&& self.cache.is_default()
        &&& self.rate_limit.is_default()
        &&& self.profiles@ == Map::<Seq<char>, Profile>::empty()
    }
}

impl Default for DefaultSection {
    fn default() -> (r: Self)
        ensures
            r.is_default(),
    {
        DefaultSection {
            active_profile: None,
            output_format: default_output_format(),
            page_size: default_page_size(),
        }
    }
}

impl Default for AuthSection {
    fn default() -> (r: Self)
        ensures
            r.is_default(),
    {
        AuthSection {
            client_id: None,
            callback_port: default_callback_port(),
            scopes: default_scopes(),
        }
    }
}

impl Default for CacheSection {
    fn default() -> (r: Self)
        ensures
            r.is_default(),
    {
        CacheSection {
            enabled: default_cache_enabled(),
            ttl_secs: default_cache_ttl_secs(),
            list_ttl_secs: default_cache_list_ttl(),
            get_ttl_secs: default_cache_get_ttl(),
            max_size_mb: default_cache_max_size_mb(),
            directory: None,
        }
    }
}

impl Default for RateLimitSection {
    fn default() -> (r: Self)
        ensures
            r.is_default(),
    {
        RateLimitSection {
            calls_per_minute: default_calls_per_minute(),
            daily_limit: default_daily_limit(),
            max_concurrent: default_max_concurrent(),
        }
    }
}

impl Default for ConfigFile {
    fn default() -> (r: Self)
        ensures
            r.is_default(),
    {
        ConfigFile {
            default: DefaultSection::default(),
            auth: AuthSection::default(),
            cache: CacheSection::default(),
            rate_limit: RateLimitSection::default(),
            profiles: ProfileMap::new(),
        }
    }
}

/// The output format used when none is configured: `table`.
pub fn default_output_format() -> (r: String)
    ensures
        r@ == "table"@,
{
    String::from_str("table")
}

/// The page size used when none is configured.
pub fn default_page_size() -> (r: u32)
    ensures
        r == 100,
{
    100
}

/// The local port for the login callback when none is configured.
pub fn default_callback_port() -> (r: u16)
    ensures
        r == 8080,
{
    8080
}

/// The scopes requested when none are configured.
pub fn default_scopes() -> (r: Vec<String>)
    ensures
        views(r@) == default_scope_list(),
{
    let r = strings(
        &[
            "openid",
            "offline_access",
            "accounting.invoices.read",
            "accounting.payments.read",
            "accounting.banktransactions.read",
            "accounting.contacts.read",
            "accounting.settings.read",
            "accounting.reports.profitandloss.read",
            "accounting.reports.balancesheet.read",
        ],
    );
    assert(views(r@) =~= default_scope_list());
    r
}

/// Whether responses are cached when nothing is configured.
pub fn default_cache_enabled() -> (r: bool)
    ensures
        r,
{
    true
}

/// The general cache lifetime in seconds when none is configured.
pub fn default_cache_ttl_secs() -> (r: u64)
    ensures
        r == 300,
{
    300
}

/// The lifetime of cached list responses in seconds when none is configured.
pub fn default_cache_list_ttl() -> (r: u64)
    ensures
        r == 300,
{
    300
}

/// The lifetime of cached single-record responses in seconds when none is configured.
pub fn default_cache_get_ttl() -> (r: u64)
    ensures
        r == 900,
{
    900
}

/// The cache size limit in megabytes when none is configured.
pub fn default_cache_max_size_mb() -> (r: u64)
    ensures
        r == 50,
{
    50
}

/// The API calls allowed per minute when nothing is configured.
pub fn default_calls_per_minute() -> (r: u32)
    ensures
        r == 60,
{
    60
}

/// The API calls allowed per day when nothing is configured.
pub fn default_daily_limit() -> (r: u64)
    ensures
        r == 5000,
{
    5000
}

/// The concurrent API calls allowed when nothing is configured.
pub fn default_max_concurrent() -> (r: u32)
    ensures
        r == 5,
{
    5
}

} // verus!
