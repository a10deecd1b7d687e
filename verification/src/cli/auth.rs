//! Signing in and the OAuth scopes the client asks for.

use vstd::prelude::*;
use vstd::string::*;
use crate::config::profiles::{preset_scopes, scope_preset};
use crate::text::{contains_text, copy_strings, split_on, split_text, trim, trim_text, views};

verus! {

/// Signing in, signing out, and the scopes asked for.
pub enum AuthCommands {
    /// Interactive PKCE login
    Login {
        port: u16,
        scopes: Option<String>,
    },
    /// Show current auth status
    Status,
    /// Force token refresh
    Refresh,
    /// Clear stored tokens
    Logout,
    /// Configure client credentials (M2M)
    SetupM2m {
        client_id: String,
        client_secret: String,
    },
    /// Manage OAuth scopes
    Scopes {
        command: Option<ScopeCommands>,
    },
}

/// Changes to the configured OAuth scopes.
pub enum ScopeCommands {
    /// Add a scope
    Add {
        scope: String,
    },
    /// Apply a scope preset
    Preset {
        name: String,
    },
}

/// The client id to sign in with: the one from the environment, which overrides
/// the configuration file, else the configured one.
pub fn login_client_id(configured: &Option<String>, env: Option<String>) -> (r: Option<String>)
    ensures
        match env {
            Some(e) => r == Some(e),
            None => match configured {
                Some(c) => r matches Some(x) && x@ == c@,
                None => r is None,
            },
        },
{
    match env {
        Some(e) => Some(e),
        None => match configured {
            Some(c) => Some(c.clone()),
            None => None,
        },
    }
}

/// The scopes named in a comma-separated list, each trimmed.
pub open spec fn scope_list(s: Seq<char>) -> Seq<Seq<char>> {
    split_on(s, ',').map_values(|p: Seq<char>| trim(p))
}

/// The scopes named in a comma-separated list, each trimmed.
pub fn parse_scope_list(s: &str) -> (r: Vec<String>)
    ensures
        views(r@) == scope_list(s@),
{
    let parts = split_text(s, ',');
    let mut r: Vec<String> = Vec::new();
    let mut i: usize = 0;
    while i < parts.len()
        invariant
            i <= parts@.len(),
            views(parts@) == split_on(s@, ','),
            views(r@) == views(parts@).take(i as int).map_values(|p: Seq<char>| trim(p)),
        decreases parts@.len() - i,
    {
        let ghost before = r@;
        r.push(trim_text(parts[i].as_str()));
        assert(views(r@) =~= views(before).push(trim(parts@[i as int]@)));
        assert(views(parts@).take(i + 1) =~= views(parts@).take(i as int).push(parts@[i as int]@));
        assert(views(r@) =~= views(parts@).take(i + 1).map_values(|p: Seq<char>| trim(p)));
        i = i + 1;
    }
    assert(views(parts@).take(parts@.len() as int) =~= views(parts@));
    r
}

/// The scopes a login asks for: those given on the command line, else the
/// configured ones.
pub fn requested_scopes(given: &Option<String>, configured: &Vec<String>) -> (r: Vec<String>)
    ensures
        views(r@) == match given {
            Some(s) => scope_list(s@),
            None => views(configured@),
        },
{
    match given {
        Some(s) => parse_scope_list(s.as_str()),
        None => copy_strings(configured),
    }
}

/// The scope list after adding `scope`: unchanged when it is already there,
/// else with `scope` appended.
pub open spec fn with_scope(scopes: Seq<Seq<char>>, scope: Seq<char>) -> Seq<Seq<char>> {
    if scopes.contains(scope) {
        scopes
    } else {
        scopes.push(scope)
    }
}

/// Adds `scope` to the configured scopes unless it is already there; tells
/// whether it was added.
pub fn add_scope(scopes: &mut Vec<String>, scope: String) -> (added: bool)
    ensures
        views(final(scopes)@) == with_scope(views(old(scopes)@), scope@),
        added == !views(old(scopes)@).contains(scope@),
{
    if contains_text(scopes, scope.as_str()) {
        false
    } else {
        let ghost before = scopes@;
        let ghost sv = scope@;
        scopes.push(scope);
        assert(views(scopes@) =~= views(before).push(sv));
        true
    }
}

/// Adding a scope that was just added changes nothing, and after adding a scope
/// the list holds it.
pub proof fn lemma_add_scope_idempotent(scopes: Seq<Seq<char>>, scope: Seq<char>)
    ensures
        with_scope(with_scope(scopes, scope), scope) == with_scope(scopes, scope),
        with_scope(scopes, scope).contains(scope),
{
    if !scopes.contains(scope) {
        assert(scopes.push(scope)[scopes.len() as int] == scope);
    }
}

/// The message for a preset name that is none of the presets.
pub open spec fn unknown_preset_message(name: Seq<char>) -> Seq<char> {
    "Unknown preset: "@ + name
        + ". Available: read-only, bookkeeper, full-access, reports-only"@
}

/// Replaces the configured scopes by those of the preset called `name`; an
/// unknown name is an error and leaves the scopes as they were.
pub fn apply_scope_preset(scopes: &mut Vec<String>, name: &str) -> (r: Result<(), String>)
    ensures
        match preset_scopes(name@) {
            Some(p) => r is Ok && views(final(scopes)@) == p,
            None => r matches Err(m) && m@ == unknown_preset_message(name@) && final(scopes)@
                == old(scopes)@,
        },
{
    match scope_preset(name) {
        Some(v) => {
            *scopes = v;
            Ok(())
        },
        None => {
            let m = String::from_str("Unknown preset: ").concat(name).concat(
                ". Available: read-only, bookkeeper, full-access, reports-only",
            );
            proof {
                reveal_strlit("Unknown preset: ");
                reveal_strlit(". Available: read-only, bookkeeper, full-access, reports-only");
            }
            Err(m)
        },
    }
}

} // verus!
