//! From command-line settings to profiles and the HTTP client's settings.
use vstd::prelude::*;

use crate::application::ports::ProfilesStore;
use crate::application::profiles::{
    add_or_update_profile, attach_secret_backend, init_profile, list_profiles, remove_profile, use_profile,
    ProfileDraft, ProfileSecrets,
};
use crate::application::runtime::{ResolvedProfile, RuntimeConfig, RuntimeContext};
use crate::config::{opt_view, AuthKind};
use crate::error::{ConfluenceCliError, Result};
use crate::http::HttpApiConfig;
use crate::text::copy_str;

use super::args::{spec_auth_kind_of, ProfileArgs};

verus! {

/// The authentication kind a profile gets: the one given, else basic when an email is
/// given, else bearer when an API token is given.
pub open spec fn spec_auth_kind(args: ProfileArgs) -> Option<AuthKind> {
    match args.auth_type {
        Some(k) => Some(spec_auth_kind_of(k)),
        None => if args.email is Some {
            Some(AuthKind::Basic)
        } else if args.api_token is Some {
            Some(AuthKind::Bearer)
        } else {
            None
        },
    }
}

/// The profile the command line's settings describe, with the given domain.
pub open spec fn spec_profile_draft(args: ProfileArgs, existing_id: Option<String>, domain: String) -> ProfileDraft {
    ProfileDraft {
        id: existing_id,
        domain,
        protocol: args.protocol,
        api_path: args.api_path,
        auth_type: spec_auth_kind(args),
        email: args.email,
        username: args.username,
        read_only: Some(args.read_only),
        has_secrets: args.api_token is Some || args.password is Some,
    }
}

/// The secrets the command line gives.
pub open spec fn spec_profile_secrets(args: ProfileArgs) -> ProfileSecrets {
    ProfileSecrets { api_token: args.api_token, password: args.password }
}

/// A profile and its secrets from the command line: the domain is required; the
/// authentication kind is given or inferred; the profile records whether it has secrets.
pub fn profile_from_args(args: ProfileArgs, existing_id: Option<String>) -> (r: Result<
    (ProfileDraft, ProfileSecrets),
>)
    ensures
        args.domain is None ==> (r matches Err(ConfluenceCliError::Config(m)) && m@
            == "profile configuration requires --domain"@),
        args.domain matches Some(d) ==> (r matches Ok((p, s)) && p == spec_profile_draft(args, existing_id, d)
            && s == spec_profile_secrets(args)),
{
    let ghost a = args;
    let domain = match args.domain {
        Some(d) => d,
        None => {
            return Err(ConfluenceCliError::Config(copy_str("profile configuration requires --domain")));
        },
    };
    let auth_type: Option<AuthKind> = match args.auth_type {
        Some(k) => Some(AuthKind::from(k)),
        None => if args.email.is_some() {
            Some(AuthKind::Basic)
        } else if args.api_token.is_some() {
            Some(AuthKind::Bearer)
        } else {
            None
        },
    };
    let has_secret = args.api_token.is_some() || args.password.is_some();
    let secrets = ProfileSecrets { api_token: args.api_token, password: args.password };
    let mut profile = ProfileDraft {
        id: existing_id,
        domain,
        protocol: args.protocol,
        api_path: args.api_path,
        auth_type,
        email: args.email,
        username: args.username,
        read_only: Some(args.read_only),
        has_secrets: false,
    };
    attach_secret_backend(&mut profile, has_secret);
    Ok((profile, secrets))
}

/// The HTTP client's settings for a resolved profile.
pub fn http_api_config(profile: ResolvedProfile) -> (r: HttpApiConfig)
    ensures
        r.domain == profile.domain,
        r.protocol == profile.protocol,
        r.api_path == profile.api_path,
        r.auth_type == profile.auth_type,
        r.email == profile.email,
        r.username == profile.username,
        r.api_token == profile.api_token,
        r.password == profile.password,
{
    HttpApiConfig {
        domain: profile.domain,
        protocol: profile.protocol,
        api_path: profile.api_path,
        auth_type: profile.auth_type,
        email: profile.email,
        username: profile.username,
        api_token: profile.api_token,
        password: profile.password,
    }
}

fn copy_opt(o: &Option<String>) -> (r: Option<String>)
    ensures
        opt_view(r) == opt_view(*o),
{
    match o {
        Some(s) => Some(s.clone()),
        None => None,
    }
}

/// The HTTP client's settings for the runtime's resolved profile; a runtime without one
/// is refused.
pub fn runtime_api_config(runtime: &RuntimeContext) -> (r: Result<HttpApiConfig>)
    ensures
        runtime.runtime_config.resolved_profile is None ==> (r matches Err(ConfluenceCliError::Config(m))
            && m@ == "no active or selected profile"@),
        runtime.runtime_config.resolved_profile matches Some(p) ==> (r matches Ok(c) && c.domain@ == p.domain@
            && c.protocol@ == p.protocol@ && c.api_path@ == p.api_path@ && c.auth_type == p.auth_type
            && opt_view(c.email) == opt_view(p.email) && opt_view(c.username) == opt_view(p.username)
            && opt_view(c.api_token) == opt_view(p.api_token) && opt_view(c.password) == opt_view(p.password)),
{
    match &runtime.runtime_config.resolved_profile {
        Some(p) => Ok(
            HttpApiConfig {
                domain: p.domain.clone(),
                protocol: p.protocol.clone(),
                api_path: p.api_path.clone(),
                auth_type: p.auth_type,
                email: copy_opt(&p.email),
                username: copy_opt(&p.username),
                api_token: copy_opt(&p.api_token),
                password: copy_opt(&p.password),
            },
        ),
        None => Err(ConfluenceCliError::Config(copy_str("no active or selected profile"))),
    }
}

/// Creates the configuration with its first profile, from the command line's settings.
pub fn config_init_with_store<S: ProfilesStore>(store: &S, name: &str, profile_args: ProfileArgs) -> (r: Result<
    RuntimeConfig,
>)
    ensures
        profile_args.domain is None ==> (r matches Err(ConfluenceCliError::Config(m)) && m@
            == "profile configuration requires --domain"@),
        profile_args.domain matches Some(d) ==> store.init_profile_post(
            name@,
            spec_profile_draft(profile_args, None, d),
            spec_profile_secrets(profile_args),
            r,
        ),
{
    let (profile, secrets) = profile_from_args(profile_args, None)?;
    init_profile(store, name, profile, &secrets)
}

/// Adds or updates a profile from the command line's settings, activating it when asked.
pub fn profile_add_with_store<S: ProfilesStore>(
    store: &S,
    name: &str,
    profile_args: ProfileArgs,
    activate: bool,
) -> (r: Result<RuntimeConfig>)
    ensures
        profile_args.domain is None ==> (r matches Err(ConfluenceCliError::Config(m)) && m@
            == "profile configuration requires --domain"@),
        profile_args.domain matches Some(d) ==> store.add_or_update_profile_post(
            name@,
            spec_profile_draft(profile_args, None, d),
            spec_profile_secrets(profile_args),
            activate,
            r,
        ),
{
    let (profile, secrets) = profile_from_args(profile_args, None)?;
    add_or_update_profile(store, name, profile, &secrets, activate)
}

/// Makes a profile the active one.
pub fn profile_use<S: ProfilesStore>(store: &S, name: &str) -> (r: Result<RuntimeConfig>)
    ensures
        store.use_profile_post(name@, r),
{
    use_profile(store, name)
}

/// Removes a profile.
pub fn profile_remove_with_store<S: ProfilesStore>(store: &S, name: &str) -> (r: Result<RuntimeConfig>)
    ensures
        store.remove_profile_post(name@, r),
{
    remove_profile(store, name)
}

/// The configured profiles.
pub fn profile_list<S: ProfilesStore>(store: &S) -> (r: Result<RuntimeConfig>)
    ensures
        store.list_profiles_post(r),
{
    list_profiles(store)
}

} // verus!
