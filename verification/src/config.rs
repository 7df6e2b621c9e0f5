//! Profiles as stored in the configuration file, and their resolution into the settings
//! a session runs with.
use vstd::prelude::*;

use crate::application::runtime::ResolvedProfile;
use crate::error::{ConfluenceCliError, Result};
use crate::text::{copy_str, spec_ends_with, str_ends_with};

verus! {

/// How requests are authenticated.
#[derive(Debug, Clone, Copy, PartialEq, Eq, Structural)]
pub enum AuthKind {
    Basic,
    Bearer,
    Mtls,
}

/// Where a profile's secrets are kept.
#[derive(Debug, Clone, Copy, PartialEq, Eq, Structural)]
pub enum SecretBackend {
    Keyring,
}

/// The secret store named in the configuration file.
#[derive(Debug, Clone, Copy, PartialEq, Eq, Structural)]
pub enum ConfigSecretBackend {
    Keyring,
}

/// A profile as the configuration file holds it; every setting optional.
#[derive(Debug, Clone, PartialEq, Eq, Default)]
pub struct Profile {
    pub id: Option<String>,
    pub domain: Option<String>,
    pub protocol: Option<String>,
    pub api_path: Option<String>,
    pub auth_type: Option<AuthKind>,
    pub email: Option<String>,
    pub username: Option<String>,
    pub api_token: Option<String>,
    pub password: Option<String>,
    pub read_only: Option<bool>,
    pub secret_backend: Option<ConfigSecretBackend>,
}

/// The configuration file: the active profile's name and the named profiles, each name
/// once.
#[derive(Debug, Clone, PartialEq, Eq, Default)]
pub struct ConfigFile {
    pub active_profile: Option<String>,
    pub profiles: Vec<(String, Profile)>,
}

/// Settings given through the environment, each replacing the profile's own.
#[derive(Debug, Clone, PartialEq, Eq, Default)]
pub struct ProfileOverrides {
    pub domain: Option<String>,
    pub protocol: Option<String>,
    pub api_path: Option<String>,
    pub auth_type: Option<AuthKind>,
    pub email: Option<String>,
    pub username: Option<String>,
    pub api_token: Option<String>,
    pub password: Option<String>,
    pub read_only: Option<bool>,
}

/// The view of an optional string.
pub open spec fn opt_view(o: Option<String>) -> Option<Seq<char>> {
    match o {
        Some(s) => Some(s@),
        None => None,
    }
}

/// An override if given, else the profile's value.
pub open spec fn spec_pick(over: Option<Seq<char>>, own: Option<Seq<char>>) -> Option<Seq<char>> {
    match over {
        Some(v) => Some(v),
        None => own,
    }
}

/// The API path used when none is configured: Atlassian Cloud sites serve the API under
/// `/wiki/rest/api`, other servers under `/rest/api`.
pub open spec fn spec_default_api_path(domain: Seq<char>) -> Seq<char> {
    if spec_ends_with(domain, ".atlassian.net"@) {
        "/wiki/rest/api"@
    } else {
        "/rest/api"@
    }
}

/// The complaint about credentials the authentication kind cannot use, if any.
pub open spec fn spec_credentials_error(
    auth: AuthKind,
    email: Option<Seq<char>>,
    username: Option<Seq<char>>,
    api_token: Option<Seq<char>>,
    password: Option<Seq<char>>,
) -> Option<Seq<char>> {
    match auth {
        AuthKind::Basic => if email is None && username is None {
            Some("basic auth requires an email or username"@)
        } else if api_token is None && password is None {
            Some("basic auth requires an api token or password"@)
        } else {
            None
        },
        AuthKind::Bearer => if api_token is None {
            Some("bearer auth requires an api token"@)
        } else {
            None
        },
        AuthKind::Mtls => None,
    }
}

fn pick(over: Option<String>, own: Option<String>) -> (r: Option<String>)
    ensures
        opt_view(r) == spec_pick(opt_view(over), opt_view(own)),
{
    match over {
        Some(v) => Some(v),
        None => own,
    }
}

/// A possible outcome of resolving the stored profile `name`, selected by `selected` if
/// given, with the environment's overrides: refused without a domain or with
/// credentials the authentication kind cannot use; else every setting taken from the
/// overrides, then the profile, then the defaults.
pub open spec fn spec_resolved_profile(
    selected: Option<Seq<char>>,
    name: Seq<char>,
    profile: Profile,
    overrides: Option<ProfileOverrides>,
    r: Result<ResolvedProfile>,
) -> bool {
    let o = match overrides {
        Some(o) => o,
        None => ProfileOverrides {
            domain: None,
            protocol: None,
            api_path: None,
            auth_type: None,
            email: None,
            username: None,
            api_token: None,
            password: None,
            read_only: None,
        },
    };
    let domain = spec_pick(opt_view(o.domain), opt_view(profile.domain));
    let auth = match o.auth_type {
        Some(a) => a,
        None => match profile.auth_type {
            Some(a) => a,
            None => AuthKind::Basic,
        },
    };
    let email = spec_pick(opt_view(o.email), opt_view(profile.email));
    let username = spec_pick(opt_view(o.username), opt_view(profile.username));
    let api_token = spec_pick(opt_view(o.api_token), opt_view(profile.api_token));
    let password = spec_pick(opt_view(o.password), opt_view(profile.password));
    match domain {
        None => r matches Err(ConfluenceCliError::Config(m)) && m@ == "profile has no domain configured"@,
        Some(d) => if let Some(msg) = spec_credentials_error(auth, email, username, api_token, password) {
            r matches Err(ConfluenceCliError::Config(m)) && m@ == msg
        } else {
            r matches Ok(p) && p.domain@ == d && p.auth_type == auth && opt_view(p.email)
                == email && opt_view(p.username) == username && opt_view(p.api_token)
                == api_token && opt_view(p.password) == password && p.protocol@ == match spec_pick(
                opt_view(o.protocol),
                opt_view(profile.protocol),
            ) {
                Some(v) => v,
                None => "https"@,
            } && p.api_path@ == match spec_pick(opt_view(o.api_path), opt_view(profile.api_path)) {
                Some(v) => v,
                None => spec_default_api_path(d),
            } && p.read_only == match o.read_only {
                Some(b) => b,
                None => match profile.read_only {
                    Some(b) => b,
                    None => false,
                },
            } && p.id@ == match profile.id {
                Some(i) => i@,
                None => name,
            } && p.secret_backend == match profile.secret_backend {
                Some(ConfigSecretBackend::Keyring) => Some(SecretBackend::Keyring),
                None => None::<SecretBackend>,
            } && opt_view(p.name) == Some(
                match selected {
                    Some(s) => s,
                    None => name,
                },
            )
        }
    }
}

/// Resolves a stored profile with the environment's overrides into the settings a
/// session runs with. The defaults are protocol `https`, the API path for the domain,
/// basic authentication and read-write access.
pub fn resolve_profile_state(
    selected: Option<String>,
    name: &str,
    profile: Profile,
    overrides: Option<ProfileOverrides>,
) -> (r: Result<ResolvedProfile>)
    ensures
        spec_resolved_profile(opt_view(selected), name@, profile, overrides, r),
{
    let o = match overrides {
        Some(o) => o,
        None => ProfileOverrides {
            domain: None,
            protocol: None,
            api_path: None,
            auth_type: None,
            email: None,
            username: None,
            api_token: None,
            password: None,
            read_only: None,
        },
    };
    let domain = match pick(o.domain, profile.domain) {
        Some(d) => d,
        None => {
            return Err(ConfluenceCliError::Config(copy_str("profile has no domain configured")));
        },
    };
    let auth_type = match o.auth_type {
        Some(a) => a,
        None => match profile.auth_type {
            Some(a) => a,
            None => AuthKind::Basic,
        },
    };
    let email = pick(o.email, profile.email);
    let username = pick(o.username, profile.username);
    let api_token = pick(o.api_token, profile.api_token);
    let password = pick(o.password, profile.password);
    match auth_type {
        AuthKind::Basic => {
            if email.is_none() && username.is_none() {
                return Err(
                    ConfluenceCliError::Config(copy_str("basic auth requires an email or username")),
                );
            }
            if api_token.is_none() && password.is_none() {
                return Err(
                    ConfluenceCliError::Config(copy_str("basic auth requires an api token or password")),
                );
            }
        },
        AuthKind::Bearer => {
            if api_token.is_none() {
                return Err(ConfluenceCliError::Config(copy_str("bearer auth requires an api token")));
            }
        },
        AuthKind::Mtls => {},
    }
    let protocol = match pick(o.protocol, profile.protocol) {
        Some(p) => p,
        None => copy_str("https"),
    };
    let api_path = match pick(o.api_path, profile.api_path) {
        Some(p) => p,
        None => if str_ends_with(domain.as_str(), ".atlassian.net") {
            copy_str("/wiki/rest/api")
        } else {
            copy_str("/rest/api")
        },
    };
    let read_only = match o.read_only {
        Some(b) => b,
        None => match profile.read_only {
            Some(b) => b,
            None => false,
        },
    };
    let resolved_name = match selected {
        Some(s) => s,
        None => copy_str(name),
    };
    let id = match profile.id {
        Some(id) => id,
        None => copy_str(name),
    };
    Ok(ResolvedProfile {
        id,
        name: Some(resolved_name),
        domain,
        protocol,
        api_path,
        auth_type,
        email,
        username,
        api_token,
        password,
        read_only,
        secret_backend: match profile.secret_backend {
            Some(ConfigSecretBackend::Keyring) => Some(SecretBackend::Keyring),
            None => None,
        },
    })
}

} // verus!
