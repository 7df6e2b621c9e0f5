//! Choosing and resolving the profile a command runs with, from the configuration file,
//! the command line and the environment. Reading the file and the environment is the
//! host's work; this module decides what they mean.
use vstd::prelude::*;

use crate::application::runtime::{
    into_runtime_config, profile_names, ResolvedProfile, RuntimeConfig, RuntimeConfigState,
};
use crate::cli::prompt::{ascii_lowercase, spec_ascii_lowercase};
use crate::config::{
    opt_view, resolve_profile_state, spec_pick, spec_resolved_profile, AuthKind, ConfigFile, Profile,
    ProfileOverrides,
};
use crate::error::{ConfluenceCliError, Result};
use crate::profile_manager::{
    profile_position, spec_config_wf, spec_has_profile, spec_missing_profile, spec_named,
};
use crate::text::{copy_str, str_eq, strings_view};

verus! {

/// The authentication kind `CONFLUENCE_AUTH_TYPE` names, ignoring ASCII case.
pub open spec fn spec_env_auth_type(value: Seq<char>) -> Option<AuthKind> {
    let v = spec_ascii_lowercase(value);
    if v == "basic"@ {
        Some(AuthKind::Basic)
    } else if v == "bearer"@ {
        Some(AuthKind::Bearer)
    } else if v == "mtls"@ {
        Some(AuthKind::Mtls)
    } else {
        None
    }
}

/// Reads `CONFLUENCE_AUTH_TYPE`; another value is refused.
pub fn auth_type_from_env(value: &str) -> (r: Result<AuthKind>)
    ensures
        match spec_env_auth_type(value@) {
            Some(k) => r == Ok::<AuthKind, ConfluenceCliError>(k),
            None => r matches Err(ConfluenceCliError::Config(m)) && m@
                == "unsupported CONFLUENCE_AUTH_TYPE: "@ + spec_ascii_lowercase(value@),
        },
{
    let v = ascii_lowercase(value);
    if str_eq(v.as_str(), "basic") {
        Ok(AuthKind::Basic)
    } else if str_eq(v.as_str(), "bearer") {
        Ok(AuthKind::Bearer)
    } else if str_eq(v.as_str(), "mtls") {
        Ok(AuthKind::Mtls)
    } else {
        let mut m = copy_str("unsupported CONFLUENCE_AUTH_TYPE: ");
        m.append(v.as_str());
        Err(ConfluenceCliError::Config(m))
    }
}

/// Whether `CONFLUENCE_READ_ONLY` asks for read-only access: `1`, `true`, `yes` or `y`,
/// ignoring ASCII case.
pub open spec fn spec_env_read_only(value: Seq<char>) -> bool {
    let v = spec_ascii_lowercase(value);
    v == "1"@ || v == "true"@ || v == "yes"@ || v == "y"@
}

/// Reads `CONFLUENCE_READ_ONLY`.
pub fn read_only_from_env(value: &str) -> (r: bool)
    ensures
        r == spec_env_read_only(value@),
{
    let v = ascii_lowercase(value);
    let s = v.as_str();
    str_eq(s, "1") || str_eq(s, "true") || str_eq(s, "yes") || str_eq(s, "y")
}

/// A profile with no setting.
pub open spec fn spec_empty_profile() -> Profile {
    Profile {
        id: None,
        domain: None,
        protocol: None,
        api_path: None,
        auth_type: None,
        email: None,
        username: None,
        api_token: None,
        password: None,
        read_only: None,
        secret_backend: None,
    }
}

/// The stored settings of the profile named `name`: the file's, or none when the file
/// does not have it.
pub open spec fn spec_stored_profile(config: ConfigFile, name: Seq<char>) -> Profile {
    if spec_has_profile(config, name) {
        config.profiles@[choose|i: int| #[trigger] spec_named(config.profiles@, i, name)].1
    } else {
        spec_empty_profile()
    }
}

fn copy_opt(o: &Option<String>) -> (r: Option<String>)
    ensures
        r == *o,
{
    match o {
        Some(s) => Some(s.clone()),
        None => None,
    }
}

fn copy_profile(p: &Profile) -> (r: Profile)
    ensures
        r == *p,
{
    Profile {
        id: copy_opt(&p.id),
        domain: copy_opt(&p.domain),
        protocol: copy_opt(&p.protocol),
        api_path: copy_opt(&p.api_path),
        auth_type: p.auth_type,
        email: copy_opt(&p.email),
        username: copy_opt(&p.username),
        api_token: copy_opt(&p.api_token),
        password: copy_opt(&p.password),
        read_only: p.read_only,
        secret_backend: p.secret_backend,
    }
}

/// The runtime's listing of the file's profiles, with the resolved profile.
pub open spec fn spec_runtime_of(config: ConfigFile, resolved: Option<ResolvedProfile>, rc: RuntimeConfig) -> bool {
    &&& rc.profiles.active_profile == config.active_profile
    &&& strings_view(rc.profiles.profiles@) == profile_names(config)
    &&& rc.resolved_profile == resolved
}

/// Loads the runtime a command runs with. The profile is the one the command line
/// names, else the one `CONFLUENCE_PROFILE` names, else the file's active one; a named
/// profile the file does not have is refused, an active one it does not have resolves
/// from no settings. The environment's overrides are read only when a profile is
/// resolved.
pub fn load_runtime(
    config_path: String,
    config: ConfigFile,
    profile: Option<String>,
    env_profile: Option<String>,
    overrides: Result<ProfileOverrides>,
) -> (r: Result<RuntimeConfig>)
    requires
        spec_config_wf(config),
    ensures
        ({
            let selected = spec_pick(opt_view(profile), opt_view(env_profile));
            match spec_pick(selected, opt_view(config.active_profile)) {
                None => r matches Ok(rc) && spec_runtime_of(config, None, rc),
                Some(n) => if selected is Some && !spec_has_profile(config, n) {
                    r matches Err(ConfluenceCliError::Config(m)) && m@ == spec_missing_profile(n)
                } else {
                    match overrides {
                        Err(e) => r == Err::<RuntimeConfig, ConfluenceCliError>(e),
                        Ok(o) => exists|res: Result<ResolvedProfile>|
                            #[trigger] spec_resolved_profile(selected, n, spec_stored_profile(config, n), Some(o), res)
                                && match res {
                                Err(e) => r == Err::<RuntimeConfig, ConfluenceCliError>(e),
                                Ok(p) => r matches Ok(rc) && spec_runtime_of(config, Some(p), rc),
                            },
                    }
                }
            }
        }),
{
    let selected = match profile {
        Some(p) => Some(p),
        None => env_profile,
    };
    let name = match &selected {
        Some(s) => Some(s.clone()),
        None => copy_opt(&config.active_profile),
    };
    let resolved = match name {
        None => None,
        Some(n) => {
            let stored = match profile_position(&config, n.as_str()) {
                Some(i) => {
                    let p = copy_profile(&config.profiles[i].1);
                    proof {
                        let c = choose|j: int| #[trigger] spec_named(config.profiles@, j, n@);
                        if c != i {
                            if c < i {
                                assert(config.profiles@[c].0@ != config.profiles@[i as int].0@);
                            } else {
                                assert(config.profiles@[i as int].0@ != config.profiles@[c].0@);
                            }
                        }
                    }
                    p
                },
                None => {
                    if selected.is_some() {
                        let mut m = copy_str("profile '");
                        m.append(n.as_str());
                        m.append("' does not exist");
                        return Err(ConfluenceCliError::Config(m));
                    }
                    Profile {
                        id: None,
                        domain: None,
                        protocol: None,
                        api_path: None,
                        auth_type: None,
                        email: None,
                        username: None,
                        api_token: None,
                        password: None,
                        read_only: None,
                        secret_backend: None,
                    }
                },
            };
            let o = match overrides {
                Ok(o) => o,
                Err(e) => {
                    return Err(e);
                },
            };
            let res = resolve_profile_state(selected, n.as_str(), stored, Some(o));
            match res {
                Ok(p) => Some(p),
                Err(e) => {
                    return Err(e);
                },
            }
        },
    };
    let state = RuntimeConfigState { config_path, config, resolved_profile: resolved, migration: None };
    Ok(into_runtime_config(state))
}

} // verus!
