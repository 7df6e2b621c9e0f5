//! The resolved settings a session runs with.
use vstd::prelude::*;

use crate::config::{AuthKind, ConfigFile, Profile, SecretBackend};
use crate::error::{ConfluenceCliError, Result};
use crate::profile_manager::spec_config_wf;
use crate::text::{copy_str, strings_view};

verus! {

/// A loaded configuration with its resolved profile.
#[derive(Debug, Clone, PartialEq, Eq)]
pub struct RuntimeConfigState {
    pub config_path: String,
    pub config: ConfigFile,
    pub resolved_profile: Option<ResolvedProfile>,
    pub migration: Option<ConfigMigration>,
}

/// What a command runs with.
#[derive(Debug, Clone)]
pub struct RuntimeContext {
    pub runtime_config: RuntimeConfig,
}

/// A profile with every setting decided.
#[derive(Debug, Clone, PartialEq, Eq)]
pub struct ResolvedProfile {
    pub id: String,
    pub name: Option<String>,
    pub domain: String,
    pub protocol: String,
    pub api_path: String,
    pub auth_type: AuthKind,
    pub email: Option<String>,
    pub username: Option<String>,
    pub api_token: Option<String>,
    pub password: Option<String>,
    pub read_only: bool,
    pub secret_backend: Option<SecretBackend>,
}

/// Which configuration file and profile to resolve.
#[derive(Debug, Clone, PartialEq, Eq)]
pub struct ResolveOptions {
    pub config_path: Option<String>,
    pub profile: Option<String>,
}

impl ResolveOptions {
    pub fn new(config_path: Option<String>, profile: Option<String>) -> (r: Self)
        ensures
            r.config_path == config_path,
            r.profile == profile,
    {
        ResolveOptions { config_path, profile }
    }
}

/// The profiles known and the one resolved.
#[derive(Debug, Clone, PartialEq, Eq)]
pub struct RuntimeConfig {
    pub profiles: RuntimeProfiles,
    pub resolved_profile: Option<ResolvedProfile>,
}

/// The names of the configured profiles and the active one.
#[derive(Debug, Clone, PartialEq, Eq)]
pub struct RuntimeProfiles {
    pub active_profile: Option<String>,
    pub profiles: Vec<String>,
}

/// Profiles rewritten while loading (secrets moved to the secret store).
#[derive(Debug, Clone, PartialEq, Eq, Default)]
pub struct ConfigMigration {
    pub updated_profiles: Vec<(String, Profile)>,
}

impl ConfigMigration {
    pub fn is_empty(&self) -> (r: bool)
        ensures
            r == (self.updated_profiles@.len() == 0),
    {
        self.updated_profiles.len() == 0
    }
}

/// The names of the configured profiles, in the file's order.
pub open spec fn profile_names(config: ConfigFile) -> Seq<Seq<char>> {
    config.profiles@.map_values(|e: (String, Profile)| e.0@)
}

/// The profiles' names and the resolved profile of a loaded configuration.
pub fn into_runtime_config(state: RuntimeConfigState) -> (r: RuntimeConfig)
    ensures
        r.profiles.active_profile == state.config.active_profile,
        strings_view(r.profiles.profiles@) == profile_names(state.config),
        r.resolved_profile == state.resolved_profile,
        spec_config_wf(state.config) ==> forall|i: int, j: int|
            0 <= i < j < r.profiles.profiles@.len() ==> (#[trigger] r.profiles.profiles@[i])@
                != (#[trigger] r.profiles.profiles@[j])@,
{
    let mut names: Vec<String> = Vec::new();
    let entries = &state.config.profiles;
    let mut i: usize = 0;
    while i < entries.len()
        invariant
            i <= entries.len(),
            entries@ == state.config.profiles@,
            strings_view(names@) == profile_names(state.config).take(i as int),
        decreases entries.len() - i,
    {
        let ghost prev = strings_view(names@);
        names.push(entries[i].0.clone());
        assert(strings_view(names@) == prev.push(entries@[i as int].0@));
        assert(strings_view(names@) == profile_names(state.config).take(i + 1));
        i = i + 1;
    }
    assert(profile_names(state.config).take(entries.len() as int) == profile_names(state.config));
    assert forall|a: int, b: int|
        0 <= a < b < names@.len() && (forall|i: int, j: int|
            0 <= i < j < state.config.profiles@.len() ==> (#[trigger] state.config.profiles@[i]).0@
                != (#[trigger] state.config.profiles@[j]).0@) implies names@[a]@ != names@[b]@ by {
        assert(strings_view(names@)[a] == names@[a]@);
        assert(strings_view(names@)[b] == names@[b]@);
        assert(profile_names(state.config)[a] == state.config.profiles@[a].0@);
        assert(profile_names(state.config)[b] == state.config.profiles@[b].0@);
        assert(state.config.profiles@[a].0@ != state.config.profiles@[b].0@);
    }
    RuntimeConfig {
        profiles: RuntimeProfiles { active_profile: state.config.active_profile, profiles: names },
        resolved_profile: state.resolved_profile,
    }
}

/// Whether the runtime's profile forbids changes.
pub open spec fn spec_is_read_only(runtime: RuntimeContext) -> bool {
    runtime.runtime_config.resolved_profile matches Some(p) && p.read_only
}

/// Refuses a mutating command when the active profile is read-only.
pub fn ensure_writable(runtime: &RuntimeContext) -> (r: Result<()>)
    ensures
        spec_is_read_only(*runtime) ==> (r matches Err(ConfluenceCliError::Config(m)) && m@
            == "active profile is read-only; this command would mutate Confluence"@),
        !spec_is_read_only(*runtime) ==> r is Ok,
{
    match &runtime.runtime_config.resolved_profile {
        Some(profile) => {
            if profile.read_only {
                return Err(
                    ConfluenceCliError::Config(
                        copy_str("active profile is read-only; this command would mutate Confluence"),
                    ),
                );
            }
        },
        None => {},
    }
    Ok(())
}

} // verus!
