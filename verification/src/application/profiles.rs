//! Creating, selecting and removing profiles.
use vstd::prelude::*;

use crate::config::AuthKind;
use crate::error::Result;

use super::ports::ProfilesStore;
use super::runtime::RuntimeConfig;

verus! {

/// The non-secret settings of a profile being created or updated.
#[derive(Debug, Clone, PartialEq, Eq)]
pub struct ProfileDraft {
    pub id: Option<String>,
    pub domain: String,
    pub protocol: Option<String>,
    pub api_path: Option<String>,
    pub auth_type: Option<AuthKind>,
    pub email: Option<String>,
    pub username: Option<String>,
    pub read_only: Option<bool>,
    pub has_secrets: bool,
}

/// The secrets of a profile being created or updated.
#[derive(Debug, Clone, Default, PartialEq, Eq)]
pub struct ProfileSecrets {
    pub api_token: Option<String>,
    pub password: Option<String>,
}

/// Records whether the profile has secrets to store.
pub fn attach_secret_backend(profile: &mut ProfileDraft, has_secret: bool)
    ensures
        final(profile).has_secrets == has_secret,
        final(profile).id == old(profile).id,
        final(profile).domain == old(profile).domain,
        final(profile).protocol == old(profile).protocol,
        final(profile).api_path == old(profile).api_path,
        final(profile).auth_type == old(profile).auth_type,
        final(profile).email == old(profile).email,
        final(profile).username == old(profile).username,
        final(profile).read_only == old(profile).read_only,
{
    profile.has_secrets = has_secret;
}

/// Creates the configuration with its first profile.
pub fn init_profile<S: ProfilesStore>(
    store: &S,
    name: &str,
    draft: ProfileDraft,
    secrets: &ProfileSecrets,
) -> (r: Result<RuntimeConfig>)
    ensures
        store.init_profile_post(name@, draft, *secrets, r),
{
    store.init_profile(name, draft, secrets)
}

/// Adds or replaces a profile, making it active when asked.
pub fn add_or_update_profile<S: ProfilesStore>(
    store: &S,
    name: &str,
    draft: ProfileDraft,
    secrets: &ProfileSecrets,
    activate: bool,
) -> (r: Result<RuntimeConfig>)
    ensures
        store.add_or_update_profile_post(name@, draft, *secrets, activate, r),
{
    store.add_or_update_profile(name, draft, secrets, activate)
}

/// Makes a profile the active one.
pub fn use_profile<S: ProfilesStore>(store: &S, name: &str) -> (r: Result<RuntimeConfig>)
    ensures
        store.use_profile_post(name@, r),
{
    store.use_profile(name)
}

/// Removes a profile.
pub fn remove_profile<S: ProfilesStore>(store: &S, name: &str) -> (r: Result<RuntimeConfig>)
    ensures
        store.remove_profile_post(name@, r),
{
    store.remove_profile(name)
}

/// The configured profiles.
pub fn list_profiles<S: ProfilesStore>(store: &S) -> (r: Result<RuntimeConfig>)
    ensures
        store.list_profiles_post(r),
{
    store.list_profiles()
}

} // verus!
