//! Editing the profiles of a configuration file: adding or replacing one, selecting the
//! active one, removing one. Reading and writing the file is the host's work.
use vstd::prelude::*;

use crate::application::profiles::{ProfileDraft, ProfileSecrets};
use crate::config::{opt_view, ConfigFile, Profile};
use crate::error::{ConfluenceCliError, Result};
use crate::text::{copy_str, str_eq};

verus! {

/// Each profile name occurs once in the file.
pub open spec fn spec_config_wf(config: ConfigFile) -> bool {
    forall|i: int, j: int|
        0 <= i < j < config.profiles@.len() ==> (#[trigger] config.profiles@[i]).0@
            != (#[trigger] config.profiles@[j]).0@
}

/// Whether the entry at `i` is the profile named `name`.
pub open spec fn spec_named(ps: Seq<(String, Profile)>, i: int, name: Seq<char>) -> bool {
    0 <= i < ps.len() && ps[i].0@ == name
}

/// Whether the file has a profile named `name`.
pub open spec fn spec_has_profile(config: ConfigFile, name: Seq<char>) -> bool {
    exists|i: int| #[trigger] spec_named(config.profiles@, i, name)
}

/// The error for a profile the file does not have.
pub open spec fn spec_missing_profile(name: Seq<char>) -> Seq<char> {
    "profile '"@ + name + "' does not exist"@
}

/// `after` is `before` with the profile named `name` set to `profile`: replaced in place
/// when there is one, else added at the end.
pub open spec fn spec_upserted(
    before: Seq<(String, Profile)>,
    after: Seq<(String, Profile)>,
    name: Seq<char>,
    profile: Profile,
) -> bool {
    if exists|i: int| #[trigger] spec_named(before, i, name) {
        after.len() == before.len() && forall|j: int|
            0 <= j < before.len() ==> if spec_named(before, j, name) {
                (#[trigger] after[j]).0@ == name && after[j].1 == profile
            } else {
                after[j] == before[j]
            }
    } else {
        after.len() == before.len() + 1 && after.drop_last() == before && after.last().0@ == name
            && after.last().1 == profile
    }
}

/// The position of the profile named `name`.
pub fn profile_position(config: &ConfigFile, name: &str) -> (r: Option<usize>)
    ensures
        match r {
            Some(i) => spec_named(config.profiles@, i as int, name@),
            None => !spec_has_profile(*config, name@),
        },
{
    let mut i: usize = 0;
    while i < config.profiles.len()
        invariant
            i <= config.profiles@.len(),
            forall|j: int| 0 <= j < i ==> !(#[trigger] spec_named(config.profiles@, j, name@)),
        decreases config.profiles.len() - i,
    {
        if str_eq(config.profiles[i].0.as_str(), name) {
            return Some(i);
        }
        i = i + 1;
    }
    None
}

/// The id the file records for the profile named `name`, if it has the profile and the
/// profile has an id.
pub fn existing_profile_id(config: &ConfigFile, name: &str) -> (r: Option<String>)
    requires
        spec_config_wf(*config),
    ensures
        match r {
            Some(id) => exists|i: int|
                #[trigger] spec_named(config.profiles@, i, name@) && config.profiles@[i].1.id == Some(id),
            None => forall|i: int|
                #[trigger] spec_named(config.profiles@, i, name@) ==> config.profiles@[i].1.id is None,
        },
{
    match profile_position(config, name) {
        Some(i) => match &config.profiles[i].1.id {
            Some(id) => Some(id.clone()),
            None => None,
        },
        None => None,
    }
}

/// The id a stored profile gets: the draft's, else `profile-<name>`.
pub open spec fn spec_entry_id(name: Seq<char>, id: Option<String>) -> Seq<char> {
    match id {
        Some(i) => i@,
        None => "profile-"@ + name,
    }
}

/// The profile stored for a draft and its secrets. The file holds the secrets, as no
/// secret store is available to this program.
pub fn profile_entry(name: &str, draft: ProfileDraft, secrets: &ProfileSecrets) -> (r: Profile)
    ensures
        opt_view(r.id) == Some(spec_entry_id(name@, draft.id)),
        opt_view(r.domain) == Some(draft.domain@),
        r.protocol == draft.protocol,
        r.api_path == draft.api_path,
        r.auth_type == draft.auth_type,
        r.email == draft.email,
        r.username == draft.username,
        opt_view(r.api_token) == opt_view(secrets.api_token),
        opt_view(r.password) == opt_view(secrets.password),
        r.read_only == draft.read_only,
        r.secret_backend is None,
{
    let id = match draft.id {
        Some(i) => i,
        None => {
            let mut s = copy_str("profile-");
            s.append(name);
            s
        },
    };
    let api_token = match &secrets.api_token {
        Some(t) => Some(t.clone()),
        None => None,
    };
    let password = match &secrets.password {
        Some(t) => Some(t.clone()),
        None => None,
    };
    Profile {
        id: Some(id),
        domain: Some(draft.domain),
        protocol: draft.protocol,
        api_path: draft.api_path,
        auth_type: draft.auth_type,
        email: draft.email,
        username: draft.username,
        api_token,
        password,
        read_only: draft.read_only,
        secret_backend: None,
    }
}

/// Adds the profile named `name`, or replaces it in place. It becomes the active profile
/// when asked, or when none is active.
pub fn upsert_profile(config: ConfigFile, name: &str, profile: Profile, activate: bool) -> (r: ConfigFile)
    requires
        spec_config_wf(config),
    ensures
        spec_config_wf(r),
        spec_upserted(config.profiles@, r.profiles@, name@, profile),
        opt_view(r.active_profile) == if activate || config.active_profile is None {
            Some(name@)
        } else {
            opt_view(config.active_profile)
        },
{
    let ghost before = config.profiles@;
    let mut config = config;
    match profile_position(&config, name) {
        Some(i) => {
            config.profiles.set(i, (copy_str(name), profile));
            assert forall|j: int| 0 <= j < before.len() && spec_named(before, j, name@) implies j == i by {
                if j != i {
                    if j < i {
                        assert(before[j].0@ != before[i as int].0@);
                    } else {
                        assert(before[i as int].0@ != before[j].0@);
                    }
                }
            }
        },
        None => {
            config.profiles.push((copy_str(name), profile));
            assert(config.profiles@.drop_last() =~= before);
            assert forall|a: int, b: int|
                0 <= a < b < config.profiles@.len() implies (#[trigger] config.profiles@[a]).0@
                != (#[trigger] config.profiles@[b]).0@ by {
                if b == before.len() {
                    assert(!spec_named(before, a, name@));
                } else {
                    assert(before[a].0@ != before[b].0@);
                }
            }
        },
    }
    if activate || config.active_profile.is_none() {
        config.active_profile = Some(copy_str(name));
    }
    config
}

/// Creates or replaces the profile named `name` and makes it the active one.
pub fn init_config(config: ConfigFile, name: &str, profile: Profile) -> (r: ConfigFile)
    requires
        spec_config_wf(config),
    ensures
        spec_config_wf(r),
        spec_upserted(config.profiles@, r.profiles@, name@, profile),
        opt_view(r.active_profile) == Some(name@),
{
    upsert_profile(config, name, profile, true)
}

/// The error naming a profile the file does not have.
fn missing_profile(name: &str) -> (r: ConfluenceCliError)
    ensures
        r matches ConfluenceCliError::Config(m) && m@ == spec_missing_profile(name@),
{
    let mut m = copy_str("profile '");
    m.append(name);
    m.append("' does not exist");
    ConfluenceCliError::Config(m)
}

/// Makes the profile named `name` the active one; the file must have it.
pub fn set_active_profile(config: ConfigFile, name: &str) -> (r: Result<ConfigFile>)
    ensures
        !spec_has_profile(config, name@) ==> (r matches Err(ConfluenceCliError::Config(m)) && m@
            == spec_missing_profile(name@)),
        spec_has_profile(config, name@) ==> (r matches Ok(c) && c.profiles == config.profiles
            && opt_view(c.active_profile) == Some(name@)),
{
    if profile_position(&config, name).is_none() {
        return Err(missing_profile(name));
    }
    let mut config = config;
    config.active_profile = Some(copy_str(name));
    Ok(config)
}

/// The active profile after the profile named `name` is removed: unchanged unless it was
/// the one removed, then the first profile left, if any.
pub open spec fn spec_active_after_removal(
    active: Option<Seq<char>>,
    name: Seq<char>,
    left: Seq<(String, Profile)>,
) -> Option<Seq<char>> {
    if active == Some(name) {
        if left.len() > 0 {
            Some(left[0].0@)
        } else {
            None
        }
    } else {
        active
    }
}

/// Removes the profile named `name`; the file must have it. When it was the active one,
/// the first profile left becomes active.
pub fn remove_profile(config: ConfigFile, name: &str) -> (r: Result<ConfigFile>)
    requires
        spec_config_wf(config),
    ensures
        !spec_has_profile(config, name@) ==> (r matches Err(ConfluenceCliError::Config(m)) && m@
            == spec_missing_profile(name@)),
        spec_has_profile(config, name@) ==> (r matches Ok(c) && spec_config_wf(c) && exists|i: int|
            #[trigger] spec_named(config.profiles@, i, name@) && c.profiles@ == config.profiles@.remove(i)
                && !spec_has_profile(c, name@) && opt_view(c.active_profile)
                == spec_active_after_removal(opt_view(config.active_profile), name@, c.profiles@)),
{
    let ghost before = config.profiles@;
    let i = match profile_position(&config, name) {
        Some(i) => i,
        None => {
            return Err(missing_profile(name));
        },
    };
    let mut config = config;
    let removed = config.profiles.remove(i);
    assert(config.profiles@ == before.remove(i as int));
    assert forall|j: int| 0 <= j < config.profiles@.len() implies !spec_named(config.profiles@, j, name@) by {
        if j < i {
            assert(config.profiles@[j] == before[j]);
            assert(before[j].0@ != before[i as int].0@);
        } else {
            assert(config.profiles@[j] == before[j + 1]);
            assert(before[i as int].0@ != before[j + 1].0@);
        }
    }
    assert forall|a: int, b: int|
        0 <= a < b < config.profiles@.len() implies (#[trigger] config.profiles@[a]).0@
        != (#[trigger] config.profiles@[b]).0@ by {
        let a0 = if a < i { a } else { a + 1 };
        let b0 = if b < i { b } else { b + 1 };
        assert(config.profiles@[a] == before[a0]);
        assert(config.profiles@[b] == before[b0]);
        assert(before[a0].0@ != before[b0].0@);
    }
    let was_active = match &config.active_profile {
        Some(active) => str_eq(active.as_str(), name),
        None => false,
    };
    if was_active {
        config.active_profile = if config.profiles.len() > 0 {
            Some(config.profiles[0].0.clone())
        } else {
            None
        };
    }
    Ok(config)
}

/// A profile set with `upsert_profile` is one the file has, so selecting it succeeds.
pub proof fn lemma_upserted_profile_is_present(config: ConfigFile, updated: ConfigFile, name: Seq<char>, profile: Profile)
    requires
        spec_upserted(config.profiles@, updated.profiles@, name, profile),
    ensures
        spec_has_profile(updated, name),
{
    if exists|i: int| #[trigger] spec_named(config.profiles@, i, name) {
        let i = choose|i: int| #[trigger] spec_named(config.profiles@, i, name);
        assert(spec_named(updated.profiles@, i, name));
    } else {
        assert(spec_named(updated.profiles@, updated.profiles@.len() - 1, name));
    }
}

/// Removing a profile that was just added, where the file had none of that name, gives
/// back the file's profiles as they were.
pub proof fn lemma_remove_undoes_add(config: ConfigFile, added: ConfigFile, name: Seq<char>, profile: Profile, i: int)
    requires
        !spec_has_profile(config, name),
        spec_upserted(config.profiles@, added.profiles@, name, profile),
        spec_named(added.profiles@, i, name),
    ensures
        added.profiles@.remove(i) == config.profiles@,
{
    let before = config.profiles@;
    let after = added.profiles@;
    if i < before.len() {
        assert(after[i] == after.drop_last()[i]);
        assert(spec_named(before, i, name));
    }
    assert(i == before.len());
    assert(after.remove(i) =~= after.drop_last());
}

} // verus!
