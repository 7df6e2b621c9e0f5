//! `whoami` (or `id`): the identity the shell acts as.
use vstd::prelude::*;

use crate::application::runtime::ResolvedProfile;
use crate::application::vfs::VirtualFileSystem;
use crate::error::{ConfluenceCliError, Result};
use crate::text::copy_str;

use super::super::state::ShellState;
use super::super::CommandOutput;

verus! {

/// The identity shown: the resolved profile's email, else its username, else its name;
/// without any of them the profile chosen on the command line; else `unknown`.
pub open spec fn spec_identity(profile: Option<ResolvedProfile>, chosen: Option<String>) -> Seq<char> {
    let from_profile: Option<Seq<char>> = match profile {
        Some(p) => match p.email {
            Some(e) => Some(e@),
            None => match p.username {
                Some(u) => Some(u@),
                None => match p.name {
                    Some(n) => Some(n@),
                    None => None,
                },
            },
        },
        None => None,
    };
    match from_profile {
        Some(s) => s,
        None => match chosen {
            Some(c) => c@,
            None => "unknown"@,
        },
    }
}

/// `whoami`: prints the identity on a line of its own.
pub fn execute<V: VirtualFileSystem>(state: &ShellState<V>, argv: &[String], input: Option<String>) -> (r: Result<CommandOutput>)
    ensures
        input is Some ==> (r matches Err(ConfluenceCliError::Config(m)) && m@
            == "whoami does not accept piped input"@),
        input is None && argv@.len() != 1 ==> (r matches Err(ConfluenceCliError::Config(m)) && m@
            == "usage: whoami"@),
        input is None && argv@.len() == 1 ==> (r matches Ok(CommandOutput::Text(t)) && t@ == spec_identity(
            state.runtime_ctx().runtime_config.resolved_profile,
            state.global_args().profile,
        ) + "\n"@),
{
    if input.is_some() {
        return Err(ConfluenceCliError::Config(copy_str("whoami does not accept piped input")));
    }
    if argv.len() != 1 {
        return Err(ConfluenceCliError::Config(copy_str("usage: whoami")));
    }
    let from_profile: Option<String> = match state.resolved_profile() {
        Some(p) => match &p.email {
            Some(e) => Some(e.clone()),
            None => match &p.username {
                Some(u) => Some(u.clone()),
                None => match &p.name {
                    Some(n) => Some(n.clone()),
                    None => None,
                },
            },
        },
        None => None,
    };
    let mut identity = match from_profile {
        Some(s) => s,
        None => match &state.global().profile {
            Some(c) => c.clone(),
            None => copy_str("unknown"),
        },
    };
    identity.append("\n");
    Ok(CommandOutput::Text(identity))
}

} // verus!
