//! The command line's values: global options, command groups and their arguments.
//!
//! Parsing the words of a command line into these values is the argument parser's work;
//! the library takes the values and decides what each command does.
use vstd::prelude::*;

use crate::config::AuthKind;
use crate::domain::{BodyFormat, CommentLocation, DeleteMode, PageRef};

verus! {

/// An authentication kind as written on the command line.
#[derive(Debug, Clone, Copy, PartialEq, Eq, Structural)]
pub enum CliAuthKind {
    Basic,
    Bearer,
    Mtls,
}

impl From<CliAuthKind> for AuthKind {
    fn from(value: CliAuthKind) -> (r: AuthKind) {
        match value {
            CliAuthKind::Basic => AuthKind::Basic,
            CliAuthKind::Bearer => AuthKind::Bearer,
            CliAuthKind::Mtls => AuthKind::Mtls,
        }
    }
}

impl vstd::std_specs::convert::FromSpecImpl<CliAuthKind> for AuthKind {
    open spec fn obeys_from_spec() -> bool {
        true
    }

    open spec fn from_spec(v: CliAuthKind) -> AuthKind {
        spec_auth_kind_of(v)
    }
}

/// The authentication kind a command-line kind names.
pub open spec fn spec_auth_kind_of(v: CliAuthKind) -> AuthKind {
    match v {
        CliAuthKind::Basic => AuthKind::Basic,
        CliAuthKind::Bearer => AuthKind::Bearer,
        CliAuthKind::Mtls => AuthKind::Mtls,
    }
}

/// A body format as written on the command line.
#[derive(Debug, Clone, Copy, PartialEq, Eq, Structural)]
pub enum CliBodyFormat {
    Storage,
    Markdown,
    Html,
    Text,
}

impl From<CliBodyFormat> for BodyFormat {
    fn from(value: CliBodyFormat) -> (r: BodyFormat) {
        match value {
            CliBodyFormat::Storage => BodyFormat::Storage,
            CliBodyFormat::Markdown => BodyFormat::Markdown,
            CliBodyFormat::Html => BodyFormat::Html,
            CliBodyFormat::Text => BodyFormat::Text,
        }
    }
}

impl vstd::std_specs::convert::FromSpecImpl<CliBodyFormat> for BodyFormat {
    open spec fn obeys_from_spec() -> bool {
        true
    }

    open spec fn from_spec(v: CliBodyFormat) -> BodyFormat {
        spec_body_format(v)
    }
}

/// The body format a command-line format names.
pub open spec fn spec_body_format(v: CliBodyFormat) -> BodyFormat {
    match v {
        CliBodyFormat::Storage => BodyFormat::Storage,
        CliBodyFormat::Markdown => BodyFormat::Markdown,
        CliBodyFormat::Html => BodyFormat::Html,
        CliBodyFormat::Text => BodyFormat::Text,
    }
}

/// A delete mode as written on the command line.
#[derive(Debug, Clone, Copy, PartialEq, Eq, Structural)]
pub enum CliDeleteMode {
    Archive,
    Trash,
    Purge,
}

impl From<CliDeleteMode> for DeleteMode {
    fn from(value: CliDeleteMode) -> (r: DeleteMode) {
        match value {
            CliDeleteMode::Archive => DeleteMode::Archive,
            CliDeleteMode::Trash => DeleteMode::Trash,
            CliDeleteMode::Purge => DeleteMode::Purge,
        }
    }
}

impl vstd::std_specs::convert::FromSpecImpl<CliDeleteMode> for DeleteMode {
    open spec fn obeys_from_spec() -> bool {
        true
    }

    open spec fn from_spec(v: CliDeleteMode) -> DeleteMode {
        spec_delete_mode(v)
    }
}

/// The deletion mode a command-line mode names.
pub open spec fn spec_delete_mode(v: CliDeleteMode) -> DeleteMode {
    match v {
        CliDeleteMode::Archive => DeleteMode::Archive,
        CliDeleteMode::Trash => DeleteMode::Trash,
        CliDeleteMode::Purge => DeleteMode::Purge,
    }
}

/// A comment location as written on the command line.
#[derive(Debug, Clone, Copy, PartialEq, Eq, Structural)]
pub enum CliCommentLocation {
    Footer,
    Inline,
    Resolved,
}

impl From<CliCommentLocation> for CommentLocation {
    fn from(value: CliCommentLocation) -> (r: CommentLocation) {
        match value {
            CliCommentLocation::Footer => CommentLocation::Footer,
            CliCommentLocation::Inline => CommentLocation::Inline,
            CliCommentLocation::Resolved => CommentLocation::Resolved,
        }
    }
}

impl vstd::std_specs::convert::FromSpecImpl<CliCommentLocation> for CommentLocation {
    open spec fn obeys_from_spec() -> bool {
        true
    }

    open spec fn from_spec(v: CliCommentLocation) -> CommentLocation {
        spec_comment_location(v)
    }
}

/// The location a command-line comment location names.
pub open spec fn spec_comment_location(v: CliCommentLocation) -> CommentLocation {
    match v {
        CliCommentLocation::Footer => CommentLocation::Footer,
        CliCommentLocation::Inline => CommentLocation::Inline,
        CliCommentLocation::Resolved => CommentLocation::Resolved,
    }
}

/// A whole command line: the global options and one command.
#[derive(Debug)]
pub struct Cli {
    pub global: GlobalArgs,
    pub command: Command,
}

/// Options that apply to every command.
#[derive(Debug, Clone, PartialEq, Eq)]
pub struct GlobalArgs {
    pub config_path: Option<String>,
    pub profile: Option<String>,
    pub output: OutputFormat,
}

/// How results are printed.
#[derive(Debug, Clone, Copy, PartialEq, Eq, Structural)]
pub enum OutputFormat {
    Human,
    Json,
}

/// The command groups.
#[derive(Debug)]
pub enum Command {
    Config(ConfigCommand),
    Profile(ProfileCommand),
    Page(PageCommand),
    Attachment(AttachmentCommand),
    Property(PropertyCommand),
    Comment(CommentCommand),
    Convert(ConvertCommand),
}

#[derive(Debug)]
pub enum ConfigCommand {
    Init { name: String, profile: ProfileArgs },
}

#[derive(Debug)]
pub enum ProfileCommand {
    List,
    Use { name: String },
    Add { name: String, profile: ProfileArgs, activate: bool },
    Remove { name: String },
}

/// A profile's settings as given on the command line.
#[derive(Debug, Clone, PartialEq, Eq, Default)]
pub struct ProfileArgs {
    pub domain: Option<String>,
    pub protocol: Option<String>,
    pub api_path: Option<String>,
    pub auth_type: Option<CliAuthKind>,
    pub email: Option<String>,
    pub username: Option<String>,
    pub api_token: Option<String>,
    pub password: Option<String>,
    pub read_only: bool,
}

#[derive(Debug)]
pub enum PageCommand {
    Read { page: PageRef, format: CliBodyFormat },
    Info { page: PageRef },
    Find { title: String },
    Search { query: String, cql: bool },
    Children { page: PageRef },
    Create {
        title: String,
        body: Option<String>,
        body_file: Option<String>,
        body_format: CliBodyFormat,
        space_id: Option<String>,
        space_key: Option<String>,
    },
    CreateChild {
        parent: PageRef,
        title: String,
        body: Option<String>,
        body_file: Option<String>,
        body_format: CliBodyFormat,
    },
    Update { page: PageRef, title: String, storage_body: String, version: u32 },
    Patch { page: PageRef, base_file: String, patch_file: String, dry_run: bool },
    Move {
        page: PageRef,
        to_parent: Option<PageRef>,
        before: Option<PageRef>,
        after: Option<PageRef>,
        title: Option<String>,
    },
    Archive { page: PageRef },
    Delete { page: PageRef, mode: CliDeleteMode, yes_im_sure: bool },
    Export { page: PageRef, dest: Option<String>, format: CliBodyFormat, skip_attachments: bool },
}

#[derive(Debug)]
pub enum AttachmentCommand {
    List { page: PageRef },
    Download { page: PageRef, dest: Option<String> },
    Upload { page: PageRef, file: String, comment: Option<String>, replace: bool, minor_edit: bool },
    Delete { page: PageRef, attachment: String },
}

#[derive(Debug)]
pub enum PropertyCommand {
    List { page: PageRef },
    Get { page: PageRef, key: String },
    SetValue { page: PageRef, key: String, value: Option<String>, value_file: Option<String> },
    Delete { page: PageRef, key: String },
}

#[derive(Debug)]
pub enum CommentCommand {
    List { page: PageRef, location: Option<CliCommentLocation> },
    Info { comment: String },
    Create {
        page: PageRef,
        body: Option<String>,
        body_file: Option<String>,
        body_format: CliBodyFormat,
        location: CliCommentLocation,
        parent_id: Option<String>,
        inline_properties: Option<String>,
        inline_properties_file: Option<String>,
    },
    Reply {
        page: PageRef,
        parent_id: String,
        body: Option<String>,
        body_file: Option<String>,
        body_format: CliBodyFormat,
        location: CliCommentLocation,
        inline_properties: Option<String>,
        inline_properties_file: Option<String>,
    },
    Delete { comment: String },
    Resolve { comment: String },
    Reopen { comment: String },
}

/// Converting text between body formats.
#[derive(Debug)]
pub struct ConvertCommand {
    pub from: CliBodyFormat,
    pub to: CliBodyFormat,
    pub input: Option<String>,
    pub input_file: Option<String>,
}

} // verus!
