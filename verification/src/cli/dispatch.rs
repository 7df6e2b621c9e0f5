//! What each command does: which checks it makes, which service operation it calls
//! with what, and what it reports. Printing the report, and the file transfers of
//! exports, downloads and uploads, are the host's work.
use vstd::prelude::*;

use serde_json::Value;

use crate::application::attachments::{attachment_delete, attachment_list};
use crate::application::comments::{
    comment_create, comment_delete, comment_info, comment_list, comment_reopen, comment_resolve,
};
use crate::application::models::{
    ArchiveResult, AttachmentSummary, CommentSummary, ContentProperty, PageBody, PageSummary,
};
use crate::application::pages::{
    opt_ref, opt_str, page_archive, page_children, page_create, page_delete, page_info, page_move,
    page_patch, page_read, page_search, page_search_cql, page_update, spec_page_create, spec_page_patch,
};
use crate::application::models::{MovePageRequestView, UpdatePageRequestView};
use crate::application::ports::{AttachmentsApi, CommentsApi, PagesApi, PropertiesApi};
use crate::application::properties::{property_delete, property_get, property_list, property_set};
use crate::application::runtime::{ensure_writable, spec_is_read_only, RuntimeContext};
use crate::convert::{apply_unified_patch, convert_text, spec_convert_outcome, spec_patch_outcome};
use crate::domain::{BodyFormat, CommentLocation, DeleteMode, MoveTarget, PageRef};
use crate::error::{ConfluenceCliError, Result};
use crate::text::{copy_str, spec_is_blank};

use super::args::{
    spec_body_format, spec_comment_location, spec_delete_mode, AttachmentCommand, CommentCommand, ConvertCommand, PageCommand, PropertyCommand,
};
use super::input::{
    convert_body_to_storage, default_export_dir, parse_move_target, parse_property_value,
    read_command_input, read_optional_json, spec_command_input, spec_default_export_dir,
    spec_json_valid, spec_optional_json, spec_storage_body,
};
use crate::application::models::CommentCreateRequestView;
use crate::domain::PageRefView;

verus! {

/// What a command reports, for the host to print as text or JSON.
#[derive(Debug)]
pub enum CommandReport {
    /// A text printed as it is.
    Text(String),
    /// One page's metadata.
    Page(PageSummary),
    /// Pages, with the note printed when there are none.
    Pages { pages: Vec<PageSummary>, empty_message: String },
    /// A change made to a page: `<label> <title> [<id>]`.
    PageAction { label: String, page: PageSummary },
    /// An archive task.
    Archive(ArchiveResult),
    /// Attachments.
    Attachments(Vec<AttachmentSummary>),
    /// One content property.
    Property(ContentProperty),
    /// Content properties.
    Properties(Vec<ContentProperty>),
    /// Comments.
    Comments(Vec<CommentSummary>),
    /// One comment.
    Comment(CommentSummary),
    /// A change made to a comment: `<label> <id>`.
    CommentAction { label: String, comment: CommentSummary },
    /// Export the page into `dest`: its content in `format`, its metadata and, when
    /// asked, its attachments.
    Export { page: PageRef, dest: String, format: BodyFormat, include_attachments: bool },
    /// Download the page's attachments into `dest`.
    Download { page: PageRef, dest: String },
    /// Upload a file as an attachment of the page.
    Upload { page: PageRef, file: String, comment: Option<String>, minor_edit: bool, replace: bool },
}

/// The error a read-only profile gives for a command that would change Confluence.
pub open spec fn is_read_only_error<T>(r: Result<T>) -> bool {
    r matches Err(ConfluenceCliError::Config(m)) && m@
        == "active profile is read-only; this command would mutate Confluence"@
}

/// Whether a page command changes Confluence.
pub open spec fn spec_page_mutates(command: PageCommand) -> bool {
    match command {
        PageCommand::Create { .. } | PageCommand::CreateChild { .. } | PageCommand::Update { .. }
        | PageCommand::Move { .. } | PageCommand::Archive { .. } | PageCommand::Delete { .. } => true,
        PageCommand::Patch { dry_run, .. } => !dry_run,
        _ => false,
    }
}

/// A report of one page's metadata for a service result.
pub open spec fn spec_page_report(s: Result<PageSummary>, r: Result<CommandReport>) -> bool {
    match s {
        Ok(p) => r matches Ok(CommandReport::Page(q)) && q == p,
        Err(e) => r == Err::<CommandReport, ConfluenceCliError>(e),
    }
}

/// A report of pages for a service result.
pub open spec fn spec_pages_report(s: Result<Vec<PageSummary>>, empty: Seq<char>, r: Result<CommandReport>) -> bool {
    match s {
        Ok(p) => r matches Ok(CommandReport::Pages { pages, empty_message }) && pages == p && empty_message@ == empty,
        Err(e) => r == Err::<CommandReport, ConfluenceCliError>(e),
    }
}

/// A report of a page's content for a service result.
pub open spec fn spec_body_report(s: Result<PageBody>, r: Result<CommandReport>) -> bool {
    match s {
        Ok(b) => r matches Ok(CommandReport::Text(t)) && t@ == b.content@,
        Err(e) => r == Err::<CommandReport, ConfluenceCliError>(e),
    }
}

/// A report of a page's storage content converted to markdown.
pub open spec fn spec_markdown_report(s: Result<PageBody>, r: Result<CommandReport>) -> bool {
    match s {
        Ok(b) => exists|c: Result<String>|
            #[trigger] spec_convert_outcome(b.content@, BodyFormat::Storage, BodyFormat::Markdown, c) && match c {
                Ok(t) => r matches Ok(CommandReport::Text(x)) && x@ == t@,
                Err(e) => r == Err::<CommandReport, ConfluenceCliError>(e),
            },
        Err(e) => r == Err::<CommandReport, ConfluenceCliError>(e),
    }
}

/// A report of a change made to a page, for a service result.
pub open spec fn spec_page_action(s: Result<PageSummary>, label: Seq<char>, r: Result<CommandReport>) -> bool {
    match s {
        Ok(p) => r matches Ok(CommandReport::PageAction { label: l, page }) && l@ == label && page == p,
        Err(e) => r == Err::<CommandReport, ConfluenceCliError>(e),
    }
}

/// Creating a page once its body is in storage markup.
pub open spec fn spec_create_from_storage<A: PagesApi>(
    api: A,
    title: Seq<char>,
    space_id: Option<Seq<char>>,
    space_key: Option<Seq<char>>,
    parent: Option<PageRefView>,
    storage: Result<String>,
    label: Seq<char>,
    r: Result<CommandReport>,
) -> bool {
    match storage {
        Err(e) => r == Err::<CommandReport, ConfluenceCliError>(e),
        Ok(b) => exists|s: Result<PageSummary>|
            #[trigger] spec_page_create(api, title, b@, space_id, space_key, parent, s) && spec_page_action(s, label, r),
    }
}

/// Creating a page from the text given for its body.
pub open spec fn spec_create_from_input<A: PagesApi>(
    api: A,
    title: Seq<char>,
    format: super::args::CliBodyFormat,
    space_id: Option<Seq<char>>,
    space_key: Option<Seq<char>>,
    parent: Option<PageRefView>,
    input: Result<String>,
    label: Seq<char>,
    r: Result<CommandReport>,
) -> bool {
    match input {
        Err(e) => r == Err::<CommandReport, ConfluenceCliError>(e),
        Ok(t) => exists|storage: Result<String>|
            #[trigger] spec_storage_body(t@, format, storage)
                && spec_create_from_storage(api, title, space_id, space_key, parent, storage, label, r),
    }
}

/// The move target the options name: exactly one of them, else none.
pub open spec fn spec_move_target(to_parent: Option<PageRef>, before: Option<PageRef>, after: Option<PageRef>) -> Option<MoveTarget> {
    match (to_parent, before, after) {
        (Some(p), None, None) => Some(MoveTarget::Parent(p)),
        (None, Some(p), None) => Some(MoveTarget::Before(p)),
        (None, None, Some(p)) => Some(MoveTarget::After(p)),
        _ => None,
    }
}

/// Patching once the diff is applied to the base file: printed on a dry run, else sent.
pub open spec fn spec_patch_applied<A: PagesApi>(
    runtime: RuntimeContext,
    api: A,
    page: PageRefView,
    base: Seq<char>,
    patch: Seq<char>,
    dry_run: bool,
    applied: Result<String>,
    r: Result<CommandReport>,
) -> bool {
    match applied {
        Err(e) => r == Err::<CommandReport, ConfluenceCliError>(e),
        Ok(u) => if dry_run {
            r matches Ok(CommandReport::Text(t)) && t@ == u@
        } else if spec_is_read_only(runtime) {
            is_read_only_error(r)
        } else {
            exists|s: Result<PageSummary>|
                #[trigger] spec_page_patch(api, page, base, patch, s) && spec_page_action(s, "Patched"@, r)
        },
    }
}

/// Patching once the base file is read.
pub open spec fn spec_patch_with_base<A: PagesApi, F: Fn(String) -> Result<String>>(
    runtime: RuntimeContext,
    api: A,
    page: PageRefView,
    base: Seq<char>,
    patch_file: String,
    dry_run: bool,
    read_file: F,
    r: Result<CommandReport>,
) -> bool {
    exists|p: Result<String>|
        #[trigger] read_file.ensures((patch_file,), p) && match p {
            Err(e) => r == Err::<CommandReport, ConfluenceCliError>(e),
            Ok(pt) => exists|u: Result<String>|
                #[trigger] spec_patch_outcome(base, pt@, u) && spec_patch_applied(runtime, api, page, base, pt@, dry_run, u, r),
        }
}

/// A report of pages found by a search, a blank query refused.
pub open spec fn spec_search_report<A: PagesApi>(api: A, query: Seq<char>, cql: bool, r: Result<CommandReport>) -> bool {
    if spec_is_blank(query) {
        r matches Err(ConfluenceCliError::Config(m)) && m@ == "search query must not be empty"@
    } else if cql {
        exists|s: Result<Vec<PageSummary>>|
            #[trigger] api.search_pages_cql_post(query, s) && spec_pages_report(s, "No pages found."@, r)
    } else {
        exists|s: Result<Vec<PageSummary>>|
            #[trigger] api.search_pages_post(query, s) && spec_pages_report(s, "No pages found."@, r)
    }
}

/// What a page command gives.
pub open spec fn spec_dispatch_page<A: PagesApi + AttachmentsApi, F: Fn(String) -> Result<String>>(
    runtime: RuntimeContext,
    api: A,
    command: PageCommand,
    read_file: F,
    r: Result<CommandReport>,
) -> bool {
    match command {
        PageCommand::Read { page, format } => if spec_body_format(format) == BodyFormat::Markdown {
            exists|s: Result<PageBody>|
                #[trigger] api.read_page_post(page@, BodyFormat::Storage, s) && spec_markdown_report(s, r)
        } else {
            exists|s: Result<PageBody>|
                #[trigger] api.read_page_post(page@, spec_body_format(format), s) && spec_body_report(s, r)
        },
        PageCommand::Info { page } => exists|s: Result<PageSummary>|
            #[trigger] api.get_page_info_post(page@, s) && spec_page_report(s, r),
        PageCommand::Children { page } => exists|s: Result<Vec<PageSummary>>|
            #[trigger] api.list_child_pages_post(page@, s) && spec_pages_report(s, "No child pages found."@, r),
        PageCommand::Find { title } => spec_search_report(api, title@, false, r),
        PageCommand::Search { query, cql } => spec_search_report(api, query@, cql, r),
        PageCommand::Create { title, body, body_file, body_format, space_id, space_key } => if spec_is_read_only(runtime) {
            is_read_only_error(r)
        } else {
            exists|input: Result<String>|
                #[trigger] spec_command_input(body, body_file, "page create requires --body or --body-file"@, read_file, input)
                    && spec_create_from_input(
                    api,
                    title@,
                    body_format,
                    opt_str(space_id),
                    opt_str(space_key),
                    None,
                    input,
                    "Created"@,
                    r,
                )
        },
        PageCommand::CreateChild { parent, title, body, body_file, body_format } => if spec_is_read_only(runtime) {
            is_read_only_error(r)
        } else {
            exists|input: Result<String>|
                #[trigger] spec_command_input(
                    body,
                    body_file,
                    "page create-child requires --body or --body-file"@,
                    read_file,
                    input,
                ) && spec_create_from_input(api, title@, body_format, None, None, Some(parent@), input, "Created child page"@, r)
        },
        PageCommand::Update { page, title, storage_body, version } => if spec_is_read_only(runtime) {
            is_read_only_error(r)
        } else if spec_is_blank(title@) {
            r matches Err(ConfluenceCliError::Config(m)) && m@ == "page update requires a non-empty title"@
        } else if spec_is_blank(storage_body@) {
            r matches Err(ConfluenceCliError::Config(m)) && m@ == "page update requires a non-empty storage body"@
        } else {
            exists|s: Result<PageSummary>|
                #[trigger] api.update_page_post(
                    UpdatePageRequestView { page: page@, title: title@, storage_body: storage_body@, version },
                    s,
                ) && spec_page_action(s, "Updated"@, r)
        },
        PageCommand::Move { page, to_parent, before, after, title } => if spec_is_read_only(runtime) {
            is_read_only_error(r)
        } else {
            match spec_move_target(to_parent, before, after) {
                None => r matches Err(ConfluenceCliError::Config(m)) && m@
                    == "page move requires exactly one of --to-parent, --before, or --after"@,
                Some(t) => exists|s: Result<PageSummary>|
                    #[trigger] api.move_page_post(MovePageRequestView { page: page@, target: t@, title: opt_str(title) }, s)
                        && spec_page_action(s, "Moved"@, r),
            }
        },
        PageCommand::Archive { page } => if spec_is_read_only(runtime) {
            is_read_only_error(r)
        } else {
            exists|s: Result<ArchiveResult>|
                #[trigger] api.archive_page_post(page@, s) && match s {
                    Ok(a) => r matches Ok(CommandReport::Archive(b)) && b == a,
                    Err(e) => r == Err::<CommandReport, ConfluenceCliError>(e),
                }
        },
        PageCommand::Delete { page, mode, yes_im_sure } => if spec_is_read_only(runtime) {
            is_read_only_error(r)
        } else if mode == super::args::CliDeleteMode::Purge && !yes_im_sure {
            r matches Err(ConfluenceCliError::Config(m)) && m@ == "purge requires --yes-im-sure"@
        } else {
            exists|s: Result<()>|
                #[trigger] api.delete_page_post(page@, spec_delete_mode(mode), s)
                    && spec_unit_report(s, "Page deletion request accepted."@, r)
        },
        PageCommand::Patch { page, base_file, patch_file, dry_run } => exists|b: Result<String>|
            #[trigger] read_file.ensures((base_file,), b) && match b {
                Err(e) => r == Err::<CommandReport, ConfluenceCliError>(e),
                Ok(bt) => spec_patch_with_base(runtime, api, page@, bt@, patch_file, dry_run, read_file, r),
            },
        PageCommand::Export { page, dest, format, skip_attachments } => r matches Ok(
            CommandReport::Export { page: p, dest: d, format: f, include_attachments },
        ) && p@ == page@ && d@ == match dest {
            Some(x) => x@,
            None => spec_default_export_dir(page@),
        } && f == spec_body_format(format) && include_attachments == !skip_attachments,
    }
}

fn page_action(label: &str, s: Result<PageSummary>) -> (r: Result<CommandReport>)
    ensures
        spec_page_action(s, label@, r),
{
    match s {
        Ok(page) => Ok(CommandReport::PageAction { label: copy_str(label), page }),
        Err(e) => Err(e),
    }
}

/// Creates a page from the text given for its body.
fn create_from_input<A: PagesApi>(
    api: &A,
    title: String,
    format: super::args::CliBodyFormat,
    space_id: Option<String>,
    space_key: Option<String>,
    parent: Option<PageRef>,
    input: Result<String>,
    label: &str,
) -> (r: Result<CommandReport>)
    ensures
        spec_create_from_input(*api, title@, format, opt_str(space_id), opt_str(space_key), opt_ref(parent), input, label@, r),
{
    let raw = match input {
        Ok(t) => t,
        Err(e) => {
            return Err(e);
        },
    };
    let ghost graw = raw;
    let storage = convert_body_to_storage(raw, format);
    let ghost gs = storage;
    assert(spec_storage_body(graw@, format, gs));
    let body = match storage {
        Ok(b) => b,
        Err(e) => {
            return Err(e);
        },
    };
    let ghost (t, b, si, sk, pr) = (title@, body@, opt_str(space_id), opt_str(space_key), opt_ref(parent));
    let s = page_create(api, title, body, space_id, space_key, parent);
    let ghost g = s;
    assert(spec_page_create(*api, t, b, si, sk, pr, g));
    page_action(label, s)
}

/// Runs a page command against the service; `read_file` reads the files the command
/// names.
pub fn dispatch_page<A: PagesApi + AttachmentsApi, F: Fn(String) -> Result<String>>(
    runtime: &RuntimeContext,
    api: &A,
    command: PageCommand,
    read_file: &F,
) -> (r: Result<CommandReport>)
    requires
        forall|p: String| read_file.requires((p,)),
    ensures
        spec_dispatch_page(*runtime, *api, command, *read_file, r),
{
    match command {
        PageCommand::Read { page, format } => {
            let format: BodyFormat = BodyFormat::from(format);
            if format == BodyFormat::Markdown {
                let body = page_read(api, &page, BodyFormat::Storage);
                let ghost b = body;
                assert(api.read_page_post(page@, BodyFormat::Storage, b));
                let body = match body {
                    Ok(x) => x,
                    Err(e) => {
                        return Err(e);
                    },
                };
                let c = convert_text(body.content.as_str(), BodyFormat::Storage, BodyFormat::Markdown);
                assert(spec_convert_outcome(body.content@, BodyFormat::Storage, BodyFormat::Markdown, c));
                match c {
                    Ok(t) => Ok(CommandReport::Text(t)),
                    Err(e) => Err(e),
                }
            } else {
                let body = page_read(api, &page, format);
                let ghost b = body;
                assert(api.read_page_post(page@, format, b));
                match body {
                    Ok(x) => Ok(CommandReport::Text(x.content)),
                    Err(e) => Err(e),
                }
            }
        },
        PageCommand::Info { page } => {
            let s = page_info(api, &page);
            let ghost g = s;
            assert(api.get_page_info_post(page@, g));
            match s {
                Ok(p) => Ok(CommandReport::Page(p)),
                Err(e) => Err(e),
            }
        },
        PageCommand::Find { title } => {
            let s = page_search(api, title.as_str());
            let ghost g = s;
            proof {
                if !spec_is_blank(title@) {
                    assert(api.search_pages_post(title@, g));
                }
            }
            match s {
                Ok(pages) => Ok(CommandReport::Pages { pages, empty_message: copy_str("No pages found.") }),
                Err(e) => Err(e),
            }
        },
        PageCommand::Search { query, cql } => {
            let s = if cql {
                page_search_cql(api, query.as_str())
            } else {
                page_search(api, query.as_str())
            };
            let ghost g = s;
            proof {
                if !spec_is_blank(query@) {
                    if cql {
                        assert(api.search_pages_cql_post(query@, g));
                    } else {
                        assert(api.search_pages_post(query@, g));
                    }
                }
            }
            match s {
                Ok(pages) => Ok(CommandReport::Pages { pages, empty_message: copy_str("No pages found.") }),
                Err(e) => Err(e),
            }
        },
        PageCommand::Children { page } => {
            let s = page_children(api, &page);
            let ghost g = s;
            assert(api.list_child_pages_post(page@, g));
            match s {
                Ok(pages) => Ok(CommandReport::Pages { pages, empty_message: copy_str("No child pages found.") }),
                Err(e) => Err(e),
            }
        },
        PageCommand::Create { title, body, body_file, body_format, space_id, space_key } => {
            ensure_writable(runtime)?;
            let ghost (gb, gf) = (body, body_file);
            let input = read_command_input(body, body_file, "page create requires --body or --body-file", read_file);
            let ghost gi = input;
            assert(spec_command_input(gb, gf, "page create requires --body or --body-file"@, *read_file, gi));
            create_from_input(api, title, body_format, space_id, space_key, None, input, "Created")
        },
        PageCommand::CreateChild { parent, title, body, body_file, body_format } => {
            ensure_writable(runtime)?;
            let ghost (gb, gf) = (body, body_file);
            let input = read_command_input(body, body_file, "page create-child requires --body or --body-file", read_file);
            let ghost gi = input;
            assert(spec_command_input(gb, gf, "page create-child requires --body or --body-file"@, *read_file, gi));
            create_from_input(api, title, body_format, None, None, Some(parent), input, "Created child page")
        },
        PageCommand::Update { page, title, storage_body, version } => {
            ensure_writable(runtime)?;
            let ghost (gt, gb) = (title, storage_body);
            let s = page_update(api, &page, title, storage_body, version);
            let ghost g = s;
            proof {
                if !spec_is_blank(gt@) && !spec_is_blank(gb@) {
                    assert(api.update_page_post(
                        UpdatePageRequestView { page: page@, title: gt@, storage_body: gb@, version },
                        g,
                    ));
                }
            }
            page_action("Updated", s)
        },
        PageCommand::Move { page, to_parent, before, after, title } => {
            ensure_writable(runtime)?;
            let ghost gt = spec_move_target(to_parent, before, after);
            let target = parse_move_target(to_parent, before, after)?;
            assert(gt == Some(target));
            let ghost gtitle = opt_str(title);
            let s = page_move(api, &page, target, title);
            let ghost g = s;
            assert(api.move_page_post(MovePageRequestView { page: page@, target: gt->0@, title: gtitle }, g));
            page_action("Moved", s)
        },
        PageCommand::Archive { page } => {
            ensure_writable(runtime)?;
            let s = page_archive(api, &page);
            let ghost g = s;
            assert(api.archive_page_post(page@, g));
            match s {
                Ok(a) => Ok(CommandReport::Archive(a)),
                Err(e) => Err(e),
            }
        },
        PageCommand::Delete { page, mode, yes_im_sure } => {
            ensure_writable(runtime)?;
            let m = DeleteMode::from(mode);
            let s = page_delete(api, &page, m, yes_im_sure);
            let ghost g = s;
            proof {
                if !(m == DeleteMode::Purge && !yes_im_sure) {
                    assert(api.delete_page_post(page@, m, g));
                }
            }
            match s {
                Ok(_) => Ok(CommandReport::Text(copy_str("Page deletion request accepted."))),
                Err(e) => Err(e),
            }
        },
        PageCommand::Patch { page, base_file, patch_file, dry_run } => {
            let ghost (gbf, gpf) = (base_file, patch_file);
            let base = read_file(base_file);
            let ghost gb = base;
            assert(read_file.ensures((gbf,), gb));
            let base = match base {
                Ok(b) => b,
                Err(e) => {
                    return Err(e);
                },
            };
            let patch = read_file(patch_file);
            let ghost gp = patch;
            assert(read_file.ensures((gpf,), gp));
            let patch = match patch {
                Ok(p) => p,
                Err(e) => {
                    assert(spec_patch_with_base(*runtime, *api, page@, base@, gpf, dry_run, *read_file, Err(e)));
                    return Err(e);
                },
            };
            let applied = apply_unified_patch(base.as_str(), patch.as_str());
            let ghost ga = applied;
            assert(spec_patch_outcome(base@, patch@, ga));
            let r = match applied {
                Ok(updated) => if dry_run {
                    Ok(CommandReport::Text(updated))
                } else {
                    match ensure_writable(runtime) {
                        Err(e) => Err(e),
                        Ok(()) => {
                            let s = page_patch(api, &page, base.as_str(), patch.as_str());
                            let ghost g = s;
                            assert(spec_page_patch(*api, page@, base@, patch@, g));
                            page_action("Patched", s)
                        },
                    }
                },
                Err(e) => Err(e),
            };
            assert(spec_patch_applied(*runtime, *api, page@, base@, patch@, dry_run, ga, r));
            assert(spec_patch_with_base(*runtime, *api, page@, base@, gpf, dry_run, *read_file, r));
            r
        },
        PageCommand::Export { page, dest, format, skip_attachments } => {
            let dest = match dest {
                Some(d) => d,
                None => default_export_dir(&page),
            };
            Ok(CommandReport::Export { page, dest, format: BodyFormat::from(format), include_attachments: !skip_attachments })
        },
    }
}

/// A report of a request that gives nothing back: the text on success.
pub open spec fn spec_unit_report(s: Result<()>, text: Seq<char>, r: Result<CommandReport>) -> bool {
    match s {
        Ok(_) => r matches Ok(CommandReport::Text(t)) && t@ == text,
        Err(e) => r == Err::<CommandReport, ConfluenceCliError>(e),
    }
}

/// What an attachment command gives.
pub open spec fn spec_dispatch_attachment<A: AttachmentsApi>(
    runtime: RuntimeContext,
    api: A,
    command: AttachmentCommand,
    r: Result<CommandReport>,
) -> bool {
    match command {
        AttachmentCommand::List { page } => exists|s: Result<Vec<AttachmentSummary>>|
            #[trigger] api.list_attachments_post(page@, s) && match s {
                Ok(a) => r matches Ok(CommandReport::Attachments(b)) && b == a,
                Err(e) => r == Err::<CommandReport, ConfluenceCliError>(e),
            },
        AttachmentCommand::Download { page, dest } => r matches Ok(CommandReport::Download { page: p, dest: d })
            && p == page && d@ == match dest {
            Some(x) => x@,
            None => "attachments"@,
        },
        AttachmentCommand::Upload { page, file, comment, replace, minor_edit } => if spec_is_read_only(runtime) {
            is_read_only_error(r)
        } else {
            r matches Ok(CommandReport::Upload { page: p, file: f, comment: c, minor_edit: m, replace: x })
                && p == page && f == file && c == comment && m == minor_edit && x == replace
        },
        AttachmentCommand::Delete { page, attachment } => if spec_is_read_only(runtime) {
            is_read_only_error(r)
        } else if spec_is_blank(attachment@) {
            r matches Err(ConfluenceCliError::Config(m)) && m@ == "attachment delete requires a non-empty attachment id"@
        } else {
            exists|s: Result<()>|
                #[trigger] api.delete_attachment_post(page@, attachment@, s)
                    && spec_unit_report(s, "Attachment deletion request accepted."@, r)
        },
    }
}

/// Runs an attachment command against the service. Downloads and uploads are handed
/// back as requests, for the host moves the files.
pub fn dispatch_attachment<A: AttachmentsApi>(
    runtime: &RuntimeContext,
    api: &A,
    command: AttachmentCommand,
) -> (r: Result<CommandReport>)
    ensures
        spec_dispatch_attachment(*runtime, *api, command, r),
{
    match command {
        AttachmentCommand::List { page } => {
            let s = attachment_list(api, &page);
            let ghost g = s;
            assert(api.list_attachments_post(page@, g));
            match s {
                Ok(a) => Ok(CommandReport::Attachments(a)),
                Err(e) => Err(e),
            }
        },
        AttachmentCommand::Download { page, dest } => {
            let dest = match dest {
                Some(d) => d,
                None => copy_str("attachments"),
            };
            Ok(CommandReport::Download { page, dest })
        },
        AttachmentCommand::Upload { page, file, comment, replace, minor_edit } => {
            ensure_writable(runtime)?;
            Ok(CommandReport::Upload { page, file, comment, minor_edit, replace })
        },
        AttachmentCommand::Delete { page, attachment } => {
            ensure_writable(runtime)?;
            let s = attachment_delete(api, &page, attachment.as_str());
            let ghost g = s;
            proof {
                if !spec_is_blank(attachment@) {
                    assert(api.delete_attachment_post(page@, attachment@, g));
                }
            }
            match s {
                Ok(_) => Ok(CommandReport::Text(copy_str("Attachment deletion request accepted."))),
                Err(e) => Err(e),
            }
        },
    }
}

/// A report of one property for a service result.
pub open spec fn spec_property_report(s: Result<ContentProperty>, r: Result<CommandReport>) -> bool {
    match s {
        Ok(p) => r matches Ok(CommandReport::Property(q)) && q == p,
        Err(e) => r == Err::<CommandReport, ConfluenceCliError>(e),
    }
}

/// Setting a property from the text given for its value.
pub open spec fn spec_property_set_from<A: PropertiesApi>(
    api: A,
    page: PageRefView,
    key: Seq<char>,
    input: Result<String>,
    r: Result<CommandReport>,
) -> bool {
    match input {
        Err(e) => r == Err::<CommandReport, ConfluenceCliError>(e),
        Ok(t) => if !spec_json_valid(t@) {
            r matches Err(ConfluenceCliError::Config(m)) && crate::text::spec_starts_with(
                m@,
                "property value must be valid JSON: "@,
            )
        } else if spec_is_blank(key) {
            r matches Err(ConfluenceCliError::Config(m)) && m@ == "property key must not be empty"@
        } else {
            exists|v: Value, s: Result<ContentProperty>|
                #[trigger] api.set_property_post(page, key, v, s) && spec_property_report(s, r)
        },
    }
}

/// What a property command gives.
pub open spec fn spec_dispatch_property<A: PropertiesApi, F: Fn(String) -> Result<String>>(
    runtime: RuntimeContext,
    api: A,
    command: PropertyCommand,
    read_file: F,
    r: Result<CommandReport>,
) -> bool {
    match command {
        PropertyCommand::List { page } => exists|s: Result<Vec<ContentProperty>>|
            #[trigger] api.list_properties_post(page@, s) && match s {
                Ok(a) => r matches Ok(CommandReport::Properties(b)) && b == a,
                Err(e) => r == Err::<CommandReport, ConfluenceCliError>(e),
            },
        PropertyCommand::Get { page, key } => if spec_is_blank(key@) {
            r matches Err(ConfluenceCliError::Config(m)) && m@ == "property key must not be empty"@
        } else {
            exists|s: Result<ContentProperty>|
                #[trigger] api.get_property_post(page@, key@, s) && spec_property_report(s, r)
        },
        PropertyCommand::SetValue { page, key, value, value_file } => if spec_is_read_only(runtime) {
            is_read_only_error(r)
        } else {
            exists|input: Result<String>|
                #[trigger] spec_command_input(
                    value,
                    value_file,
                    "property set requires --value or --value-file"@,
                    read_file,
                    input,
                ) && spec_property_set_from(api, page@, key@, input, r)
        },
        PropertyCommand::Delete { page, key } => if spec_is_read_only(runtime) {
            is_read_only_error(r)
        } else if spec_is_blank(key@) {
            r matches Err(ConfluenceCliError::Config(m)) && m@ == "property key must not be empty"@
        } else {
            exists|s: Result<()>|
                #[trigger] api.delete_property_post(page@, key@, s)
                    && spec_unit_report(s, "Property deletion request accepted."@, r)
        },
    }
}

/// Runs a property command against the service; `read_file` reads a value file.
pub fn dispatch_property<A: PropertiesApi, F: Fn(String) -> Result<String>>(
    runtime: &RuntimeContext,
    api: &A,
    command: PropertyCommand,
    read_file: &F,
) -> (r: Result<CommandReport>)
    requires
        forall|p: String| read_file.requires((p,)),
    ensures
        spec_dispatch_property(*runtime, *api, command, *read_file, r),
{
    match command {
        PropertyCommand::List { page } => {
            let s = property_list(api, &page);
            let ghost g = s;
            assert(api.list_properties_post(page@, g));
            match s {
                Ok(a) => Ok(CommandReport::Properties(a)),
                Err(e) => Err(e),
            }
        },
        PropertyCommand::Get { page, key } => {
            let s = property_get(api, &page, key.as_str());
            let ghost g = s;
            proof {
                if !spec_is_blank(key@) {
                    assert(api.get_property_post(page@, key@, g));
                }
            }
            match s {
                Ok(p) => Ok(CommandReport::Property(p)),
                Err(e) => Err(e),
            }
        },
        PropertyCommand::SetValue { page, key, value, value_file } => {
            ensure_writable(runtime)?;
            let ghost (gv, gf) = (value, value_file);
            let input = read_command_input(value, value_file, "property set requires --value or --value-file", read_file);
            let ghost gi = input;
            assert(spec_command_input(gv, gf, "property set requires --value or --value-file"@, *read_file, gi));
            let text = match input {
                Ok(t) => t,
                Err(e) => {
                    return Err(e);
                },
            };
            let json = match parse_property_value(text.as_str()) {
                Ok(v) => v,
                Err(e) => {
                    return Err(e);
                },
            };
            let ghost gj = json;
            let s = property_set(api, &page, key.as_str(), json);
            let ghost g = s;
            proof {
                if !spec_is_blank(key@) {
                    assert(api.set_property_post(page@, key@, gj, g));
                }
            }
            match s {
                Ok(p) => Ok(CommandReport::Property(p)),
                Err(e) => Err(e),
            }
        },
        PropertyCommand::Delete { page, key } => {
            ensure_writable(runtime)?;
            let s = property_delete(api, &page, key.as_str());
            let ghost g = s;
            proof {
                if !spec_is_blank(key@) {
                    assert(api.delete_property_post(page@, key@, g));
                }
            }
            match s {
                Ok(_) => Ok(CommandReport::Text(copy_str("Property deletion request accepted."))),
                Err(e) => Err(e),
            }
        },
    }
}

/// A report of a change made to a comment, for a service result.
pub open spec fn spec_comment_action(s: Result<CommentSummary>, label: Seq<char>, r: Result<CommandReport>) -> bool {
    match s {
        Ok(c) => r matches Ok(CommandReport::CommentAction { label: l, comment }) && l@ == label && comment == c,
        Err(e) => r == Err::<CommandReport, ConfluenceCliError>(e),
    }
}

/// Creating a comment from its storage body and inline properties.
pub open spec fn spec_comment_created<A: CommentsApi>(
    api: A,
    page: PageRefView,
    body: Seq<char>,
    location: CommentLocation,
    parent: Option<Seq<char>>,
    props: Option<Value>,
    label: Seq<char>,
    r: Result<CommandReport>,
) -> bool {
    if spec_is_blank(body) {
        r matches Err(ConfluenceCliError::Config(m)) && m@ == "comment create requires a non-empty body"@
    } else if location == CommentLocation::Inline && props is None {
        r matches Err(ConfluenceCliError::NotImplemented(m)) && m@
            == "inline comment creation requires explicit inline properties"@
    } else {
        exists|s: Result<CommentSummary>|
            #[trigger] api.create_comment_post(
                CommentCreateRequestView {
                    page,
                    body_storage: body,
                    parent_id: parent,
                    location,
                    inline_properties: props,
                },
                s,
            ) && spec_comment_action(s, label, r)
    }
}

/// Creating a comment once its body is in storage markup, reading its inline properties.
pub open spec fn spec_comment_from_storage<A: CommentsApi, F: Fn(String) -> Result<String>>(
    api: A,
    page: PageRefView,
    storage: Result<String>,
    location: CommentLocation,
    parent: Option<Seq<char>>,
    props_inline: Option<String>,
    props_file: Option<String>,
    props_missing: Seq<char>,
    read_file: F,
    label: Seq<char>,
    r: Result<CommandReport>,
) -> bool {
    match storage {
        Err(e) => r == Err::<CommandReport, ConfluenceCliError>(e),
        Ok(body) => exists|props: Result<Option<Value>>|
            #[trigger] spec_optional_json(props_inline, props_file, props_missing, read_file, props) && match props {
                Err(e) => r == Err::<CommandReport, ConfluenceCliError>(e),
                Ok(p) => spec_comment_created(api, page, body@, location, parent, p, label, r),
            },
    }
}

/// Creating a comment from the text given for its body.
pub open spec fn spec_comment_from_input<A: CommentsApi, F: Fn(String) -> Result<String>>(
    api: A,
    page: PageRefView,
    input: Result<String>,
    format: super::args::CliBodyFormat,
    location: CommentLocation,
    parent: Option<Seq<char>>,
    props_inline: Option<String>,
    props_file: Option<String>,
    props_missing: Seq<char>,
    read_file: F,
    label: Seq<char>,
    r: Result<CommandReport>,
) -> bool {
    match input {
        Err(e) => r == Err::<CommandReport, ConfluenceCliError>(e),
        Ok(t) => exists|storage: Result<String>|
            #[trigger] spec_storage_body(t@, format, storage) && spec_comment_from_storage(
                api,
                page,
                storage,
                location,
                parent,
                props_inline,
                props_file,
                props_missing,
                read_file,
                label,
                r,
            ),
    }
}

/// The location filter a comment listing passes on.
pub open spec fn spec_location_filter(location: Option<super::args::CliCommentLocation>) -> Option<CommentLocation> {
    match location {
        Some(l) => Some(spec_comment_location(l)),
        None => None,
    }
}

/// What a comment command gives.
pub open spec fn spec_dispatch_comment<A: CommentsApi, F: Fn(String) -> Result<String>>(
    runtime: RuntimeContext,
    api: A,
    command: CommentCommand,
    read_file: F,
    r: Result<CommandReport>,
) -> bool {
    match command {
        CommentCommand::List { page, location } => exists|s: Result<Vec<CommentSummary>>|
            #[trigger] api.list_comments_post(page@, spec_location_filter(location), s) && match s {
                Ok(a) => r matches Ok(CommandReport::Comments(b)) && b == a,
                Err(e) => r == Err::<CommandReport, ConfluenceCliError>(e),
            },
        CommentCommand::Info { comment } => if spec_is_blank(comment@) {
            r matches Err(ConfluenceCliError::Config(m)) && m@ == "comment info requires a non-empty comment id"@
        } else {
            exists|s: Result<CommentSummary>|
                #[trigger] api.get_comment_post(comment@, s) && match s {
                    Ok(c) => r matches Ok(CommandReport::Comment(d)) && d == c,
                    Err(e) => r == Err::<CommandReport, ConfluenceCliError>(e),
                }
        },
        CommentCommand::Create {
            page,
            body,
            body_file,
            body_format,
            location,
            parent_id,
            inline_properties,
            inline_properties_file,
        } => if spec_is_read_only(runtime) {
            is_read_only_error(r)
        } else {
            exists|input: Result<String>|
                #[trigger] spec_command_input(body, body_file, "comment create requires --body or --body-file"@, read_file, input)
                    && spec_comment_from_input(
                    api,
                    page@,
                    input,
                    body_format,
                    spec_comment_location(location),
                    match parent_id {
                        Some(p) => Some(p@),
                        None => None,
                    },
                    inline_properties,
                    inline_properties_file,
                    if location == super::args::CliCommentLocation::Inline {
                        "inline comment creation requires --inline-properties or --inline-properties-file"@
                    } else {
                        ""@
                    },
                    read_file,
                    "Created comment"@,
                    r,
                )
        },
        CommentCommand::Reply {
            page,
            parent_id,
            body,
            body_file,
            body_format,
            location,
            inline_properties,
            inline_properties_file,
        } => if spec_is_read_only(runtime) {
            is_read_only_error(r)
        } else {
            exists|input: Result<String>|
                #[trigger] spec_command_input(body, body_file, "comment reply requires --body or --body-file"@, read_file, input)
                    && spec_comment_from_input(
                    api,
                    page@,
                    input,
                    body_format,
                    spec_comment_location(location),
                    Some(parent_id@),
                    inline_properties,
                    inline_properties_file,
                    if location == super::args::CliCommentLocation::Inline {
                        "inline comment reply requires --inline-properties or --inline-properties-file"@
                    } else {
                        ""@
                    },
                    read_file,
                    "Created reply"@,
                    r,
                )
        },
        CommentCommand::Delete { comment } => if spec_is_read_only(runtime) {
            is_read_only_error(r)
        } else if spec_is_blank(comment@) {
            r matches Err(ConfluenceCliError::Config(m)) && m@ == "comment delete requires a non-empty comment id"@
        } else {
            exists|s: Result<()>|
                #[trigger] api.delete_comment_post(comment@, s)
                    && spec_unit_report(s, "Comment deletion request accepted."@, r)
        },
        CommentCommand::Resolve { comment } => if spec_is_read_only(runtime) {
            is_read_only_error(r)
        } else if spec_is_blank(comment@) {
            r matches Err(ConfluenceCliError::Config(m)) && m@ == "comment resolve requires a non-empty comment id"@
        } else {
            exists|s: Result<CommentSummary>|
                #[trigger] api.set_resolution_post(comment@, true, s) && spec_comment_action(s, "Resolved comment"@, r)
        },
        CommentCommand::Reopen { comment } => if spec_is_read_only(runtime) {
            is_read_only_error(r)
        } else if spec_is_blank(comment@) {
            r matches Err(ConfluenceCliError::Config(m)) && m@ == "comment reopen requires a non-empty comment id"@
        } else {
            exists|s: Result<CommentSummary>|
                #[trigger] api.set_resolution_post(comment@, false, s) && spec_comment_action(s, "Reopened comment"@, r)
        },
    }
}

fn comment_action(label: &str, s: Result<CommentSummary>) -> (r: Result<CommandReport>)
    ensures
        spec_comment_action(s, label@, r),
{
    match s {
        Ok(comment) => Ok(CommandReport::CommentAction { label: copy_str(label), comment }),
        Err(e) => Err(e),
    }
}

/// Creates a comment or a reply from the command's inputs.
fn create_comment_from_inputs<A: CommentsApi, F: Fn(String) -> Result<String>>(
    api: &A,
    page: &PageRef,
    input: Result<String>,
    format: super::args::CliBodyFormat,
    location: CommentLocation,
    parent_id: Option<String>,
    props_inline: Option<String>,
    props_file: Option<String>,
    props_missing: &str,
    read_file: &F,
    label: &str,
) -> (r: Result<CommandReport>)
    requires
        forall|p: String| read_file.requires((p,)),
    ensures
        spec_comment_from_input(
            *api,
            page@,
            input,
            format,
            location,
            match parent_id {
                Some(p) => Some(p@),
                None => None,
            },
            props_inline,
            props_file,
            props_missing@,
            *read_file,
            label@,
            r,
        ),
{
    let text = match input {
        Ok(t) => t,
        Err(e) => {
            return Err(e);
        },
    };
    let ghost gt = text;
    let storage = convert_body_to_storage(text, format);
    let ghost gs = storage;
    assert(spec_storage_body(gt@, format, gs));
    let body = match storage {
        Ok(b) => b,
        Err(e) => {
            return Err(e);
        },
    };
    let ghost (pi, pf) = (props_inline, props_file);
    let props = read_optional_json(props_inline, props_file, props_missing, read_file);
    let ghost gp = props;
    assert(spec_optional_json(pi, pf, props_missing@, *read_file, gp));
    let props = match props {
        Ok(p) => p,
        Err(e) => {
            return Err(e);
        },
    };
    let ghost (gb, gpar, gprops) = (body, parent_id, props);
    let s = comment_create(api, page, body, location, parent_id, props);
    let ghost g = s;
    proof {
        if !spec_is_blank(gb@) && !(location == CommentLocation::Inline && gprops is None) {
            assert(api.create_comment_post(
                CommentCreateRequestView {
                    page: page@,
                    body_storage: gb@,
                    parent_id: match gpar {
                        Some(p) => Some(p@),
                        None => None,
                    },
                    location,
                    inline_properties: gprops,
                },
                g,
            ));
        }
    }
    comment_action(label, s)
}

/// Runs a comment command against the service; `read_file` reads the files the command
/// names.
pub fn dispatch_comment<A: CommentsApi, F: Fn(String) -> Result<String>>(
    runtime: &RuntimeContext,
    api: &A,
    command: CommentCommand,
    read_file: &F,
) -> (r: Result<CommandReport>)
    requires
        forall|p: String| read_file.requires((p,)),
    ensures
        spec_dispatch_comment(*runtime, *api, command, *read_file, r),
{
    match command {
        CommentCommand::List { page, location } => {
            let location: Option<CommentLocation> = match location {
                Some(l) => Some(CommentLocation::from(l)),
                None => None,
            };
            let s = comment_list(api, &page, location);
            let ghost g = s;
            assert(api.list_comments_post(page@, location, g));
            match s {
                Ok(a) => Ok(CommandReport::Comments(a)),
                Err(e) => Err(e),
            }
        },
        CommentCommand::Info { comment } => {
            let s = comment_info(api, comment.as_str());
            let ghost g = s;
            proof {
                if !spec_is_blank(comment@) {
                    assert(api.get_comment_post(comment@, g));
                }
            }
            match s {
                Ok(c) => Ok(CommandReport::Comment(c)),
                Err(e) => Err(e),
            }
        },
        CommentCommand::Create {
            page,
            body,
            body_file,
            body_format,
            location,
            parent_id,
            inline_properties,
            inline_properties_file,
        } => {
            ensure_writable(runtime)?;
            let ghost (gb, gf) = (body, body_file);
            let input = read_command_input(body, body_file, "comment create requires --body or --body-file", read_file);
            let ghost gi = input;
            assert(spec_command_input(gb, gf, "comment create requires --body or --body-file"@, *read_file, gi));
            let loc: CommentLocation = CommentLocation::from(location);
            let missing = if loc == CommentLocation::Inline {
                "inline comment creation requires --inline-properties or --inline-properties-file"
            } else {
                ""
            };
            create_comment_from_inputs(
                api,
                &page,
                input,
                body_format,
                loc,
                parent_id,
                inline_properties,
                inline_properties_file,
                missing,
                read_file,
                "Created comment",
            )
        },
        CommentCommand::Reply {
            page,
            parent_id,
            body,
            body_file,
            body_format,
            location,
            inline_properties,
            inline_properties_file,
        } => {
            ensure_writable(runtime)?;
            let ghost (gb, gf) = (body, body_file);
            let input = read_command_input(body, body_file, "comment reply requires --body or --body-file", read_file);
            let ghost gi = input;
            assert(spec_command_input(gb, gf, "comment reply requires --body or --body-file"@, *read_file, gi));
            let loc: CommentLocation = CommentLocation::from(location);
            let missing = if loc == CommentLocation::Inline {
                "inline comment reply requires --inline-properties or --inline-properties-file"
            } else {
                ""
            };
            create_comment_from_inputs(
                api,
                &page,
                input,
                body_format,
                loc,
                Some(parent_id),
                inline_properties,
                inline_properties_file,
                missing,
                read_file,
                "Created reply",
            )
        },
        CommentCommand::Delete { comment } => {
            ensure_writable(runtime)?;
            let s = comment_delete(api, comment.as_str());
            let ghost g = s;
            proof {
                if !spec_is_blank(comment@) {
                    assert(api.delete_comment_post(comment@, g));
                }
            }
            match s {
                Ok(_) => Ok(CommandReport::Text(copy_str("Comment deletion request accepted."))),
                Err(e) => Err(e),
            }
        },
        CommentCommand::Resolve { comment } => {
            ensure_writable(runtime)?;
            let s = comment_resolve(api, comment.as_str());
            let ghost g = s;
            proof {
                if !spec_is_blank(comment@) {
                    assert(api.set_resolution_post(comment@, true, g));
                }
            }
            comment_action("Resolved comment", s)
        },
        CommentCommand::Reopen { comment } => {
            ensure_writable(runtime)?;
            let s = comment_reopen(api, comment.as_str());
            let ghost g = s;
            proof {
                if !spec_is_blank(comment@) {
                    assert(api.set_resolution_post(comment@, false, g));
                }
            }
            comment_action("Reopened comment", s)
        },
    }
}

/// A report of converted text.
pub open spec fn spec_convert_report(text: Seq<char>, from: BodyFormat, to: BodyFormat, r: Result<CommandReport>) -> bool {
    exists|c: Result<String>|
        #[trigger] spec_convert_outcome(text, from, to, c) && match c {
            Ok(t) => r matches Ok(CommandReport::Text(x)) && x@ == t@,
            Err(e) => r == Err::<CommandReport, ConfluenceCliError>(e),
        }
}

/// What the convert command gives.
pub open spec fn spec_dispatch_convert<F: Fn(String) -> Result<String>>(
    command: ConvertCommand,
    read_file: F,
    r: Result<CommandReport>,
) -> bool {
    exists|input: Result<String>|
        #[trigger] spec_command_input(
            command.input,
            command.input_file,
            "convert requires --input or --input-file"@,
            read_file,
            input,
        ) && match input {
            Err(e) => r == Err::<CommandReport, ConfluenceCliError>(e),
            Ok(t) => spec_convert_report(t@, spec_body_format(command.from), spec_body_format(command.to), r),
        }
}

/// Converts the command's text between the formats it names.
pub fn dispatch_convert<F: Fn(String) -> Result<String>>(command: ConvertCommand, read_file: &F) -> (r: Result<CommandReport>)
    requires
        forall|p: String| read_file.requires((p,)),
    ensures
        spec_dispatch_convert(command, *read_file, r),
{
    let ghost cmd = command;
    let input = read_command_input(command.input, command.input_file, "convert requires --input or --input-file", read_file);
    let ghost gi = input;
    assert(spec_command_input(cmd.input, cmd.input_file, "convert requires --input or --input-file"@, *read_file, gi));
    let text = match input {
        Ok(t) => t,
        Err(e) => {
            return Err(e);
        },
    };
    let from: BodyFormat = BodyFormat::from(command.from);
    let to: BodyFormat = BodyFormat::from(command.to);
    let c = convert_text(text.as_str(), from, to);
    assert(spec_convert_outcome(text@, from, to, c));
    match c {
        Ok(t) => Ok(CommandReport::Text(t)),
        Err(e) => Err(e),
    }
}

/// Whether an attachment command changes Confluence.
pub open spec fn spec_attachment_mutates(command: AttachmentCommand) -> bool {
    command is Upload || command is Delete
}

/// Whether a property command changes Confluence.
pub open spec fn spec_property_mutates(command: PropertyCommand) -> bool {
    command is SetValue || command is Delete
}

/// Whether a comment command changes Confluence.
pub open spec fn spec_comment_mutates(command: CommentCommand) -> bool {
    !(command is List || command is Info)
}

/// A read-only profile refuses every page command that would change Confluence: none
/// succeeds, and all but a patch (which first reads its files) give the read-only error.
pub proof fn lemma_read_only_refuses_page_changes<A: PagesApi + AttachmentsApi, F: Fn(String) -> Result<String>>(
    runtime: RuntimeContext,
    api: A,
    command: PageCommand,
    read_file: F,
    r: Result<CommandReport>,
)
    requires
        spec_is_read_only(runtime),
        spec_page_mutates(command),
        spec_dispatch_page(runtime, api, command, read_file, r),
    ensures
        r is Err,
        !(command is Patch) ==> is_read_only_error(r),
{
}

/// A read-only profile refuses every attachment upload and deletion with the read-only
/// error.
pub proof fn lemma_read_only_refuses_attachment_changes<A: AttachmentsApi>(
    runtime: RuntimeContext,
    api: A,
    command: AttachmentCommand,
    r: Result<CommandReport>,
)
    requires
        spec_is_read_only(runtime),
        spec_attachment_mutates(command),
        spec_dispatch_attachment(runtime, api, command, r),
    ensures
        is_read_only_error(r),
{
}

/// A read-only profile refuses every property change with the read-only error.
pub proof fn lemma_read_only_refuses_property_changes<A: PropertiesApi, F: Fn(String) -> Result<String>>(
    runtime: RuntimeContext,
    api: A,
    command: PropertyCommand,
    read_file: F,
    r: Result<CommandReport>,
)
    requires
        spec_is_read_only(runtime),
        spec_property_mutates(command),
        spec_dispatch_property(runtime, api, command, read_file, r),
    ensures
        is_read_only_error(r),
{
}

/// A read-only profile refuses every comment change with the read-only error.
pub proof fn lemma_read_only_refuses_comment_changes<A: CommentsApi, F: Fn(String) -> Result<String>>(
    runtime: RuntimeContext,
    api: A,
    command: CommentCommand,
    read_file: F,
    r: Result<CommandReport>,
)
    requires
        spec_is_read_only(runtime),
        spec_comment_mutates(command),
        spec_dispatch_comment(runtime, api, command, read_file, r),
    ensures
        is_read_only_error(r),
{
}

} // verus!
