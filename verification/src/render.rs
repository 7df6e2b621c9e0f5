//! The human-readable text of what commands report: pages, attachments, comments,
//! profiles and the acknowledgements of changes.
use vstd::prelude::*;

use crate::application::models::{AttachmentSummary, CommentSummary, PageSummary};
use crate::application::runtime::RuntimeConfig;
use crate::http::{comment_location_name, spec_location_name};
use crate::text::{copy_str, join, spec_decimal, spec_join, str_eq, strings_view, u64_to_string};

verus! {

/// The lines joined, or the note for no lines.
pub open spec fn spec_lines_or(lines: Seq<Seq<char>>, empty: Seq<char>) -> Seq<char> {
    if lines.len() == 0 {
        empty
    } else {
        spec_join(lines, "\n"@)
    }
}

fn lines_or(lines: &Vec<String>, empty: &str) -> (r: String)
    ensures
        r@ == spec_lines_or(strings_view(lines@), empty@),
{
    if lines.len() == 0 {
        copy_str(empty)
    } else {
        join(lines.as_slice(), "\n")
    }
}

/// `<id>\t<title>`.
pub open spec fn spec_page_line(p: PageSummary) -> Seq<char> {
    spec_decimal(p.id as nat) + "\t"@ + p.title@
}

fn page_line(p: &PageSummary) -> (r: String)
    ensures
        r@ == spec_page_line(*p),
{
    let mut s = u64_to_string(p.id);
    s.append("\t");
    s.append(p.title.as_str());
    s
}

/// The lines describing a page: its id and title, then its status, space and version
/// where known.
pub open spec fn spec_page_summary_lines(p: PageSummary) -> Seq<Seq<char>> {
    seq!["id: "@ + spec_decimal(p.id as nat), "title: "@ + p.title@] + match p.status {
        Some(s) => seq!["status: "@ + s@],
        None => Seq::empty(),
    } + match p.space_id {
        Some(s) => seq!["space-id: "@ + s@],
        None => Seq::empty(),
    } + match p.version {
        Some(v) => seq!["version: "@ + spec_decimal(v as nat)],
        None => Seq::empty(),
    }
}

/// A page's description.
pub fn render_page_summary_human(summary: &PageSummary) -> (r: String)
    ensures
        r@ == spec_join(spec_page_summary_lines(*summary), "\n"@),
{
    let mut lines: Vec<String> = Vec::new();
    let mut id = copy_str("id: ");
    id.append(u64_to_string(summary.id).as_str());
    lines.push(id);
    let mut title = copy_str("title: ");
    title.append(summary.title.as_str());
    lines.push(title);
    let ghost head = strings_view(lines@);
    assert(head =~= seq!["id: "@ + spec_decimal(summary.id as nat), "title: "@ + summary.title@]);
    if let Some(status) = &summary.status {
        let mut s = copy_str("status: ");
        s.append(status.as_str());
        lines.push(s);
    }
    let ghost with_status = strings_view(lines@);
    assert(with_status =~= head + match summary.status {
        Some(s) => seq!["status: "@ + s@],
        None => Seq::empty(),
    });
    if let Some(space_id) = &summary.space_id {
        let mut s = copy_str("space-id: ");
        s.append(space_id.as_str());
        lines.push(s);
    }
    let ghost with_space = strings_view(lines@);
    assert(with_space =~= with_status + match summary.space_id {
        Some(s) => seq!["space-id: "@ + s@],
        None => Seq::empty(),
    });
    if let Some(version) = summary.version {
        let mut s = copy_str("version: ");
        s.append(u64_to_string(version as u64).as_str());
        lines.push(s);
    }
    assert(strings_view(lines@) =~= with_space + match summary.version {
        Some(v) => seq!["version: "@ + spec_decimal(v as nat)],
        None => Seq::empty(),
    });
    join(lines.as_slice(), "\n")
}

/// Pages one per line, or the note for none.
pub fn render_page_summaries_human(summaries: &[PageSummary], empty_message: &str) -> (r: String)
    ensures
        r@ == spec_lines_or(summaries@.map_values(|p: PageSummary| spec_page_line(p)), empty_message@),
{
    let mut lines: Vec<String> = Vec::new();
    let mut i: usize = 0;
    while i < summaries.len()
        invariant
            i <= summaries.len(),
            strings_view(lines@) == summaries@.take(i as int).map_values(|p: PageSummary| spec_page_line(p)),
        decreases summaries.len() - i,
    {
        let ghost before = strings_view(lines@);
        lines.push(page_line(&summaries[i]));
        assert(summaries@.take(i + 1) == summaries@.take(i as int).push(summaries@[i as int]));
        assert(strings_view(lines@) =~= before.push(spec_page_line(summaries@[i as int])));
        i = i + 1;
    }
    assert(summaries@.take(summaries.len() as int) == summaries@);
    lines_or(&lines, empty_message)
}

/// `<id>\t<title>\t<media type>\t<size> bytes`.
pub open spec fn spec_attachment_line(a: AttachmentSummary) -> Seq<char> {
    a.id@ + "\t"@ + a.title@ + "\t"@ + a.media_type@ + "\t"@ + spec_decimal(a.file_size as nat) + " bytes"@
}

fn attachment_line(a: &AttachmentSummary) -> (r: String)
    ensures
        r@ == spec_attachment_line(*a),
{
    let mut s = copy_str(a.id.as_str());
    s.append("\t");
    s.append(a.title.as_str());
    s.append("\t");
    s.append(a.media_type.as_str());
    s.append("\t");
    s.append(u64_to_string(a.file_size).as_str());
    s.append(" bytes");
    s
}

/// Attachments one per line, or a note for none.
pub fn render_attachments_human(attachments: &[AttachmentSummary]) -> (r: String)
    ensures
        r@ == spec_lines_or(
            attachments@.map_values(|a: AttachmentSummary| spec_attachment_line(a)),
            "No attachments found."@,
        ),
{
    let mut lines: Vec<String> = Vec::new();
    let mut i: usize = 0;
    while i < attachments.len()
        invariant
            i <= attachments.len(),
            strings_view(lines@) == attachments@.take(i as int).map_values(
                |a: AttachmentSummary| spec_attachment_line(a),
            ),
        decreases attachments.len() - i,
    {
        let ghost before = strings_view(lines@);
        lines.push(attachment_line(&attachments[i]));
        assert(attachments@.take(i + 1) == attachments@.take(i as int).push(attachments@[i as int]));
        assert(strings_view(lines@) =~= before.push(spec_attachment_line(attachments@[i as int])));
        i = i + 1;
    }
    assert(attachments@.take(attachments.len() as int) == attachments@);
    lines_or(&lines, "No attachments found.")
}

/// A comment: its id with its location, author and resolution where known, then its
/// body indented on the next line.
pub open spec fn spec_comment_block(c: CommentSummary) -> Seq<char> {
    c.id@ + match c.location {
        Some(l) => " ["@ + spec_location_name(l) + "]"@,
        None => Seq::empty(),
    } + match c.author {
        Some(a) => " by "@ + a@,
        None => Seq::empty(),
    } + match c.resolution {
        Some(s) => " ("@ + s@ + ")"@,
        None => Seq::empty(),
    } + "\n  "@ + c.body_storage@
}

fn comment_block(c: &CommentSummary) -> (r: String)
    ensures
        r@ == spec_comment_block(*c),
{
    let mut s = copy_str(c.id.as_str());
    let ghost s0 = s@;
    if let Some(location) = c.location {
        s.append(" [");
        s.append(comment_location_name(location));
        s.append("]");
    }
    let ghost s1 = s@;
    assert(s1 == s0 + match c.location {
        Some(l) => " ["@ + spec_location_name(l) + "]"@,
        None => Seq::<char>::empty(),
    });
    if let Some(author) = &c.author {
        s.append(" by ");
        s.append(author.as_str());
    }
    let ghost s2 = s@;
    assert(s2 == s1 + match c.author {
        Some(a) => " by "@ + a@,
        None => Seq::<char>::empty(),
    });
    if let Some(resolution) = &c.resolution {
        s.append(" (");
        s.append(resolution.as_str());
        s.append(")");
    }
    let ghost s3 = s@;
    assert(s3 == s2 + match c.resolution {
        Some(x) => " ("@ + x@ + ")"@,
        None => Seq::<char>::empty(),
    });
    s.append("\n  ");
    s.append(c.body_storage.as_str());
    s
}

/// One comment's text.
pub fn render_comment_human(comment: &CommentSummary) -> (r: String)
    ensures
        r@ == spec_comment_block(*comment),
{
    comment_block(comment)
}

/// Comments one after another, or a note for none.
pub fn render_comments_human(comments: &[CommentSummary]) -> (r: String)
    ensures
        r@ == spec_lines_or(
            comments@.map_values(|c: CommentSummary| spec_comment_block(c)),
            "No comments found."@,
        ),
{
    let mut lines: Vec<String> = Vec::new();
    let mut i: usize = 0;
    while i < comments.len()
        invariant
            i <= comments.len(),
            strings_view(lines@) == comments@.take(i as int).map_values(|c: CommentSummary| spec_comment_block(c)),
        decreases comments.len() - i,
    {
        let ghost before = strings_view(lines@);
        lines.push(comment_block(&comments[i]));
        assert(comments@.take(i + 1) == comments@.take(i as int).push(comments@[i as int]));
        assert(strings_view(lines@) =~= before.push(spec_comment_block(comments@[i as int])));
        i = i + 1;
    }
    assert(comments@.take(comments.len() as int) == comments@);
    lines_or(&lines, "No comments found.")
}

/// A profile's line: `* ` before the active one, two spaces before the others.
pub open spec fn spec_profile_line(name: Seq<char>, active: Option<String>) -> Seq<char> {
    (if active matches Some(a) && a@ == name {
        "* "@
    } else {
        "  "@
    }) + name
}

/// The configured profiles one per line with the active one marked, or a note for
/// none.
pub fn render_profiles_human(runtime: &RuntimeConfig) -> (r: String)
    ensures
        r@ == spec_lines_or(
            strings_view(runtime.profiles.profiles@).map_values(
                |n: Seq<char>| spec_profile_line(n, runtime.profiles.active_profile),
            ),
            "No profiles configured."@,
        ),
{
    let names = &runtime.profiles.profiles;
    let ghost all = strings_view(names@).map_values(
        |n: Seq<char>| spec_profile_line(n, runtime.profiles.active_profile),
    );
    let mut lines: Vec<String> = Vec::new();
    let mut i: usize = 0;
    while i < names.len()
        invariant
            i <= names.len(),
            names == &runtime.profiles.profiles,
            all == strings_view(names@).map_values(
                |n: Seq<char>| spec_profile_line(n, runtime.profiles.active_profile),
            ),
            strings_view(lines@) == all.take(i as int),
        decreases names.len() - i,
    {
        let is_active = match &runtime.profiles.active_profile {
            Some(a) => str_eq(a.as_str(), names[i].as_str()),
            None => false,
        };
        let mut line = if is_active {
            copy_str("* ")
        } else {
            copy_str("  ")
        };
        line.append(names[i].as_str());
        assert(line@ == spec_profile_line(names@[i as int]@, runtime.profiles.active_profile));
        assert(strings_view(names@)[i as int] == names@[i as int]@);
        let ghost before = strings_view(lines@);
        lines.push(line);
        assert(all[i as int] == spec_profile_line(names@[i as int]@, runtime.profiles.active_profile));
        assert(strings_view(lines@) =~= before.push(all[i as int]));
        assert(strings_view(lines@) =~= all.take(i + 1));
        i = i + 1;
    }
    assert(all.take(names.len() as int) =~= all);
    lines_or(&lines, "No profiles configured.")
}

/// `<label> <title> [<id>]`.
pub fn render_page_action(label: &str, page: &PageSummary) -> (r: String)
    ensures
        r@ == label@ + " "@ + page.title@ + " ["@ + spec_decimal(page.id as nat) + "]"@,
{
    let mut s = copy_str(label);
    s.append(" ");
    s.append(page.title.as_str());
    s.append(" [");
    s.append(u64_to_string(page.id).as_str());
    s.append("]");
    s
}

/// `Archive task queued: <task id>`.
pub fn render_archive_task(task_id: &str) -> (r: String)
    ensures
        r@ == "Archive task queued: "@ + task_id@,
{
    let mut s = copy_str("Archive task queued: ");
    s.append(task_id);
    s
}

/// `<label> <comment id>`.
pub fn render_comment_action(label: &str, comment: &CommentSummary) -> (r: String)
    ensures
        r@ == label@ + " "@ + comment.id@,
{
    let mut s = copy_str(label);
    s.append(" ");
    s.append(comment.id.as_str());
    s
}

} // verus!
