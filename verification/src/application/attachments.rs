//! Attachment operations.
use vstd::prelude::*;

use crate::domain::PageRef;
use crate::error::{ConfluenceCliError, Result, is_config_error};
use crate::text::{
    chars_of, copy_str, push_char, push_chars, push_str, spec_decimal, spec_is_blank,
    str_is_blank, u64_to_string,
};

use super::models::AttachmentSummary;
use super::ports::AttachmentsApi;

verus! {

/// A page's attachments.
pub fn attachment_list<A: AttachmentsApi>(api: &A, page: &PageRef) -> (r: Result<Vec<AttachmentSummary>>)
    ensures
        api.list_attachments_post(page@, r),
{
    api.list_attachments(page)
}

/// Deletes an attachment; a blank id is refused.
pub fn attachment_delete<A: AttachmentsApi>(api: &A, page: &PageRef, attachment_id: &str) -> (r: Result<()>)
    ensures
        spec_is_blank(attachment_id@) ==> is_config_error(
            r,
            "attachment delete requires a non-empty attachment id"@,
        ),
        !spec_is_blank(attachment_id@) ==> api.delete_attachment_post(page@, attachment_id@, r),
{
    if str_is_blank(attachment_id) {
        return Err(
            ConfluenceCliError::Config(copy_str("attachment delete requires a non-empty attachment id")),
        );
    }
    api.delete_attachment(page, attachment_id)
}

/// The position of the last `.` in `s`, if any.
pub open spec fn spec_last_dot(s: Seq<char>) -> Option<int>
    decreases s.len(),
{
    if s.len() == 0 {
        None
    } else if s.last() == '.' {
        Some(s.len() - 1)
    } else {
        spec_last_dot(s.drop_last())
    }
}

/// The stem and extension of a file name, as `Path::file_stem` and `Path::extension`
/// split it: at the last `.`, unless that dot starts the name.
pub open spec fn spec_split_extension(name: Seq<char>) -> (Seq<char>, Option<Seq<char>>) {
    match spec_last_dot(name) {
        Some(i) => if i == 0 {
            (name, None)
        } else {
            (name.take(i), Some(name.skip(i + 1)))
        },
        None => (name, None),
    }
}

/// The name tried for the `index`-th copy of a file: the name itself first, then
/// `stem (index).extension`.
pub open spec fn spec_candidate_name(name: Seq<char>, index: u64) -> Seq<char> {
    if index == 0 {
        name
    } else {
        let (stem, ext) = spec_split_extension(name);
        let numbered = stem + seq![' ', '('] + spec_decimal(index as nat) + seq![')'];
        match ext {
            Some(e) => numbered + seq!['.'] + e,
            None => numbered,
        }
    }
}

fn last_dot(s: &[char]) -> (r: Option<usize>)
    ensures
        match r {
            Some(i) => spec_last_dot(s@) == Some(i as int) && i < s.len(),
            None => spec_last_dot(s@) is None,
        },
{
    let mut i = s.len();
    assert(s@.take(s.len() as int) == s@);
    while i > 0
        invariant
            i <= s.len(),
            spec_last_dot(s@) == spec_last_dot(s@.take(i as int)),
        decreases i,
    {
        assert(s@.take(i as int).drop_last() == s@.take(i - 1));
        if s[i - 1] == '.' {
            return Some(i - 1);
        }
        i = i - 1;
    }
    None
}

/// The name under which the `index`-th download of an attachment called `file_name` is
/// saved: the name itself, then numbered variants that keep the extension.
pub fn attachment_candidate_name(file_name: &str, index: u64) -> (r: String)
    ensures
        r@ == spec_candidate_name(file_name@, index),
{
    if index == 0 {
        return copy_str(file_name);
    }
    let chars = chars_of(file_name);
    let dot = last_dot(chars.as_slice());
    let mut out = String::new();
    let (stem_end, has_ext) = match dot {
        Some(i) => if i == 0 {
            (chars.len(), false)
        } else {
            (i, true)
        },
        None => (chars.len(), false),
    };
    let mut k: usize = 0;
    while k < stem_end
        invariant
            stem_end <= chars.len(),
            k <= stem_end,
            out@ == chars@.take(k as int),
        decreases stem_end - k,
    {
        push_char(&mut out, chars[k]);
        k = k + 1;
        assert(out@ == chars@.take(k as int));
    }
    push_char(&mut out, ' ');
    push_char(&mut out, '(');
    let digits = u64_to_string(index);
    push_str(&mut out, digits.as_str());
    push_char(&mut out, ')');
    if has_ext {
        push_char(&mut out, '.');
        let mut j = stem_end + 1;
        while j < chars.len()
            invariant
                stem_end < chars.len(),
                stem_end + 1 <= j <= chars.len(),
                out@ == chars@.take(stem_end as int) + seq![' ', '('] + spec_decimal(index as nat)
                    + seq![')', '.'] + chars@.subrange(stem_end + 1, j as int),
            decreases chars.len() - j,
        {
            push_char(&mut out, chars[j]);
            j = j + 1;
        }
        assert(chars@.subrange(stem_end + 1, chars.len() as int) == chars@.skip(stem_end + 1));
    }
    out
}

} // verus!
