//! The inputs of commands: text given inline or in a file, JSON values, move targets.
use vstd::prelude::*;

use serde_json::Value;

use crate::convert::{convert_text, spec_convert_outcome};
use crate::domain::{BodyFormat, MoveTarget, PageRef, PageRefView};
use crate::error::{ConfluenceCliError, Result};
use crate::text::{copy_str, spec_decimal, u64_to_string};

use super::args::{spec_body_format, CliBodyFormat};

verus! {

/// Whether `serde_json` reads the text as one JSON value.
pub uninterp spec fn spec_json_valid(raw: Seq<char>) -> bool;

/// `serde_json::from_str::<Value>`: the JSON value the text holds, or the parser's
/// description of why it holds none. The value itself is not visible here.
#[verifier::external_body]
fn parse_json(raw: &str) -> (r: core::result::Result<Value, String>)
    ensures
        r is Ok <==> spec_json_valid(raw@),
{
    serde_json::from_str::<Value>(raw).map_err(|error| error.to_string())
}

/// The text a command works on: given inline or read from a file, not both, and one of
/// them, else `missing` is the error.
pub open spec fn spec_command_input<F: Fn(String) -> Result<String>>(
    inline: Option<String>,
    file: Option<String>,
    missing: Seq<char>,
    read_file: F,
    r: Result<String>,
) -> bool {
    match (inline, file) {
        (Some(i), None) => r matches Ok(s) && s@ == i@,
        (None, Some(p)) => read_file.ensures((p,), r),
        (Some(_), Some(_)) => r matches Err(ConfluenceCliError::Config(m)) && m@
            == "use either the inline value or file input, not both"@,
        (None, None) => r matches Err(ConfluenceCliError::Config(m)) && m@ == missing,
    }
}

/// The outcome of reading text as a JSON value.
pub open spec fn spec_json_outcome(raw: Seq<char>, r: Result<Option<Value>>) -> bool {
    &&& (spec_json_valid(raw) <==> r matches Ok(Some(_)))
    &&& !spec_json_valid(raw) ==> (r matches Err(ConfluenceCliError::Config(m)) && crate::text::spec_starts_with(
        m@,
        "JSON input must be valid JSON: "@,
    ))
}

/// A JSON value given inline or in a file; when neither is given it is absent, unless
/// `missing` is not empty, which is then the error.
pub open spec fn spec_optional_json<F: Fn(String) -> Result<String>>(
    inline: Option<String>,
    file: Option<String>,
    missing: Seq<char>,
    read_file: F,
    r: Result<Option<Value>>,
) -> bool {
    if inline is None && file is None {
        if missing.len() == 0 {
            r matches Ok(None)
        } else {
            r matches Err(ConfluenceCliError::Config(m)) && m@ == missing
        }
    } else {
        exists|raw: Result<String>|
            #[trigger] spec_command_input(inline, file, missing, read_file, raw) && match raw {
                Ok(t) => spec_json_outcome(t@, r),
                Err(e) => r == Err::<Option<Value>, ConfluenceCliError>(e),
            }
    }
}

/// The text a command works on, given inline or read from a file, not both.
pub fn read_command_input<F: Fn(String) -> Result<String>>(
    inline: Option<String>,
    file: Option<String>,
    missing_message: &str,
    read_file: &F,
) -> (r: Result<String>)
    requires
        forall|p: String| read_file.requires((p,)),
    ensures
        spec_command_input(inline, file, missing_message@, *read_file, r),
{
    match (inline, file) {
        (Some(input), None) => Ok(input),
        (None, Some(path)) => read_file(path),
        (Some(_), Some(_)) => Err(ConfluenceCliError::Config(copy_str("use either the inline value or file input, not both"))),
        (None, None) => Err(ConfluenceCliError::Config(copy_str(missing_message))),
    }
}

/// A JSON value given inline or in a file; when neither is given it is absent, unless
/// `missing_message` is not empty, which is then the error.
pub fn read_optional_json<F: Fn(String) -> Result<String>>(
    inline: Option<String>,
    file: Option<String>,
    missing_message: &str,
    read_file: &F,
) -> (r: Result<Option<Value>>)
    requires
        forall|p: String| read_file.requires((p,)),
    ensures
        spec_optional_json(inline, file, missing_message@, *read_file, r),
{
    if inline.is_none() && file.is_none() {
        if missing_message.is_empty() {
            return Ok(None);
        }
        return Err(ConfluenceCliError::Config(copy_str(missing_message)));
    }
    let ghost (gi, gf) = (inline, file);
    let raw = read_command_input(inline, file, missing_message, read_file);
    let ghost graw = raw;
    let raw = match raw {
        Ok(t) => t,
        Err(e) => {
            assert(spec_command_input(gi, gf, missing_message@, *read_file, graw));
            return Err(e);
        },
    };
    let r = match parse_json(raw.as_str()) {
        Ok(v) => Ok(Some(v)),
        Err(e) => {
            let mut m = copy_str("JSON input must be valid JSON: ");
            m.append(e.as_str());
            proof {
                reveal_strlit("JSON input must be valid JSON: ");
                assert(m@.take("JSON input must be valid JSON: "@.len() as int) =~= "JSON input must be valid JSON: "@);
            }
            Err(ConfluenceCliError::Config(m))
        },
    };
    assert(spec_command_input(gi, gf, missing_message@, *read_file, graw) && spec_json_outcome(raw@, r));
    r
}

/// A property value: the text read as JSON.
pub fn parse_property_value(input: &str) -> (r: Result<Value>)
    ensures
        r is Ok <==> spec_json_valid(input@),
        r matches Err(e) ==> (e matches ConfluenceCliError::Config(m) && crate::text::spec_starts_with(
            m@,
            "property value must be valid JSON: "@,
        )),
{
    match parse_json(input) {
        Ok(v) => Ok(v),
        Err(e) => {
            let mut m = copy_str("property value must be valid JSON: ");
            m.append(e.as_str());
            proof {
                reveal_strlit("property value must be valid JSON: ");
                assert(m@.take("property value must be valid JSON: "@.len() as int) =~= "property value must be valid JSON: "@);
            }
            Err(ConfluenceCliError::Config(m))
        },
    }
}

/// A body in storage markup: as given for storage, else converted.
pub open spec fn spec_storage_body(body: Seq<char>, format: CliBodyFormat, r: Result<String>) -> bool {
    if format == CliBodyFormat::Storage {
        r matches Ok(s) && s@ == body
    } else {
        spec_convert_outcome(body, spec_body_format(format), BodyFormat::Storage, r)
    }
}

/// A body in storage markup: as given for storage, else converted.
pub fn convert_body_to_storage(body: String, format: CliBodyFormat) -> (r: Result<String>)
    ensures
        spec_storage_body(body@, format, r),
{
    let f: BodyFormat = BodyFormat::from(format);
    match f {
        BodyFormat::Storage => Ok(body),
        _ => convert_text(body.as_str(), f, BodyFormat::Storage),
    }
}

/// The move target given by exactly one of the three options.
pub fn parse_move_target(to_parent: Option<PageRef>, before: Option<PageRef>, after: Option<PageRef>) -> (r: Result<MoveTarget>)
    ensures
        ({
            let count = (if to_parent is Some { 1int } else { 0int }) + (if before is Some { 1int } else { 0int }) + (if after is Some { 1int } else { 0int });
            if count != 1 {
                r matches Err(ConfluenceCliError::Config(m)) && m@
                    == "page move requires exactly one of --to-parent, --before, or --after"@
            } else {
                match (to_parent, before, after) {
                    (Some(p), _, _) => r == Ok::<MoveTarget, ConfluenceCliError>(MoveTarget::Parent(p)),
                    (_, Some(p), _) => r == Ok::<MoveTarget, ConfluenceCliError>(MoveTarget::Before(p)),
                    (_, _, Some(p)) => r == Ok::<MoveTarget, ConfluenceCliError>(MoveTarget::After(p)),
                    _ => false,
                }
            }
        }),
{
    let count: usize = (if to_parent.is_some() { 1 } else { 0 }) + (if before.is_some() { 1 } else { 0 }) + (if after.is_some() { 1 } else { 0 });
    if count != 1 {
        return Err(ConfluenceCliError::Config(copy_str("page move requires exactly one of --to-parent, --before, or --after")));
    }
    match (to_parent, before, after) {
        (Some(p), _, _) => Ok(MoveTarget::Parent(p)),
        (_, Some(p), _) => Ok(MoveTarget::Before(p)),
        (_, _, Some(p)) => Ok(MoveTarget::After(p)),
        _ => Err(ConfluenceCliError::Config(copy_str("page move requires exactly one of --to-parent, --before, or --after"))),
    }
}

/// The directory an export goes to when none is given.
pub open spec fn spec_default_export_dir(page: PageRefView) -> Seq<char> {
    match page {
        PageRefView::Id(v) => "page-export-"@ + spec_decimal(v as nat),
        PageRefView::Url(_) => "page-export"@,
    }
}

/// The directory an export goes to when none is given: named after the page id.
pub fn default_export_dir(page: &PageRef) -> (r: String)
    ensures
        r@ == spec_default_export_dir(page@),
{
    match page {
        PageRef::Id(id) => {
            let mut s = copy_str("page-export-");
            let digits = u64_to_string(id.get());
            s.append(digits.as_str());
            s
        },
        PageRef::Url(_) => copy_str("page-export"),
    }
}

} // verus!
