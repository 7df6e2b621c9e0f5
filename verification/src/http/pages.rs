//! The page requests' own logic: which representation a read asks for, how a text
//! search is written in CQL, and the steps of a move.
use vstd::prelude::*;

use crate::application::models::{MovePageRequest, PageBody};
use crate::config::opt_view;
use crate::domain::{BodyFormat, MoveTarget, MoveTargetView, PageId, PageRefView};
use crate::error::{ConfluenceCliError, Result};
use crate::text::{copy_str, push_char, spec_decimal, u64_to_string};

use super::dto::{spec_body_value, PageV1};
use super::{
    spec_extract_page_id, spec_same_space, spec_url_encode, spec_v1_url, url_encode,
    validate_same_space, HttpConfluenceApi,
};

verus! {

/// The API name of the representation a read asks for; markdown is converted locally
/// and is not asked of the server.
pub open spec fn spec_read_format_name(format: BodyFormat) -> Option<Seq<char>> {
    match format {
        BodyFormat::Storage => Some("storage"@),
        BodyFormat::Markdown => None,
        BodyFormat::Html => Some("view"@),
        BodyFormat::Text => Some("export_view"@),
    }
}

/// The API name of the representation a read asks for.
pub fn read_format_name(format: BodyFormat) -> (r: Result<&'static str>)
    ensures
        match spec_read_format_name(format) {
            Some(n) => r matches Ok(s) && s@ == n,
            None => r matches Err(ConfluenceCliError::NotImplemented(m)) && m@
                == "server-side markdown reads are not supported; use local conversion"@,
        },
{
    match format {
        BodyFormat::Storage => Ok("storage"),
        BodyFormat::Markdown => Err(
            ConfluenceCliError::NotImplemented(
                copy_str("server-side markdown reads are not supported; use local conversion"),
            ),
        ),
        BodyFormat::Html => Ok("view"),
        BodyFormat::Text => Ok("export_view"),
    }
}

/// The text with each `"` escaped by a backslash.
pub open spec fn spec_escape_quotes(s: Seq<char>) -> Seq<char>
    decreases s.len(),
{
    if s.len() == 0 {
        Seq::empty()
    } else if s.last() == '"' {
        spec_escape_quotes(s.drop_last()) + seq!['\\', '"']
    } else {
        spec_escape_quotes(s.drop_last()).push(s.last())
    }
}

/// The CQL query that finds pages whose text contains `query`.
pub open spec fn spec_text_search_cql(query: Seq<char>) -> Seq<char> {
    "type=page and text~\""@ + spec_escape_quotes(query) + "\""@
}

/// The CQL query that finds pages whose text contains `query`.
pub fn text_search_cql(query: &str) -> (r: String)
    ensures
        r@ == spec_text_search_cql(query@),
{
    let chars = crate::text::chars_of(query);
    let mut out = copy_str("type=page and text~\"");
    let ghost base = out@;
    let mut i: usize = 0;
    while i < chars.len()
        invariant
            i <= chars.len(),
            chars@ == query@,
            out@ == base + spec_escape_quotes(chars@.take(i as int)),
        decreases chars.len() - i,
    {
        let c = chars[i];
        assert(chars@.take(i + 1).drop_last() == chars@.take(i as int));
        let ghost before = out@;
        if c == '"' {
            push_char(&mut out, '\\');
            push_char(&mut out, '"');
            assert(out@ == before + seq!['\\', '"']);
        } else {
            push_char(&mut out, c);
        }
        i = i + 1;
    }
    assert(chars@.take(chars.len() as int) == chars@);
    push_char(&mut out, '"');
    proof {
        reveal_strlit("\"");
        assert("\""@ == seq!['"']);
    }
    out
}

impl HttpConfluenceApi {
    /// The first address of a CQL search, 25 results a page.
    pub fn search_url(&self, cql: &str) -> (r: String)
        ensures
            r@ == spec_v1_url(self.config(), "/content/search"@) + "?cql="@ + spec_url_encode(cql@) + "&limit=25"@,
    {
        let mut s = self.v1_url("/content/search");
        s.append("?cql=");
        let encoded = url_encode(cql);
        s.append(encoded.as_str());
        s.append("&limit=25");
        s
    }
}

/// A read page: its summary, the representation, and the content in it (empty when the
/// response carries none).
pub fn page_body_from(response: PageV1, format: BodyFormat, format_name: &str) -> (r: PageBody)
    ensures
        r.format == format,
        r.page.title@ == response.title@,
        r.content@ == match spec_body_value(response.body, format_name@) {
            Some(v) => v,
            None => Seq::empty(),
        },
{
    let content = match response.body_value(format_name) {
        Some(v) => v,
        None => String::new(),
    };
    PageBody { page: response.into_summary(), format, content }
}

/// One more than a version number; a version at the top of its range cannot be followed.
pub fn next_version_number(current: u32) -> (r: Result<u32>)
    ensures
        current < u32::MAX ==> (r matches Ok(v) && v == current + 1),
        current == u32::MAX ==> (r matches Err(ConfluenceCliError::Config(m)) && m@
            == "page version cannot be incremented"@),
{
    match current.checked_add(1) {
        Some(v) => Ok(v),
        None => Err(ConfluenceCliError::Config(copy_str("page version cannot be incremented"))),
    }
}

/// The version a property is written with: one past the stored version, or 1 for a
/// property not stored yet.
pub fn next_property_version(stored: Option<u32>) -> (r: Result<u32>)
    ensures
        stored is None ==> (r matches Ok(v) && v == 1),
        stored matches Some(s) ==> (s < u32::MAX ==> (r matches Ok(v) && v == s + 1)),
        stored matches Some(s) ==> (s == u32::MAX ==> (r matches Err(ConfluenceCliError::Config(m)) && m@
            == "property version cannot be incremented"@)),
{
    match stored {
        None => Ok(1),
        Some(s) => match s.checked_add(1) {
            Some(v) => Ok(v),
            None => Err(ConfluenceCliError::Config(copy_str("property version cannot be incremented"))),
        },
    }
}

/// Where a move stands between the host's fetches.
pub enum MoveStage {
    /// Nothing fetched yet.
    Start,
    /// The page being moved has been asked for.
    AwaitCurrent { page_id: PageId },
    /// The page being moved is known; the target has been asked for.
    AwaitTarget { page_id: PageId, target_id: PageId, current: PageV1 },
}

/// The body of a move under a new parent, which rewrites the page with its new
/// ancestor and the next version.
#[derive(Debug, Clone, PartialEq, Eq)]
pub struct MovePayload {
    pub id: String,
    pub title: String,
    pub status: String,
    pub ancestor_id: String,
    pub body: String,
    pub version: u32,
}

/// What the host does next for a move.
pub enum MoveAction {
    /// Fetch the page with these expansions, and step again with it.
    Fetch { page_id: PageId, expand: String },
    /// Send the move: a PUT to the address, with the payload as its JSON body when there
    /// is one; the response is the moved page.
    Put { url: String, payload: Option<MovePayload> },
}

/// The page ids a move target names.
pub open spec fn spec_target_ref(t: MoveTargetView) -> PageRefView {
    match t {
        MoveTargetView::Parent(p) => p,
        MoveTargetView::Before(p) => p,
        MoveTargetView::After(p) => p,
    }
}

/// The numeric id of a page reference, if it has one.
pub open spec fn spec_ref_id(p: PageRefView) -> Option<u64> {
    match p {
        PageRefView::Id(v) => Some(v),
        PageRefView::Url(u) => spec_extract_page_id(u),
    }
}

/// The error for a reference without a numeric id.
pub open spec fn is_invalid_ref<T>(r: Result<T>, p: PageRefView) -> bool {
    match p {
        PageRefView::Url(u) => r matches Err(ConfluenceCliError::InvalidPageRef(m)) && m@ == u,
        PageRefView::Id(_) => false,
    }
}

/// The word that places a page next to its target.
pub open spec fn spec_position(t: MoveTargetView) -> Seq<char> {
    match t {
        MoveTargetView::Before(_) => "before"@,
        _ => "after"@,
    }
}

/// The payload of a move under a new parent.
pub open spec fn spec_move_payload(
    page_id: u64,
    target_id: u64,
    current: PageV1,
    title: Option<Seq<char>>,
    p: MovePayload,
) -> bool {
    &&& p.id@ == spec_decimal(page_id as nat)
    &&& p.title@ == match title {
        Some(t) => t,
        None => current.title@,
    }
    &&& p.status@ == match current.status {
        Some(s) => s@,
        None => "current"@,
    }
    &&& p.ancestor_id@ == spec_decimal(target_id as nat)
    &&& p.body@ == match spec_body_value(current.body, "storage"@) {
        Some(v) => v,
        None => Seq::empty(),
    }
    &&& current.version matches Some(v) && p.version == v.number + 1
}

impl HttpConfluenceApi {
    /// One step of moving a page. From the start it asks for the page being moved; with
    /// that page it asks for the target (the new parent with its space, or the sibling
    /// with its space and ancestors), refusing a rename next to a sibling; with the
    /// target it checks that both are in one space and says what to send: for a new
    /// parent the page rewritten under it with the next version, for a sibling the move
    /// before or after it, refused when the sibling is at the top level.
    pub fn move_page_step(&self, request: &MovePageRequest, stage: MoveStage, fetched: Option<PageV1>) -> (r: Result<
        (MoveStage, MoveAction),
    >)
        requires
            !(stage is Start) ==> fetched is Some,
        ensures
            stage is Start ==> match spec_ref_id(request.page@) {
                None => is_invalid_ref(r, request.page@),
                Some(id) => (r matches Ok((MoveStage::AwaitCurrent { page_id }, MoveAction::Fetch { page_id: fp, expand }))
                    && page_id@ == id && fp@ == id && expand@ == "version,space,body.storage"@),
            },
            stage matches MoveStage::AwaitCurrent { page_id } ==> {
                let t = request.target@;
                if !(t is Parent) && request.title is Some {
                    r matches Err(ConfluenceCliError::NotImplemented(m)) && m@
                        == "renaming during before/after move is not implemented yet"@
                } else {
                    match spec_ref_id(spec_target_ref(t)) {
                        None => is_invalid_ref(r, spec_target_ref(t)),
                        Some(tid) => r matches Ok(
                            (MoveStage::AwaitTarget { page_id: p2, target_id, current }, MoveAction::Fetch { page_id: fp, expand }),
                        ) && p2 == page_id && target_id@ == tid && fp@ == tid && current == fetched->0
                            && expand@ == if t is Parent {
                            "space"@
                        } else {
                            "space,ancestors"@
                        },
                    }
                }
            },
            stage matches MoveStage::AwaitTarget { page_id, target_id, current } ==> {
                let target = fetched->0;
                if !spec_same_space(current, target) {
                    r matches Err(ConfluenceCliError::Config(m)) && m@ == "page move across spaces is not supported"@
                } else if request.target@ is Parent {
                    match current.version {
                        None => r matches Err(ConfluenceCliError::Config(m)) && m@
                            == "page move requires a current version"@,
                        Some(v) => if v.number == u32::MAX {
                            r matches Err(ConfluenceCliError::Config(m)) && m@
                                == "page version cannot be incremented"@
                        } else {
                            r matches Ok((_, MoveAction::Put { url, payload: Some(p) })) && url@ == spec_v1_url(
                                self.config(),
                                "/content/"@ + spec_decimal(page_id@ as nat),
                            ) && spec_move_payload(page_id@, target_id@, current, opt_view(request.title), p)
                        },
                    }
                } else if target.ancestors@.len() == 0 {
                    r matches Err(ConfluenceCliError::Config(m)) && m@
                        == "before/after move against a top-level target is blocked"@
                } else {
                    r matches Ok((_, MoveAction::Put { url, payload: None })) && url@ == spec_v1_url(
                        self.config(),
                        "/content/"@ + spec_decimal(page_id@ as nat) + "/move/"@ + spec_position(request.target@)
                            + "/"@ + spec_decimal(target_id@ as nat),
                    )
                }
            },
    {
        match stage {
            MoveStage::Start => {
                let page_id = self.resolve_page_id(&request.page)?;
                Ok((MoveStage::AwaitCurrent { page_id }, MoveAction::Fetch { page_id, expand: copy_str("version,space,body.storage") }))
            },
            MoveStage::AwaitCurrent { page_id } => {
                let current = match fetched {
                    Some(c) => c,
                    None => {
                        return Err(ConfluenceCliError::Config(copy_str("page move requires the fetched page")));
                    },
                };
                match &request.target {
                    MoveTarget::Parent(parent) => {
                        let target_id = self.resolve_page_id(parent)?;
                        Ok((MoveStage::AwaitTarget { page_id, target_id, current }, MoveAction::Fetch { page_id: target_id, expand: copy_str("space") }))
                    },
                    MoveTarget::Before(target) | MoveTarget::After(target) => {
                        if request.title.is_some() {
                            return Err(ConfluenceCliError::NotImplemented(copy_str("renaming during before/after move is not implemented yet")));
                        }
                        let target_id = self.resolve_page_id(target)?;
                        Ok((MoveStage::AwaitTarget { page_id, target_id, current }, MoveAction::Fetch { page_id: target_id, expand: copy_str("space,ancestors") }))
                    },
                }
            },
            MoveStage::AwaitTarget { page_id, target_id, current } => {
                let target = match fetched {
                    Some(t) => t,
                    None => {
                        return Err(ConfluenceCliError::Config(copy_str("page move requires the fetched page")));
                    },
                };
                validate_same_space(&current, &target)?;
                let page_digits = u64_to_string(page_id.get());
                let target_digits = u64_to_string(target_id.get());
                match &request.target {
                    MoveTarget::Parent(_) => {
                        let number = match &current.version {
                            Some(v) => v.number,
                            None => {
                                return Err(ConfluenceCliError::Config(copy_str("page move requires a current version")));
                            },
                        };
                        let version = next_version_number(number)?;
                        let title = match &request.title {
                            Some(t) => t.clone(),
                            None => current.title.clone(),
                        };
                        let status = match &current.status {
                            Some(s) => s.clone(),
                            None => copy_str("current"),
                        };
                        let body = match current.body_value("storage") {
                            Some(v) => v,
                            None => String::new(),
                        };
                        let mut path = copy_str("/content/");
                        path.append(page_digits.as_str());
                        let url = self.v1_url(path.as_str());
                        let payload = MovePayload { id: page_digits, title, status, ancestor_id: target_digits, body, version };
                        Ok((MoveStage::Start, MoveAction::Put { url, payload: Some(payload) }))
                    },
                    MoveTarget::Before(_) | MoveTarget::After(_) => {
                        if target.ancestors.len() == 0 {
                            return Err(ConfluenceCliError::Config(copy_str("before/after move against a top-level target is blocked")));
                        }
                        let position = match &request.target {
                            MoveTarget::Before(_) => "before",
                            _ => "after",
                        };
                        let mut path = copy_str("/content/");
                        path.append(page_digits.as_str());
                        path.append("/move/");
                        path.append(position);
                        path.append("/");
                        path.append(target_digits.as_str());
                        let url = self.v1_url(path.as_str());
                        Ok((MoveStage::Start, MoveAction::Put { url, payload: None }))
                    },
                }
            },
        }
    }
}

} // verus!
