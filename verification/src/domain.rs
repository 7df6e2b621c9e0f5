//! Page references and the small enumerations the commands share.
use vstd::prelude::*;

use crate::error::{ConfluenceCliError, Result};
use crate::text::{
    chars_of, copy_str, parse_u64, spec_parse_u64, spec_starts_with, str_starts_with,
};

verus! {

/// How a page is removed.
#[derive(Debug, Clone, Copy, PartialEq, Eq, Structural)]
pub enum DeleteMode {
    Archive,
    Trash,
    Purge,
}

/// A representation of page content.
#[derive(Debug, Clone, Copy, PartialEq, Eq, Structural)]
pub enum BodyFormat {
    Storage,
    Markdown,
    Html,
    Text,
}

/// Where a comment sits on a page.
#[derive(Debug, Clone, Copy, PartialEq, Eq, Structural)]
pub enum CommentLocation {
    Footer,
    Inline,
    Resolved,
}

/// A numeric page id.
#[derive(Debug, Clone, Copy, PartialEq, Eq, Hash)]
pub struct PageId(u64);

impl View for PageId {
    type V = u64;

    closed spec fn view(&self) -> u64 {
        self.0
    }
}

impl PageId {
    pub fn new(value: u64) -> (r: Self)
        ensures
            r@ == value,
    {
        PageId(value)
    }

    pub fn get(self) -> (r: u64)
        ensures
            r == self@,
    {
        self.0
    }
}

/// A page named by its id or by a URL.
#[derive(Debug, Clone, PartialEq, Eq)]
pub enum PageRef {
    Id(PageId),
    Url(String),
}

/// The mathematical value of a page reference.
pub enum PageRefView {
    Id(u64),
    Url(Seq<char>),
}

impl View for PageRef {
    type V = PageRefView;

    open spec fn view(&self) -> PageRefView {
        match self {
            PageRef::Id(id) => PageRefView::Id(id@),
            PageRef::Url(u) => PageRefView::Url(u@),
        }
    }
}

/// Whether `s` is written as an http or https URL.
pub open spec fn spec_is_http_url(s: Seq<char>) -> bool {
    spec_starts_with(s, "http://"@) || spec_starts_with(s, "https://"@)
}

/// What `PageRef::parse` gives for `s`: an id for an unsigned decimal that fits in
/// 64 bits, else a URL for text beginning with `http://` or `https://`, else nothing.
pub open spec fn spec_parse_page_ref(s: Seq<char>) -> Option<PageRefView> {
    match spec_parse_u64(s) {
        Some(v) => Some(PageRefView::Id(v)),
        None => if spec_is_http_url(s) {
            Some(PageRefView::Url(s))
        } else {
            None
        },
    }
}

impl PageRef {
    /// Reads a page reference from user input.
    pub fn parse(input: &str) -> (r: Result<Self>)
        ensures
            match spec_parse_page_ref(input@) {
                Some(v) => r matches Ok(p) && p@ == v,
                None => r matches Err(ConfluenceCliError::InvalidPageRef(m)) && m@ == input@,
            },
    {
        let chars = chars_of(input);
        if let Some(value) = parse_u64(&chars) {
            return Ok(PageRef::Id(PageId::new(value)));
        }
        if str_starts_with(input, "http://") || str_starts_with(input, "https://") {
            return Ok(PageRef::Url(copy_str(input)));
        }
        Err(ConfluenceCliError::InvalidPageRef(copy_str(input)))
    }

    /// A copy of the reference.
    pub fn duplicate(&self) -> (r: Self)
        ensures
            r@ == self@,
    {
        match self {
            PageRef::Id(id) => PageRef::Id(*id),
            PageRef::Url(u) => PageRef::Url(u.clone()),
        }
    }
}

/// Where a moved page goes.
#[derive(Debug, Clone, PartialEq, Eq)]
pub enum MoveTarget {
    Parent(PageRef),
    Before(PageRef),
    After(PageRef),
}

pub enum MoveTargetView {
    Parent(PageRefView),
    Before(PageRefView),
    After(PageRefView),
}

impl std::str::FromStr for PageRef {
    type Err = ConfluenceCliError;

    fn from_str(s: &str) -> (r: core::result::Result<Self, ConfluenceCliError>)
        ensures
            match spec_parse_page_ref(s@) {
                Some(v) => r matches Ok(p) && p@ == v,
                None => r matches Err(ConfluenceCliError::InvalidPageRef(m)) && m@ == s@,
            },
    {
        Self::parse(s)
    }
}

impl View for MoveTarget {
    type V = MoveTargetView;

    open spec fn view(&self) -> MoveTargetView {
        match self {
            MoveTarget::Parent(p) => MoveTargetView::Parent(p@),
            MoveTarget::Before(p) => MoveTargetView::Before(p@),
            MoveTarget::After(p) => MoveTargetView::After(p@),
        }
    }
}

} // verus!
