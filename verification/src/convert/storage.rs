//! Reading Confluence storage markup (XHTML) into the document model.
//!
//! The markup is tokenized by `quick_xml`; the library turns the token stream into
//! blocks and inline elements.
use vstd::prelude::*;

use quick_xml::events::attributes::{AttrError, Attribute, Attributes};
use quick_xml::events::{BytesCData, BytesEnd, BytesStart, BytesText, Event};
use quick_xml::Reader;

use super::{
    spec_inline_text, inline_to_text, inlines_view, items_view, spec_escape_html, spec_inline_storage, spec_inlines_text, tag,
    Block, BlockView, Document, Inline, InlineView,
};
use crate::error::{ConfluenceCliError, Result};
use crate::text::{copy_str, push_char, push_str, str_eq};

verus! {

// ---------------------------------------------------------------------------
// The tokenizer
// ---------------------------------------------------------------------------

#[verifier::external_type_specification]
#[verifier::external_body]
#[verifier::reject_recursive_types(R)]
pub struct ExXmlReader<R>(Reader<R>);

#[verifier::external_type_specification]
#[verifier::external_body]
pub struct ExBytesStart<'a>(BytesStart<'a>);

#[verifier::external_type_specification]
#[verifier::external_body]
pub struct ExBytesEnd<'a>(BytesEnd<'a>);

#[verifier::external_type_specification]
#[verifier::external_body]
pub struct ExBytesText<'a>(BytesText<'a>);

#[verifier::external_type_specification]
#[verifier::external_body]
pub struct ExBytesCData<'a>(BytesCData<'a>);

#[verifier::external_type_specification]
#[verifier::external_body]
pub struct ExAttributes<'a>(Attributes<'a>);

#[verifier::external_type_specification]
#[verifier::external_body]
pub struct ExAttribute<'a>(Attribute<'a>);

#[verifier::external_type_specification]
#[verifier::external_body]
pub struct ExAttrError(AttrError);

/// quick_xml's reader over an input, with the input and how many tokens it has given.
/// Only `xml_reader` makes one and only `read_raw_event` advances it, so the count is
/// always the number of tokens read.
pub struct XmlTokenizer<'a> {
    reader: Reader<&'a [u8]>,
    input: Ghost<Seq<char>>,
    count: Ghost<nat>,
}

impl<'a> XmlTokenizer<'a> {
    /// The text being tokenized.
    pub closed spec fn input(&self) -> Seq<char> {
        self.input@
    }

    /// How many tokens have been read.
    pub closed spec fn count(&self) -> nat {
        self.count@
    }
}

/// A part of one token, with the input and the token's position in the stream. Only the
/// wrappers below make one.
pub struct XmlPart<T>(T, Ghost<Seq<char>>, Ghost<nat>);

impl<T> XmlPart<T> {
    /// The text the token was read from.
    pub closed spec fn input(&self) -> Seq<char> {
        self.1@
    }

    /// The token's position in the stream.
    pub closed spec fn index(&self) -> nat {
        self.2@
    }
}

/// The attributes of a start tag as they are read one by one, with how many have been
/// read.
pub struct XmlAttributes<'a> {
    attributes: Attributes<'a>,
    input: Ghost<Seq<char>>,
    index: Ghost<nat>,
    count: Ghost<nat>,
}

impl<'a> XmlAttributes<'a> {
    pub closed spec fn input(&self) -> Seq<char> {
        self.input@
    }

    pub closed spec fn index(&self) -> nat {
        self.index@
    }

    pub closed spec fn count(&self) -> nat {
        self.count@
    }
}

/// A token as the tokenizer delivers it, before the library reads its parts.
pub enum RawXmlEvent<'a> {
    Start(XmlPart<BytesStart<'a>>),
    Empty(XmlPart<BytesStart<'a>>),
    End(XmlPart<BytesEnd<'a>>),
    Text(XmlPart<BytesText<'a>>),
    CData(XmlPart<BytesCData<'a>>),
    Other,
    Eof,
    Error(String),
}

/// The kind of a token, with the error's description for malformed markup.
pub enum XmlKindView {
    Start,
    Empty,
    End,
    Text,
    CData,
    Other,
    Eof,
    Error(Seq<char>),
}

/// The kind of a raw token.
pub open spec fn spec_raw_kind(r: RawXmlEvent) -> XmlKindView {
    match r {
        RawXmlEvent::Start(p) => XmlKindView::Start,
        RawXmlEvent::Empty(p) => XmlKindView::Empty,
        RawXmlEvent::End(p) => XmlKindView::End,
        RawXmlEvent::Text(p) => XmlKindView::Text,
        RawXmlEvent::CData(p) => XmlKindView::CData,
        RawXmlEvent::Other => XmlKindView::Other,
        RawXmlEvent::Eof => XmlKindView::Eof,
        RawXmlEvent::Error(e) => XmlKindView::Error(e@),
    }
}

/// Whether the part a raw token carries belongs to token `index` of `input`.
pub open spec fn spec_raw_at(r: RawXmlEvent, input: Seq<char>, index: nat) -> bool {
    match r {
        RawXmlEvent::Start(p) => p.input() == input && p.index() == index,
        RawXmlEvent::Empty(p) => p.input() == input && p.index() == index,
        RawXmlEvent::End(p) => p.input() == input && p.index() == index,
        RawXmlEvent::Text(p) => p.input() == input && p.index() == index,
        RawXmlEvent::CData(p) => p.input() == input && p.index() == index,
        _ => true,
    }
}

/// The kind of token `index` quick_xml's reader gives for `input`: the stream is a
/// function of the input alone.
pub uninterp spec fn spec_xml_kind(input: Seq<char>, index: nat) -> XmlKindView;

/// The qualified name of the start or empty tag that is token `index` of `input`.
pub uninterp spec fn spec_xml_tag_name(input: Seq<char>, index: nat) -> Seq<u8>;

/// The local name of the start tag that is token `index` of `input`.
pub uninterp spec fn spec_xml_local_name(input: Seq<char>, index: nat) -> Seq<u8>;

/// Attribute `j` of the start tag that is token `index` of `input`: its key and raw
/// value, `Some(None)` for a malformed one, `None` after the last.
pub uninterp spec fn spec_xml_attribute(input: Seq<char>, index: nat, j: nat) -> Option<Option<(Seq<u8>, Seq<u8>)>>;

/// The name of the end tag that is token `index` of `input`.
pub uninterp spec fn spec_xml_end_name(input: Seq<char>, index: nat) -> Seq<u8>;

/// The decoded content of the text that is token `index` of `input`; `None` when it is
/// not valid in the document's encoding.
pub uninterp spec fn spec_xml_text(input: Seq<char>, index: nat) -> Option<Seq<char>>;

/// The raw content of the CDATA section that is token `index` of `input`.
pub uninterp spec fn spec_xml_cdata(input: Seq<char>, index: nat) -> Seq<u8>;

/// `quick_xml::Reader::from_str`: a tokenizer at the start of `input`.
#[verifier::external_body]
fn xml_reader<'a>(input: &'a str) -> (r: XmlTokenizer<'a>)
    ensures
        r.input() == input@,
        r.count() == 0,
{
    XmlTokenizer { reader: Reader::from_str(input), input: Ghost(input@), count: Ghost(0) }
}

/// `quick_xml::Reader::read_event`: the next token, with the error's description when
/// the markup is malformed.
#[verifier::external_body]
fn read_raw_event<'a>(tokenizer: &mut XmlTokenizer<'a>) -> (r: RawXmlEvent<'a>)
    ensures
        final(tokenizer).input() == old(tokenizer).input(),
        final(tokenizer).count() == old(tokenizer).count() + 1,
        spec_raw_kind(r) == spec_xml_kind(
            old(tokenizer).input(),
            old(tokenizer).count(),
        ),
        spec_raw_at(r, old(tokenizer).input(), old(tokenizer).count()),
{
    let (input, index) = (tokenizer.input, tokenizer.count);
    tokenizer.count = Ghost((index@ + 1) as nat);
    match tokenizer.reader.read_event() {
        Ok(Event::Start(e)) => RawXmlEvent::Start(XmlPart(e, input, index)),
        Ok(Event::Empty(e)) => RawXmlEvent::Empty(XmlPart(e, input, index)),
        Ok(Event::End(e)) => RawXmlEvent::End(XmlPart(e, input, index)),
        Ok(Event::Text(e)) => RawXmlEvent::Text(XmlPart(e, input, index)),
        Ok(Event::CData(e)) => RawXmlEvent::CData(XmlPart(e, input, index)),
        Ok(Event::Eof) => RawXmlEvent::Eof,
        Ok(_) => RawXmlEvent::Other,
        Err(error) => RawXmlEvent::Error(error.to_string()),
    }
}

/// `BytesStart::name`: the qualified tag name's bytes.
#[verifier::external_body]
fn start_name(e: &XmlPart<BytesStart>) -> (r: Vec<u8>)
    ensures
        r@ == spec_xml_tag_name(e.input(), e.index()),
{
    e.0.name().as_ref().to_vec()
}

/// `BytesStart::local_name`: the tag name's bytes without a namespace prefix.
#[verifier::external_body]
fn start_local_name(e: &XmlPart<BytesStart>) -> (r: Vec<u8>)
    ensures
        r@ == spec_xml_local_name(e.input(), e.index()),
{
    e.0.local_name().as_ref().to_vec()
}

/// `BytesStart::attributes`: the tag's attributes, none read yet.
#[verifier::external_body]
fn start_attributes<'a>(e: &'a XmlPart<BytesStart<'a>>) -> (r: XmlAttributes<'a>)
    ensures
        r.input() == e.input(),
        r.index() == e.index(),
        r.count() == 0,
{
    XmlAttributes { attributes: e.0.attributes(), input: e.1, index: e.2, count: Ghost(0) }
}

/// The view of what reading an attribute gives.
pub open spec fn attribute_view(r: Option<Option<(Vec<u8>, Vec<u8>)>>) -> Option<Option<(Seq<u8>, Seq<u8>)>> {
    match r {
        None => None,
        Some(None) => Some(None),
        Some(Some((k, v))) => Some(Some((k@, v@))),
    }
}

/// `Attributes::next`: the next attribute's key and raw value, `Some(None)` for a
/// malformed one, `None` after the last.
#[verifier::external_body]
fn next_attribute(a: &mut XmlAttributes) -> (r: Option<Option<(Vec<u8>, Vec<u8>)>>)
    ensures
        final(a).input() == old(a).input(),
        final(a).index() == old(a).index(),
        final(a).count() == old(a).count() + 1,
        attribute_view(r) == spec_xml_attribute(old(a).input(), old(a).index(), old(a).count()),
{
    a.count = Ghost((a.count@ + 1) as nat);
    match a.attributes.next() {
        None => None,
        Some(Err(_)) => Some(None),
        Some(Ok(attribute)) => Some(Some((attribute.key.as_ref().to_vec(), attribute.value.to_vec()))),
    }
}

/// `BytesEnd::name`: the closing tag's name bytes.
#[verifier::external_body]
fn end_name(e: &XmlPart<BytesEnd>) -> (r: Vec<u8>)
    ensures
        r@ == spec_xml_end_name(e.input(), e.index()),
{
    e.0.name().as_ref().to_vec()
}

/// The view of an optional text.
pub open spec fn opt_text_view(o: Option<String>) -> Option<Seq<char>> {
    match o {
        Some(s) => Some(s@),
        None => None,
    }
}

/// `BytesText::decode`: the text content, or `None` when it is not valid in the
/// document's encoding.
#[verifier::external_body]
fn text_content(e: &XmlPart<BytesText>) -> (r: Option<String>)
    ensures
        opt_text_view(r) == spec_xml_text(e.input(), e.index()),
{
    e.0.decode().ok().map(|value| value.into_owned())
}

/// The raw bytes of a CDATA section (`BytesCData` dereferenced).
#[verifier::external_body]
fn cdata_bytes(e: &XmlPart<BytesCData>) -> (r: Vec<u8>)
    ensures
        r@ == spec_xml_cdata(e.input(), e.index()),
{
    e.0.to_vec()
}

/// What `String::from_utf8_lossy` gives for the bytes.
pub uninterp spec fn spec_utf8_lossy(bytes: Seq<u8>) -> Seq<char>;

/// `String::from_utf8_lossy`: the bytes decoded, invalid sequences replaced.
#[verifier::external_body]
fn utf8_lossy(bytes: &[u8]) -> (s: String)
    ensures
        s@ == spec_utf8_lossy(bytes@),
{
    String::from_utf8_lossy(bytes).to_string()
}

// ---------------------------------------------------------------------------
// Tokens as plain values
// ---------------------------------------------------------------------------

/// A token of storage markup with the parts the reader uses.
pub enum XmlEvent {
    Start { name: Vec<u8>, local_name: String, href: Option<String> },
    Empty { name: Vec<u8> },
    End { name: Vec<u8> },
    Text(String),
    CData(String),
    Other,
    Eof,
    Error(String),
}

pub enum XmlEventView {
    Start { name: Seq<u8>, local_name: Seq<char>, href: Option<Seq<char>> },
    Empty { name: Seq<u8> },
    End { name: Seq<u8> },
    Text(Seq<char>),
    CData(Seq<char>),
    Other,
    Eof,
    Error(Seq<char>),
}

impl View for XmlEvent {
    type V = XmlEventView;

    open spec fn view(&self) -> XmlEventView {
        match self {
            XmlEvent::Start { name, local_name, href } => XmlEventView::Start {
                name: name@,
                local_name: local_name@,
                href: match href {
                    Some(h) => Some(h@),
                    None => None,
                },
            },
            XmlEvent::Empty { name } => XmlEventView::Empty { name: name@ },
            XmlEvent::End { name } => XmlEventView::End { name: name@ },
            XmlEvent::Text(t) => XmlEventView::Text(t@),
            XmlEvent::CData(t) => XmlEventView::CData(t@),
            XmlEvent::Other => XmlEventView::Other,
            XmlEvent::Eof => XmlEventView::Eof,
            XmlEvent::Error(e) => XmlEventView::Error(e@),
        }
    }
}

pub open spec fn events_view(v: Seq<XmlEvent>) -> Seq<XmlEventView> {
    v.map_values(|e: XmlEvent| e@)
}

/// The bytes `href`.
pub open spec fn bytes_href() -> Seq<u8> {
    seq![104u8, 114u8, 101u8, 102u8]
}

/// The raw value of the first well-formed `href` attribute from attribute `j` on, of
/// the start tag that is token `index` of `input`; malformed attributes are skipped.
pub open spec fn spec_href_from(input: Seq<char>, index: nat, j: nat) -> Option<Seq<u8>>
    decreases u64::MAX - j,
{
    if j >= u64::MAX {
        None
    } else {
        match spec_xml_attribute(input, index, j) {
            None => None,
            Some(None) => spec_href_from(input, index, j + 1),
            Some(Some((k, v))) => if k == bytes_href() {
                Some(v)
            } else {
                spec_href_from(input, index, j + 1)
            },
        }
    }
}

/// Token `index` of `input` with the parts the reader uses: tag names as bytes, a start
/// tag's local name and `href` decoded as lossy UTF-8, a text's decoded content (empty
/// when it does not decode), a CDATA section's content decoded as lossy UTF-8.
pub open spec fn spec_token(input: Seq<char>, index: nat) -> XmlEventView {
    match spec_xml_kind(input, index) {
        XmlKindView::Start => XmlEventView::Start {
            name: spec_xml_tag_name(input, index),
            local_name: spec_utf8_lossy(spec_xml_local_name(input, index)),
            href: match spec_href_from(input, index, 0) {
                Some(v) => Some(spec_utf8_lossy(v)),
                None => None,
            },
        },
        XmlKindView::Empty => XmlEventView::Empty { name: spec_xml_tag_name(input, index) },
        XmlKindView::End => XmlEventView::End { name: spec_xml_end_name(input, index) },
        XmlKindView::Text => XmlEventView::Text(
            match spec_xml_text(input, index) {
                Some(t) => t,
                None => Seq::empty(),
            },
        ),
        XmlKindView::CData => XmlEventView::CData(spec_utf8_lossy(spec_xml_cdata(input, index))),
        XmlKindView::Other => XmlEventView::Other,
        XmlKindView::Eof => XmlEventView::Eof,
        XmlKindView::Error(m) => XmlEventView::Error(m),
    }
}

/// Whether a token ends the stream.
pub open spec fn spec_is_last(e: XmlEventView) -> bool {
    e is Eof || e is Error
}

/// The tokens of `input` from token `index` on, up to and including the end of input or
/// the first error; after `budget` more tokens without either, the stream is cut with an
/// error.
pub open spec fn spec_tokens_from(input: Seq<char>, index: nat, budget: nat) -> Seq<XmlEventView>
    decreases budget,
{
    let t = spec_token(input, index);
    if spec_is_last(t) {
        seq![t]
    } else if budget == 0 {
        seq![t, XmlEventView::Error("tokenizer did not reach the end of input"@)]
    } else {
        seq![t] + spec_tokens_from(input, index + 1, (budget - 1) as nat)
    }
}

/// The tokens quick_xml gives for `input`. Every token but the last consumes input, so
/// the budget of one token per byte is never reached.
pub open spec fn spec_storage_tokens(input: Seq<char>) -> Seq<XmlEventView> {
    spec_tokens_from(input, 0, vstd::utf8::encode_utf8(input).len())
}

fn is_href(k: &Vec<u8>) -> (r: bool)
    ensures
        r == (k@ == bytes_href()),
{
    if k.len() == 4 && k[0] == 104u8 && k[1] == 114u8 && k[2] == 101u8 && k[3] == 102u8 {
        assert(k@ =~= bytes_href());
        true
    } else {
        false
    }
}

/// The raw value of the tag's first well-formed `href` attribute.
fn find_href(e: &XmlPart<BytesStart>) -> (r: Option<Vec<u8>>)
    ensures
        match r {
            Some(v) => spec_href_from(e.input(), e.index(), 0) == Some(v@),
            None => spec_href_from(e.input(), e.index(), 0) is None,
        },
{
    let mut attributes = start_attributes(e);
    let mut j: u64 = 0;
    while j < u64::MAX
        invariant
            attributes.input() == e.input(),
            attributes.index() == e.index(),
            attributes.count() == j,
            spec_href_from(e.input(), e.index(), 0) == spec_href_from(e.input(), e.index(), j as nat),
        decreases u64::MAX - j,
    {
        match next_attribute(&mut attributes) {
            None => {
                return None;
            },
            Some(None) => {},
            Some(Some((k, v))) => {
                if is_href(&k) {
                    return Some(v);
                }
            },
        }
        j = j + 1;
    }
    None
}

/// Reads the next token's parts into plain values.
fn next_event(tokenizer: &mut XmlTokenizer) -> (r: XmlEvent)
    ensures
        final(tokenizer).input() == old(tokenizer).input(),
        final(tokenizer).count() == old(tokenizer).count() + 1,
        r@ == spec_token(old(tokenizer).input(), old(tokenizer).count()),
{
    match read_raw_event(tokenizer) {
        RawXmlEvent::Start(e) => {
            let name = start_name(&e);
            let local = start_local_name(&e);
            let href = match find_href(&e) {
                Some(bytes) => Some(utf8_lossy(bytes.as_slice())),
                None => None,
            };
            XmlEvent::Start { name, local_name: utf8_lossy(local.as_slice()), href }
        },
        RawXmlEvent::Empty(e) => XmlEvent::Empty { name: start_name(&e) },
        RawXmlEvent::End(e) => XmlEvent::End { name: end_name(&e) },
        RawXmlEvent::Text(e) => match text_content(&e) {
            Some(t) => XmlEvent::Text(t),
            None => XmlEvent::Text(String::new()),
        },
        RawXmlEvent::CData(e) => {
            let bytes = cdata_bytes(&e);
            XmlEvent::CData(utf8_lossy(bytes.as_slice()))
        },
        RawXmlEvent::Other => XmlEvent::Other,
        RawXmlEvent::Eof => XmlEvent::Eof,
        RawXmlEvent::Error(e) => XmlEvent::Error(e),
    }
}

/// The tokens of `input`, up to and including the end of input or the first error.
pub fn storage_events(input: &str) -> (r: Vec<XmlEvent>)
    ensures
        events_view(r@) == spec_storage_tokens(input@),
{
    let mut tokenizer = xml_reader(input);
    let mut events: Vec<XmlEvent> = Vec::new();
    let mut remaining = input.as_bytes().len();
    let ghost all = spec_storage_tokens(input@);
    assert(remaining as nat == vstd::utf8::encode_utf8(input@).len());
    assert(events_view(events@) =~= Seq::<XmlEventView>::empty());
    assert(all =~= events_view(events@) + spec_tokens_from(input@, tokenizer.count(), remaining as nat));
    loop
        invariant_except_break
            tokenizer.input() == input@,
            all == events_view(events@) + spec_tokens_from(input@, tokenizer.count(), remaining as nat),
        invariant
            all == spec_storage_tokens(input@),
        ensures
            all == events_view(events@) + seq![XmlEventView::Error("tokenizer did not reach the end of input"@)],
        decreases remaining,
    {
        let ghost k = tokenizer.count();
        let ghost before = events_view(events@);
        let event = next_event(&mut tokenizer);
        let stop = match &event {
            XmlEvent::Eof => true,
            XmlEvent::Error(_) => true,
            _ => false,
        };
        let ghost t = event@;
        events.push(event);
        assert(events_view(events@) =~= before.push(t));
        if stop {
            assert(spec_tokens_from(input@, k, remaining as nat) == seq![t]);
            assert(all =~= events_view(events@));
            return events;
        }
        if remaining == 0 {
            assert(spec_tokens_from(input@, k, 0) == seq![t, XmlEventView::Error("tokenizer did not reach the end of input"@)]);
            assert(all =~= events_view(events@) + seq![XmlEventView::Error("tokenizer did not reach the end of input"@)]);
            break;
        }
        assert(spec_tokens_from(input@, k, remaining as nat) == seq![t] + spec_tokens_from(input@, k + 1, (remaining - 1) as nat));
        remaining = remaining - 1;
        assert(all =~= events_view(events@) + spec_tokens_from(input@, tokenizer.count(), remaining as nat));
    }
    let ghost before = events_view(events@);
    events.push(XmlEvent::Error(copy_str("tokenizer did not reach the end of input")));
    assert(events_view(events@) =~= before.push(XmlEventView::Error("tokenizer did not reach the end of input"@)));
    events
}

// ---------------------------------------------------------------------------
// The reader, as a function of the token stream
// ---------------------------------------------------------------------------

pub open spec fn bytes_li() -> Seq<u8> {
    seq![108u8, 105u8]
}

pub open spec fn bytes_br() -> Seq<u8> {
    seq![98u8, 114u8]
}

/// A text element unless the text is empty.
pub open spec fn text_piece(t: Seq<char>) -> Seq<InlineView> {
    if t.len() > 0 {
        seq![InlineView::Text(t)]
    } else {
        Seq::empty()
    }
}

/// The message of a failed read.
pub open spec fn storage_error(detail: Seq<char>) -> Seq<char> {
    "invalid storage body: "@ + detail
}

/// The element an inline tag stands for, given its name, its `href` and the text of
/// its content.
pub open spec fn spec_inline_for_tag(
    local: Seq<char>,
    href: Option<Seq<char>>,
    text: Seq<char>,
) -> Seq<InlineView> {
    if local == "strong"@ || local == "b"@ {
        seq![InlineView::Strong(text)]
    } else if local == "em"@ || local == "i"@ {
        seq![InlineView::Emphasis(text)]
    } else if local == "code"@ {
        seq![InlineView::Code(text)]
    } else if local == "a"@ {
        let url = match href {
            Some(h) => h,
            None => Seq::empty(),
        };
        if url.len() == 0 {
            text_piece(text)
        } else {
            seq![InlineView::Link { text, url }]
        }
    } else {
        text_piece(text)
    }
}

/// Inline content from token `i` until the end tag `end`: the elements and the token
/// after the end tag, or the error message.
pub open spec fn spec_read_inline(evs: Seq<XmlEventView>, i: int, end: Seq<u8>) -> core::result::Result<
    (Seq<InlineView>, int),
    Seq<char>,
>
    decreases evs.len() - i, 0int,
{
    if i < 0 || i >= evs.len() {
        Err(storage_error("unexpected EOF while reading inline content"@))
    } else {
        match evs[i] {
            XmlEventView::Start { name, local_name, href } => {
                match spec_read_inline(evs, i + 1, name) {
                    Ok((nested, next)) => if next <= i || next > evs.len() {
                        Err(Seq::empty())
                    } else {
                        match spec_read_inline(evs, next, end) {
                            Ok((rest, after)) => Ok(
                                (
                                    spec_inline_for_tag(local_name, href, spec_inlines_text(nested))
                                        + rest,
                                    after,
                                ),
                            ),
                            Err(e) => Err(e),
                        }
                    },
                    Err(e) => Err(e),
                }
            },
            XmlEventView::Empty { name } => match spec_read_inline(evs, i + 1, end) {
                Ok((rest, after)) => Ok(
                    (if name == bytes_br() { text_piece(seq!['\n']) } else { Seq::empty() } + rest, after),
                ),
                Err(e) => Err(e),
            },
            XmlEventView::Text(t) => match spec_read_inline(evs, i + 1, end) {
                Ok((rest, after)) => Ok((text_piece(t) + rest, after)),
                Err(e) => Err(e),
            },
            XmlEventView::CData(t) => match spec_read_inline(evs, i + 1, end) {
                Ok((rest, after)) => Ok((text_piece(t) + rest, after)),
                Err(e) => Err(e),
            },
            XmlEventView::End { name } => if name == end {
                Ok((Seq::empty(), i + 1))
            } else {
                spec_read_inline(evs, i + 1, end)
            },
            XmlEventView::Eof => Err(storage_error("unexpected EOF while reading inline content"@)),
            XmlEventView::Error(e) => Err(storage_error(e)),
            XmlEventView::Other => spec_read_inline(evs, i + 1, end),
        }
    }
}

/// `v` placed before the elements of a successful read.
pub open spec fn prepend_inlines(
    v: Seq<InlineView>,
    r: core::result::Result<(Seq<InlineView>, int), Seq<char>>,
) -> core::result::Result<(Seq<InlineView>, int), Seq<char>> {
    match r {
        Ok((w, n)) => Ok((v + w, n)),
        Err(e) => Err(e),
    }
}

pub proof fn lemma_prepend_inlines(
    a: Seq<InlineView>,
    b: Seq<InlineView>,
    r: core::result::Result<(Seq<InlineView>, int), Seq<char>>,
)
    ensures
        prepend_inlines(a + b, r) == prepend_inlines(a, prepend_inlines(b, r)),
{
    match r {
        Ok((w, n)) => {
            assert(a + b + w == a + (b + w));
        },
        Err(_) => {},
    }
}

/// The items of a list from token `i` until the end tag `end`.
pub open spec fn spec_read_list(evs: Seq<XmlEventView>, i: int, end: Seq<u8>) -> core::result::Result<
    (Seq<Seq<InlineView>>, int),
    Seq<char>,
>
    decreases evs.len() - i,
{
    if i < 0 || i >= evs.len() {
        Err(storage_error("unexpected EOF while reading list"@))
    } else {
        match evs[i] {
            XmlEventView::Start { name, .. } => if name == bytes_li() {
                match spec_read_inline(evs, i + 1, name) {
                    Ok((item, next)) => if next <= i || next > evs.len() {
                        Err(Seq::empty())
                    } else {
                        match spec_read_list(evs, next, end) {
                            Ok((rest, after)) => Ok((seq![item] + rest, after)),
                            Err(e) => Err(e),
                        }
                    },
                    Err(e) => Err(e),
                }
            } else {
                spec_read_list(evs, i + 1, end)
            },
            XmlEventView::End { name } => if name == end {
                Ok((Seq::empty(), i + 1))
            } else {
                spec_read_list(evs, i + 1, end)
            },
            XmlEventView::Eof => Err(storage_error("unexpected EOF while reading list"@)),
            XmlEventView::Error(e) => Err(storage_error(e)),
            _ => spec_read_list(evs, i + 1, end),
        }
    }
}

/// The heading level of a tag name `h1` .. `h6`.
pub open spec fn spec_heading_tag_level(local: Seq<char>) -> Option<u8> {
    if local == "h1"@ {
        Some(1)
    } else if local == "h2"@ {
        Some(2)
    } else if local == "h3"@ {
        Some(3)
    } else if local == "h4"@ {
        Some(4)
    } else if local == "h5"@ {
        Some(5)
    } else if local == "h6"@ {
        Some(6)
    } else {
        None
    }
}

/// The block a top-level element stands for, given its inline content.
pub open spec fn spec_block_for_tag(local: Seq<char>, content: Seq<InlineView>) -> BlockView {
    if local == "p"@ {
        BlockView::Paragraph(content)
    } else if spec_heading_tag_level(local) is Some {
        BlockView::Heading { level: spec_heading_tag_level(local)->0, content }
    } else if local == "pre"@ {
        BlockView::CodeBlock { language: None, code: spec_inlines_text(content) }
    } else {
        BlockView::RawStorage(
            seq!['<'] + local + seq!['>'] + spec_inlines_text(content) + seq!['<', '/'] + local + seq![
                '>',
            ],
        )
    }
}

/// The blocks of a token stream from token `i` on.
pub open spec fn spec_read_blocks(evs: Seq<XmlEventView>, i: int) -> core::result::Result<
    Seq<BlockView>,
    Seq<char>,
>
    decreases evs.len() - i,
{
    if i < 0 || i >= evs.len() {
        Ok(Seq::empty())
    } else {
        match evs[i] {
            XmlEventView::Start { name, local_name, .. } => if local_name == "ul"@ {
                match spec_read_list(evs, i + 1, name) {
                    Ok((items, next)) => if next <= i || next > evs.len() {
                        Err(Seq::empty())
                    } else {
                        match spec_read_blocks(evs, next) {
                            Ok(rest) => Ok(seq![BlockView::BulletList(items)] + rest),
                            Err(e) => Err(e),
                        }
                    },
                    Err(e) => Err(e),
                }
            } else {
                match spec_read_inline(evs, i + 1, name) {
                    Ok((content, next)) => if next <= i || next > evs.len() {
                        Err(Seq::empty())
                    } else {
                        match spec_read_blocks(evs, next) {
                            Ok(rest) => Ok(seq![spec_block_for_tag(local_name, content)] + rest),
                            Err(e) => Err(e),
                        }
                    },
                    Err(e) => Err(e),
                }
            },
            XmlEventView::Eof => Ok(Seq::empty()),
            XmlEventView::Error(e) => Err(storage_error(e)),
            _ => spec_read_blocks(evs, i + 1),
        }
    }
}

// ---------------------------------------------------------------------------
// What the reader gives back of what the writer writes
// ---------------------------------------------------------------------------

/// Two tags around the same body are the same only with the same name.
proof fn lemma_tag_name(a: Seq<char>, b: Seq<char>, body: Seq<char>)
    requires
        tag(a, body) == tag(b, body),
    ensures
        a == b,
{
    assert(tag(a, body).len() == 5 + 2 * a.len() + body.len());
    assert(tag(b, body).len() == 5 + 2 * b.len() + body.len());
    assert(a.len() == b.len());
    assert(a =~= tag(a, body).subrange(1, 1 + a.len() as int));
    assert(b =~= tag(b, body).subrange(1, 1 + b.len() as int));
}

/// An element holding the text `x` alone: its start tag at `i`, the text, its end tag.
pub open spec fn spec_element_at(
    evs: Seq<XmlEventView>,
    i: int,
    name: Seq<u8>,
    local: Seq<char>,
    href: Option<Seq<char>>,
    x: Seq<char>,
) -> bool {
    &&& 0 <= i
    &&& i + 3 <= evs.len()
    &&& evs[i] == XmlEventView::Start { name, local_name: local, href }
    &&& evs[i + 1] == XmlEventView::Text(x)
    &&& evs[i + 2] == XmlEventView::End { name }
}

/// Reading an element that holds only text: the element the tag stands for, then the
/// rest of the content after its end tag.
proof fn lemma_read_text_element(
    evs: Seq<XmlEventView>,
    i: int,
    end: Seq<u8>,
    name: Seq<u8>,
    local: Seq<char>,
    href: Option<Seq<char>>,
    x: Seq<char>,
)
    requires
        spec_element_at(evs, i, name, local, href, x),
        x.len() > 0,
    ensures
        spec_read_inline(evs, i, end) == prepend_inlines(
            spec_inline_for_tag(local, href, x),
            spec_read_inline(evs, i + 3, end),
        ),
{
    assert(spec_read_inline(evs, i + 2, name) == Ok::<(Seq<InlineView>, int), Seq<char>>((Seq::empty(), i + 3)));
    assert(text_piece(x) + Seq::<InlineView>::empty() =~= seq![InlineView::Text(x)]);
    assert(spec_read_inline(evs, i + 1, name) == Ok::<(Seq<InlineView>, int), Seq<char>>((seq![InlineView::Text(x)], i + 3)));
    assert(seq![InlineView::Text(x)].drop_last() =~= Seq::<InlineView>::empty());
    assert(spec_inlines_text(Seq::<InlineView>::empty()) == Seq::<char>::empty());
    assert(Seq::<char>::empty() + x =~= x);
    assert(spec_inlines_text(seq![InlineView::Text(x)]) == spec_inlines_text(Seq::<InlineView>::empty())
        + spec_inline_text(InlineView::Text(x)));
    assert(spec_inlines_text(seq![InlineView::Text(x)]) =~= x);
}

/// Emphasis, strong text and code, written in storage markup as `<name>x</name>`, read
/// back from that element as the same element: the reader takes the tag the writer
/// writes for each kind back to that kind.
pub proof fn lemma_inline_tag_reads_back(
    evs: Seq<XmlEventView>,
    i: int,
    end: Seq<u8>,
    k: InlineView,
    name: Seq<u8>,
    local: Seq<char>,
    href: Option<Seq<char>>,
    x: Seq<char>,
)
    requires
        k == InlineView::Emphasis(x) || k == InlineView::Strong(x) || k == InlineView::Code(x),
        x.len() > 0,
        spec_inline_storage(k) == tag(local, spec_escape_html(x)),
        spec_element_at(evs, i, name, local, href, x),
    ensures
        spec_read_inline(evs, i, end) == prepend_inlines(seq![k], spec_read_inline(evs, i + 3, end)),
{
    reveal_strlit("strong");
    reveal_strlit("b");
    reveal_strlit("em");
    reveal_strlit("i");
    reveal_strlit("code");
    lemma_read_text_element(evs, i, end, name, local, href, x);
    match k {
        InlineView::Emphasis(_) => {
            lemma_tag_name(seq!['e', 'm'], local, spec_escape_html(x));
            assert(local != "strong"@ && local != "b"@);
            assert(local == "em"@);
        },
        InlineView::Strong(_) => {
            lemma_tag_name(seq!['s', 't', 'r', 'o', 'n', 'g'], local, spec_escape_html(x));
            assert(local == "strong"@);
        },
        _ => {
            lemma_tag_name(seq!['c', 'o', 'd', 'e'], local, spec_escape_html(x));
            assert(local != "strong"@ && local != "b"@ && local != "em"@ && local != "i"@);
            assert(local == "code"@);
        },
    }
}

/// `<i>` reads as emphasis and `<b>` as strong text, as `<em>` and `<strong>` do.
pub proof fn lemma_short_inline_tags(
    evs: Seq<XmlEventView>,
    i: int,
    end: Seq<u8>,
    name: Seq<u8>,
    local: Seq<char>,
    href: Option<Seq<char>>,
    x: Seq<char>,
)
    requires
        local == "i"@ || local == "b"@,
        x.len() > 0,
        spec_element_at(evs, i, name, local, href, x),
    ensures
        local == "i"@ ==> spec_read_inline(evs, i, end) == prepend_inlines(
            seq![InlineView::Emphasis(x)],
            spec_read_inline(evs, i + 3, end),
        ),
        local == "b"@ ==> spec_read_inline(evs, i, end) == prepend_inlines(
            seq![InlineView::Strong(x)],
            spec_read_inline(evs, i + 3, end),
        ),
{
    reveal_strlit("strong");
    reveal_strlit("b");
    reveal_strlit("i");
    lemma_read_text_element(evs, i, end, name, local, href, x);
    assert("i"@.len() == 1 && "b"@.len() == 1 && "strong"@.len() == 6);
    assert("i"@[0] == 'i' && "b"@[0] == 'b');
    if local == "i"@ {
        assert(local != "strong"@ && local != "b"@);
    }
}

/// A link, written in storage markup as `<a href="url">text</a>`, reads back as the same
/// link; an `a` element without an address reads as its text.
pub proof fn lemma_link_reads_back(
    evs: Seq<XmlEventView>,
    i: int,
    end: Seq<u8>,
    name: Seq<u8>,
    href: Option<Seq<char>>,
    x: Seq<char>,
)
    requires
        x.len() > 0,
        spec_element_at(evs, i, name, "a"@, href, x),
    ensures
        href is Some && href->0.len() > 0 ==> spec_read_inline(evs, i, end) == prepend_inlines(
            seq![InlineView::Link { text: x, url: href->0 }],
            spec_read_inline(evs, i + 3, end),
        ),
        !(href is Some && href->0.len() > 0) ==> spec_read_inline(evs, i, end) == prepend_inlines(
            seq![InlineView::Text(x)],
            spec_read_inline(evs, i + 3, end),
        ),
{
    reveal_strlit("strong");
    reveal_strlit("b");
    reveal_strlit("em");
    reveal_strlit("i");
    reveal_strlit("code");
    reveal_strlit("a");
    assert("a"@.len() == 1 && "a"@[0] == 'a');
    assert("b"@.len() == 1 && "b"@[0] == 'b');
    assert("i"@.len() == 1 && "i"@[0] == 'i');
    assert("em"@.len() == 2 && "strong"@.len() == 6 && "code"@.len() == 4);
    assert("a"@ != "strong"@ && "a"@ != "b"@ && "a"@ != "em"@ && "a"@ != "i"@ && "a"@ != "code"@);
    lemma_read_text_element(evs, i, end, name, "a"@, href, x);
}

/// An element of any other name reads as the text it holds.
pub proof fn lemma_other_tags_read_as_text(
    evs: Seq<XmlEventView>,
    i: int,
    end: Seq<u8>,
    name: Seq<u8>,
    local: Seq<char>,
    href: Option<Seq<char>>,
    x: Seq<char>,
)
    requires
        x.len() > 0,
        local != "strong"@ && local != "b"@ && local != "em"@ && local != "i"@ && local != "code"@
            && local != "a"@,
        spec_element_at(evs, i, name, local, href, x),
    ensures
        spec_read_inline(evs, i, end) == prepend_inlines(
            seq![InlineView::Text(x)],
            spec_read_inline(evs, i + 3, end),
        ),
{
    lemma_read_text_element(evs, i, end, name, local, href, x);
}

/// A paragraph holding one emphasised, strong or code element, written in storage
/// markup, reads back as that paragraph.
pub proof fn lemma_paragraph_with_inline_reads_back(
    k: InlineView,
    x: Seq<char>,
    pname: Seq<u8>,
    phref: Option<Seq<char>>,
    name: Seq<u8>,
    local: Seq<char>,
    href: Option<Seq<char>>,
)
    requires
        k == InlineView::Emphasis(x) || k == InlineView::Strong(x) || k == InlineView::Code(x),
        x.len() > 0,
        spec_inline_storage(k) == tag(local, spec_escape_html(x)),
    ensures
        spec_read_blocks(
            seq![
                XmlEventView::Start { name: pname, local_name: "p"@, href: phref },
                XmlEventView::Start { name, local_name: local, href },
                XmlEventView::Text(x),
                XmlEventView::End { name },
                XmlEventView::End { name: pname },
            ],
            0,
        ) == Ok::<Seq<BlockView>, Seq<char>>(seq![BlockView::Paragraph(seq![k])]),
{
    let evs = seq![
        XmlEventView::Start { name: pname, local_name: "p"@, href: phref },
        XmlEventView::Start { name, local_name: local, href },
        XmlEventView::Text(x),
        XmlEventView::End { name },
        XmlEventView::End { name: pname },
    ];
    reveal_strlit("p");
    reveal_strlit("ul");
    assert("p"@.len() == 1 && "ul"@.len() == 2);
    assert("p"@ != "ul"@);
    lemma_inline_tag_reads_back(evs, 1, pname, k, name, local, href, x);
    assert(spec_read_inline(evs, 4, pname) == Ok::<(Seq<InlineView>, int), Seq<char>>((Seq::empty(), 5)));
    assert(seq![k] + Seq::<InlineView>::empty() =~= seq![k]);
    assert(spec_read_inline(evs, 1, pname) == Ok::<(Seq<InlineView>, int), Seq<char>>((seq![k], 5)));
    assert(spec_read_blocks(evs, 5) == Ok::<Seq<BlockView>, Seq<char>>(Seq::empty()));
    assert(spec_block_for_tag("p"@, seq![k]) == BlockView::Paragraph(seq![k]));
    assert(seq![BlockView::Paragraph(seq![k])] + Seq::<BlockView>::empty() =~= seq![BlockView::Paragraph(seq![k])]);
}

// ---------------------------------------------------------------------------
// The reader
// ---------------------------------------------------------------------------

fn bytes_eq(a: &[u8], b: &[u8]) -> (r: bool)
    ensures
        r == (a@ == b@),
{
    if a.len() != b.len() {
        return false;
    }
    let mut i: usize = 0;
    while i < a.len()
        invariant
            a.len() == b.len(),
            i <= a.len(),
            forall|j: int| 0 <= j < i ==> a@[j] == b@[j],
        decreases a.len() - i,
    {
        if a[i] != b[i] {
            return false;
        }
        i = i + 1;
    }
    assert(a@ == b@);
    true
}

/// The message of a failed read.
fn storage_error_message(detail: &str) -> (r: ConfluenceCliError)
    ensures
        r matches ConfluenceCliError::Config(m) && m@ == storage_error(detail@),
{
    let mut m = copy_str("invalid storage body: ");
    push_str(&mut m, detail);
    ConfluenceCliError::Config(m)
}

/// Appends a text element unless the text is empty.
fn push_text_piece(out: &mut Vec<Inline>, t: String)
    ensures
        inlines_view(final(out)@) == inlines_view(old(out)@) + text_piece(t@),
{
    if t.unicode_len() > 0 {
        let ghost tv = t@;
        out.push(Inline::Text(t));
        assert(inlines_view(out@) == inlines_view(old(out)@).push(InlineView::Text(tv)));
    } else {
        assert(inlines_view(out@) == inlines_view(old(out)@) + Seq::<InlineView>::empty());
    }
}

/// Appends the element an inline tag stands for.
fn push_inline_for_tag(out: &mut Vec<Inline>, local: &str, href: &Option<String>, text: String)
    ensures
        inlines_view(final(out)@) == inlines_view(old(out)@) + spec_inline_for_tag(
            local@,
            match href {
                Some(h) => Some(h@),
                None => None,
            },
            text@,
        ),
{
    let ghost tv = text@;
    if str_eq(local, "strong") || str_eq(local, "b") {
        out.push(Inline::Strong(text));
        assert(inlines_view(out@) == inlines_view(old(out)@).push(InlineView::Strong(tv)));
    } else if str_eq(local, "em") || str_eq(local, "i") {
        out.push(Inline::Emphasis(text));
        assert(inlines_view(out@) == inlines_view(old(out)@).push(InlineView::Emphasis(tv)));
    } else if str_eq(local, "code") {
        out.push(Inline::Code(text));
        assert(inlines_view(out@) == inlines_view(old(out)@).push(InlineView::Code(tv)));
    } else if str_eq(local, "a") {
        let url = match href {
            Some(h) => h.clone(),
            None => String::new(),
        };
        if url.unicode_len() == 0 {
            push_text_piece(out, text);
        } else {
            let ghost uv = url@;
            out.push(Inline::Link { text, url });
            assert(inlines_view(out@) == inlines_view(old(out)@).push(
                InlineView::Link { text: tv, url: uv },
            ));
        }
    } else {
        push_text_piece(out, text);
    }
}

/// Inline content from token `i` until the end tag `end`, and the token after the end tag.
fn read_inline_storage(evs: &Vec<XmlEvent>, i: usize, end: &[u8]) -> (r: Result<(Vec<Inline>, usize)>)
    requires
        i <= evs.len(),
    ensures
        match spec_read_inline(events_view(evs@), i as int, end@) {
            Ok((v, n)) => r matches Ok((out, next)) && inlines_view(out@) == v && next == n && i
                < next <= evs.len(),
            Err(m) => r matches Err(ConfluenceCliError::Config(msg)) && msg@ == m,
        },
    decreases evs.len() - i,
{
    let ghost evv = events_view(evs@);
    let mut out: Vec<Inline> = Vec::new();
    let mut k = i;
    assert(inlines_view(out@) == Seq::<InlineView>::empty());
    loop
        invariant
            i <= k <= evs.len(),
            evv == events_view(evs@),
            spec_read_inline(evv, i as int, end@) == prepend_inlines(
                inlines_view(out@),
                spec_read_inline(evv, k as int, end@),
            ),
        decreases evs.len() - k,
    {
        if k >= evs.len() {
            let e = storage_error_message("unexpected EOF while reading inline content");
            return Err(e);
        }
        assert(evv[k as int] == evs@[k as int]@);
        match &evs[k] {
            XmlEvent::Start { name, local_name, href } => {
                let (nested, next) = match read_inline_storage(evs, k + 1, name.as_slice()) {
                    Ok(x) => x,
                    Err(e) => return Err(e),
                };
                let text = inline_to_text(nested.as_slice());
                let ghost before = inlines_view(out@);
                push_inline_for_tag(&mut out, local_name.as_str(), href, text);
                proof {
                    let piece = spec_inline_for_tag(
                        local_name@,
                        match href {
                            Some(h) => Some(h@),
                            None => None,
                        },
                        spec_inlines_text(inlines_view(nested@)),
                    );
                    assert(inlines_view(out@) == before + piece);
                    assert(spec_read_inline(evv, k as int, end@) == prepend_inlines(
                        piece,
                        spec_read_inline(evv, next as int, end@),
                    ));
                    lemma_prepend_inlines(before, piece, spec_read_inline(evv, next as int, end@));
                }
                k = next;
            },
            XmlEvent::Empty { name } => {
                let br: Vec<u8> = vec![98u8, 114u8];
                assert(br@ == bytes_br());
                let ghost before = inlines_view(out@);
                let ghost piece = if name@ == bytes_br() {
                    text_piece(seq!['\n'])
                } else {
                    Seq::<InlineView>::empty()
                };
                if bytes_eq(name.as_slice(), br.as_slice()) {
                    let mut t = String::new();
                    push_char(&mut t, '\n');
                    push_text_piece(&mut out, t);
                } else {
                    assert(inlines_view(out@) == before + Seq::<InlineView>::empty());
                }
                proof {
                    lemma_prepend_inlines(before, piece, spec_read_inline(evv, k + 1, end@));
                }
                k = k + 1;
            },
            XmlEvent::Text(t) => {
                let ghost before = inlines_view(out@);
                push_text_piece(&mut out, t.clone());
                proof {
                    lemma_prepend_inlines(before, text_piece(t@), spec_read_inline(evv, k + 1, end@));
                }
                k = k + 1;
            },
            XmlEvent::CData(t) => {
                let ghost before = inlines_view(out@);
                push_text_piece(&mut out, t.clone());
                proof {
                    lemma_prepend_inlines(before, text_piece(t@), spec_read_inline(evv, k + 1, end@));
                }
                k = k + 1;
            },
            XmlEvent::End { name } => {
                if bytes_eq(name.as_slice(), end) {
                    assert(inlines_view(out@) + Seq::<InlineView>::empty() == inlines_view(out@));
                    return Ok((out, k + 1));
                }
                k = k + 1;
            },
            XmlEvent::Eof => {
                let e = storage_error_message("unexpected EOF while reading inline content");
                return Err(e);
            },
            XmlEvent::Error(e) => {
                let e = storage_error_message(e.as_str());
                return Err(e);
            },
            XmlEvent::Other => {
                k = k + 1;
            },
        }
    }
}

pub open spec fn prepend_items(
    v: Seq<Seq<InlineView>>,
    r: core::result::Result<(Seq<Seq<InlineView>>, int), Seq<char>>,
) -> core::result::Result<(Seq<Seq<InlineView>>, int), Seq<char>> {
    match r {
        Ok((w, n)) => Ok((v + w, n)),
        Err(e) => Err(e),
    }
}

pub open spec fn prepend_blocks(
    v: Seq<BlockView>,
    r: core::result::Result<Seq<BlockView>, Seq<char>>,
) -> core::result::Result<Seq<BlockView>, Seq<char>> {
    match r {
        Ok(w) => Ok(v + w),
        Err(e) => Err(e),
    }
}

/// The items of a list from token `i` until the end tag `end`, and the token after it.
fn read_list_items(evs: &Vec<XmlEvent>, i: usize, end: &[u8]) -> (r: Result<(Vec<Vec<Inline>>, usize)>)
    requires
        i <= evs.len(),
    ensures
        match spec_read_list(events_view(evs@), i as int, end@) {
            Ok((v, n)) => r matches Ok((out, next)) && items_view(out@) == v && next == n && i
                < next <= evs.len(),
            Err(m) => r matches Err(ConfluenceCliError::Config(msg)) && msg@ == m,
        },
{
    let ghost evv = events_view(evs@);
    let mut items: Vec<Vec<Inline>> = Vec::new();
    let mut k = i;
    let li: Vec<u8> = vec![108u8, 105u8];
    assert(li@ == bytes_li());
    assert(items_view(items@) == Seq::<Seq<InlineView>>::empty());
    loop
        invariant
            i <= k <= evs.len(),
            evv == events_view(evs@),
            li@ == bytes_li(),
            spec_read_list(evv, i as int, end@) == prepend_items(
                items_view(items@),
                spec_read_list(evv, k as int, end@),
            ),
        decreases evs.len() - k,
    {
        if k >= evs.len() {
            let e = storage_error_message("unexpected EOF while reading list");
            return Err(e);
        }
        assert(evv[k as int] == evs@[k as int]@);
        match &evs[k] {
            XmlEvent::Start { name, .. } => {
                if bytes_eq(name.as_slice(), li.as_slice()) {
                    let (item, next) = match read_inline_storage(evs, k + 1, name.as_slice()) {
                        Ok(x) => x,
                        Err(e) => return Err(e),
                    };
                    let ghost before = items_view(items@);
                    let ghost iv = inlines_view(item@);
                    items.push(item);
                    proof {
                        assert(items_view(items@) == before + seq![iv]);
                        match spec_read_list(evv, next as int, end@) {
                            Ok((w, n)) => {
                                assert(before + seq![iv] + w == before + (seq![iv] + w));
                            },
                            Err(_) => {},
                        }
                    }
                    k = next;
                } else {
                    k = k + 1;
                }
            },
            XmlEvent::End { name } => {
                if bytes_eq(name.as_slice(), end) {
                    assert(items_view(items@) + Seq::<Seq<InlineView>>::empty() == items_view(
                        items@,
                    ));
                    return Ok((items, k + 1));
                }
                k = k + 1;
            },
            XmlEvent::Eof => {
                let e = storage_error_message("unexpected EOF while reading list");
                return Err(e);
            },
            XmlEvent::Error(e) => {
                let e = storage_error_message(e.as_str());
                return Err(e);
            },
            _ => {
                k = k + 1;
            },
        }
    }
}

/// The block a top-level element stands for, given its inline content.
fn block_for_tag(local: &str, content: Vec<Inline>) -> (b: Block)
    ensures
        b@ == spec_block_for_tag(local@, inlines_view(content@)),
{
    proof {
        reveal_strlit("h1");
        reveal_strlit("h2");
        reveal_strlit("h3");
        reveal_strlit("h4");
        reveal_strlit("h5");
        reveal_strlit("h6");
    }
    if str_eq(local, "p") {
        return Block::Paragraph(content);
    }
    let level: u8 = if str_eq(local, "h1") {
        1
    } else if str_eq(local, "h2") {
        2
    } else if str_eq(local, "h3") {
        3
    } else if str_eq(local, "h4") {
        4
    } else if str_eq(local, "h5") {
        5
    } else if str_eq(local, "h6") {
        6
    } else {
        0
    };
    if level > 0 {
        return Block::Heading { level, content };
    }
    if str_eq(local, "pre") {
        return Block::CodeBlock { language: None, code: inline_to_text(content.as_slice()) };
    }
    let raw = inline_to_text(content.as_slice());
    let mut out = String::new();
    push_char(&mut out, '<');
    push_str(&mut out, local);
    push_char(&mut out, '>');
    push_str(&mut out, raw.as_str());
    push_char(&mut out, '<');
    push_char(&mut out, '/');
    push_str(&mut out, local);
    push_char(&mut out, '>');
    assert(out@ == seq!['<'] + local@ + seq!['>'] + spec_inlines_text(inlines_view(content@))
        + seq!['<', '/'] + local@ + seq!['>']);
    Block::RawStorage(out)
}

/// Reads the blocks of storage markup from its token stream.
pub fn document_from_events(evs: &Vec<XmlEvent>) -> (r: Result<Document>)
    ensures
        match spec_read_blocks(events_view(evs@), 0) {
            Ok(v) => r matches Ok(d) && d@ == v,
            Err(m) => r matches Err(ConfluenceCliError::Config(msg)) && msg@ == m,
        },
{
    let ghost evv = events_view(evs@);
    let mut blocks: Vec<Block> = Vec::new();
    let mut k: usize = 0;
    assert(blocks@.map_values(|b: Block| b@) == Seq::<BlockView>::empty());
    loop
        invariant
            k <= evs.len(),
            evv == events_view(evs@),
            spec_read_blocks(evv, 0) == prepend_blocks(
                blocks@.map_values(|b: Block| b@),
                spec_read_blocks(evv, k as int),
            ),
        decreases evs.len() - k,
    {
        if k >= evs.len() {
            assert(blocks@.map_values(|b: Block| b@) + Seq::<BlockView>::empty() == blocks@.map_values(
                |b: Block| b@,
            ));
            return Ok(Document { blocks });
        }
        assert(evv[k as int] == evs@[k as int]@);
        let ghost before = blocks@.map_values(|b: Block| b@);
        match &evs[k] {
            XmlEvent::Start { name, local_name, .. } => {
                if str_eq(local_name.as_str(), "ul") {
                    let (items, next) = match read_list_items(evs, k + 1, name.as_slice()) {
                        Ok(x) => x,
                        Err(e) => return Err(e),
                    };
                    let block = Block::BulletList(items);
                    let ghost bv = block@;
                    blocks.push(block);
                    proof {
                        assert(blocks@.map_values(|b: Block| b@) == before + seq![bv]);
                        match spec_read_blocks(evv, next as int) {
                            Ok(w) => {
                                assert(before + seq![bv] + w == before + (seq![bv] + w));
                            },
                            Err(_) => {},
                        }
                    }
                    k = next;
                } else {
                    let (content, next) = match read_inline_storage(evs, k + 1, name.as_slice()) {
                        Ok(x) => x,
                        Err(e) => return Err(e),
                    };
                    let block = block_for_tag(local_name.as_str(), content);
                    let ghost bv = block@;
                    blocks.push(block);
                    proof {
                        assert(blocks@.map_values(|b: Block| b@) == before + seq![bv]);
                        match spec_read_blocks(evv, next as int) {
                            Ok(w) => {
                                assert(before + seq![bv] + w == before + (seq![bv] + w));
                            },
                            Err(_) => {},
                        }
                    }
                    k = next;
                }
            },
            XmlEvent::Eof => {
                assert(blocks@.map_values(|b: Block| b@) + Seq::<BlockView>::empty() == blocks@.map_values(
                    |b: Block| b@,
                ));
                return Ok(Document { blocks });
            },
            XmlEvent::Error(e) => {
                let e = storage_error_message(e.as_str());
                return Err(e);
            },
            _ => {
                k = k + 1;
            },
        }
    }
}

/// Reads storage markup into a document: the markup is tokenized, then read by
/// `document_from_events`.
pub fn storage_to_document(input: &str) -> (r: Result<Document>)
    ensures
        match spec_read_blocks(spec_storage_tokens(input@), 0) {
            Ok(v) => r matches Ok(d) && d@ == v,
            Err(m) => r matches Err(ConfluenceCliError::Config(msg)) && msg@ == m,
        },
{
    let events = storage_events(input);
    let r = document_from_events(&events);
    assert(match spec_read_blocks(events_view(events@), 0) {
        Ok(v) => r matches Ok(d) && d@ == v,
        Err(m) => r matches Err(ConfluenceCliError::Config(msg)) && msg@ == m,
    });
    r
}

} // verus!
