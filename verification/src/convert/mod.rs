//! A small document model shared by the markdown, storage and text renderings of
//! page content, with the conversions between them.
use vstd::prelude::*;

use std::collections::hash_map::DefaultHasher;
use std::hash::Hasher;
use vstd::std_specs::hash::DefaultHasherAdditionalSpecFns;

use crate::domain::BodyFormat;
use crate::error::{ConfluenceCliError, Result};
use crate::text::{
    chars_of, copy_str, join, spec_starts_with, spec_trim, trim, string_of, push_char, push_str, repeat_char, spec_decimal, spec_join,
    spec_repeat, strings_view, u64_to_string, digit_char, spec_digit_char,
};

pub mod markdown;
pub mod storage;
pub mod roundtrip;

use markdown::{markdown_to_document, spec_markdown_document};
use storage::{spec_read_blocks, spec_storage_tokens, storage_to_document, XmlEventView};


verus! {

/// A parsed page body.
#[derive(Debug, Clone, PartialEq, Eq)]
pub struct Document {
    pub blocks: Vec<Block>,
}

/// A block-level element.
#[derive(Debug, Clone, PartialEq, Eq)]
pub enum Block {
    Heading { level: u8, content: Vec<Inline> },
    Paragraph(Vec<Inline>),
    CodeBlock { language: Option<String>, code: String },
    BulletList(Vec<Vec<Inline>>),
    RawStorage(String),
}

/// An inline element.
#[derive(Debug, Clone, PartialEq, Eq)]
pub enum Inline {
    Text(String),
    Emphasis(String),
    Strong(String),
    Code(String),
    Link { text: String, url: String },
}

/// The value of an inline element.
pub enum InlineView {
    Text(Seq<char>),
    Emphasis(Seq<char>),
    Strong(Seq<char>),
    Code(Seq<char>),
    Link { text: Seq<char>, url: Seq<char> },
}

/// The value of a block.
pub enum BlockView {
    Heading { level: u8, content: Seq<InlineView> },
    Paragraph(Seq<InlineView>),
    CodeBlock { language: Option<Seq<char>>, code: Seq<char> },
    BulletList(Seq<Seq<InlineView>>),
    RawStorage(Seq<char>),
}

impl View for Inline {
    type V = InlineView;

    open spec fn view(&self) -> InlineView {
        match self {
            Inline::Text(t) => InlineView::Text(t@),
            Inline::Emphasis(t) => InlineView::Emphasis(t@),
            Inline::Strong(t) => InlineView::Strong(t@),
            Inline::Code(t) => InlineView::Code(t@),
            Inline::Link { text, url } => InlineView::Link { text: text@, url: url@ },
        }
    }
}

/// The values of a run of inline elements.
pub open spec fn inlines_view(v: Seq<Inline>) -> Seq<InlineView> {
    v.map_values(|i: Inline| i@)
}

/// The values of the items of a bullet list.
pub open spec fn items_view(v: Seq<Vec<Inline>>) -> Seq<Seq<InlineView>> {
    v.map_values(|i: Vec<Inline>| inlines_view(i@))
}

impl View for Block {
    type V = BlockView;

    open spec fn view(&self) -> BlockView {
        match self {
            Block::Heading { level, content } => BlockView::Heading {
                level: *level,
                content: inlines_view(content@),
            },
            Block::Paragraph(c) => BlockView::Paragraph(inlines_view(c@)),
            Block::CodeBlock { language, code } => BlockView::CodeBlock {
                language: match language {
                    Some(l) => Some(l@),
                    None => None,
                },
                code: code@,
            },
            Block::BulletList(items) => BlockView::BulletList(items_view(items@)),
            Block::RawStorage(r) => BlockView::RawStorage(r@),
        }
    }
}

impl View for Document {
    type V = Seq<BlockView>;

    open spec fn view(&self) -> Seq<BlockView> {
        self.blocks@.map_values(|b: Block| b@)
    }
}

// ---------------------------------------------------------------------------
// Rendering specifications
// ---------------------------------------------------------------------------

/// `c` escaped for use inside storage markup.
pub open spec fn spec_escape_char(c: char) -> Seq<char> {
    if c == '&' {
        seq!['&', 'a', 'm', 'p', ';']
    } else if c == '<' {
        seq!['&', 'l', 't', ';']
    } else if c == '>' {
        seq!['&', 'g', 't', ';']
    } else if c == '"' {
        seq!['&', 'q', 'u', 'o', 't', ';']
    } else {
        seq![c]
    }
}

/// `s` with `&`, `<`, `>` and `"` replaced by their entities.
pub open spec fn spec_escape_html(s: Seq<char>) -> Seq<char>
    decreases s.len(),
{
    if s.len() == 0 {
        Seq::empty()
    } else {
        spec_escape_html(s.drop_last()) + spec_escape_char(s.last())
    }
}

pub open spec fn tag(name: Seq<char>, body: Seq<char>) -> Seq<char> {
    seq!['<'] + name + seq!['>'] + body + seq!['<', '/'] + name + seq!['>']
}

pub open spec fn spec_inline_storage(i: InlineView) -> Seq<char> {
    match i {
        InlineView::Text(t) => spec_escape_html(t),
        InlineView::Emphasis(t) => tag(seq!['e', 'm'], spec_escape_html(t)),
        InlineView::Strong(t) => tag(seq!['s', 't', 'r', 'o', 'n', 'g'], spec_escape_html(t)),
        InlineView::Code(t) => tag(seq!['c', 'o', 'd', 'e'], spec_escape_html(t)),
        InlineView::Link { text, url } => seq!['<', 'a', ' ', 'h', 'r', 'e', 'f', '=', '"']
            + spec_escape_html(url) + seq!['"', '>'] + spec_escape_html(text) + seq![
            '<',
            '/',
            'a',
            '>',
        ],
    }
}

/// Inline content in storage markup.
pub open spec fn spec_inlines_storage(s: Seq<InlineView>) -> Seq<char>
    decreases s.len(),
{
    if s.len() == 0 {
        Seq::empty()
    } else {
        spec_inlines_storage(s.drop_last()) + spec_inline_storage(s.last())
    }
}

pub open spec fn spec_inline_markdown(i: InlineView) -> Seq<char> {
    match i {
        InlineView::Text(t) => t,
        InlineView::Emphasis(t) => seq!['*'] + t + seq!['*'],
        InlineView::Strong(t) => seq!['*', '*'] + t + seq!['*', '*'],
        InlineView::Code(t) => seq!['`'] + t + seq!['`'],
        InlineView::Link { text, url } => seq!['['] + text + seq![']', '('] + url + seq![')'],
    }
}

/// Inline content in markdown.
pub open spec fn spec_inlines_markdown(s: Seq<InlineView>) -> Seq<char>
    decreases s.len(),
{
    if s.len() == 0 {
        Seq::empty()
    } else {
        spec_inlines_markdown(s.drop_last()) + spec_inline_markdown(s.last())
    }
}

pub open spec fn spec_inline_text(i: InlineView) -> Seq<char> {
    match i {
        InlineView::Text(t) => t,
        InlineView::Emphasis(t) => t,
        InlineView::Strong(t) => t,
        InlineView::Code(t) => t,
        InlineView::Link { text, url } => text + seq![' ', '('] + url + seq![')'],
    }
}

/// Inline content as plain text.
pub open spec fn spec_inlines_text(s: Seq<InlineView>) -> Seq<char>
    decreases s.len(),
{
    if s.len() == 0 {
        Seq::empty()
    } else {
        spec_inlines_text(s.drop_last()) + spec_inline_text(s.last())
    }
}

/// The list items of a bullet list in storage markup.
pub open spec fn spec_items_storage(items: Seq<Seq<InlineView>>) -> Seq<char>
    decreases items.len(),
{
    if items.len() == 0 {
        Seq::empty()
    } else {
        spec_items_storage(items.drop_last()) + tag(seq!['l', 'i'], spec_inlines_storage(items.last()))
    }
}

/// The heading tag name `h<level>`.
pub open spec fn heading_tag(level: u8) -> Seq<char> {
    seq!['h'] + spec_decimal(level as nat)
}

pub open spec fn spec_block_storage(b: BlockView) -> Seq<char> {
    match b {
        BlockView::Heading { level, content } => tag(heading_tag(level), spec_inlines_storage(content)),
        BlockView::Paragraph(c) => tag(seq!['p'], spec_inlines_storage(c)),
        BlockView::CodeBlock { code, .. } => tag(
            seq!['p', 'r', 'e'],
            tag(seq!['c', 'o', 'd', 'e'], spec_escape_html(code)),
        ),
        BlockView::BulletList(items) => tag(seq!['u', 'l'], spec_items_storage(items)),
        BlockView::RawStorage(r) => r,
    }
}

/// A document in storage markup: its blocks rendered one after another.
pub open spec fn spec_document_storage(d: Seq<BlockView>) -> Seq<char>
    decreases d.len(),
{
    if d.len() == 0 {
        Seq::empty()
    } else {
        spec_document_storage(d.drop_last()) + spec_block_storage(d.last())
    }
}

/// The markdown paragraphs a block contributes: one per block, one per list item.
pub open spec fn spec_block_markdown_pieces(b: BlockView) -> Seq<Seq<char>> {
    match b {
        BlockView::Heading { level, content } => seq![
            spec_repeat('#', level as nat) + seq![' '] + spec_inlines_markdown(content),
        ],
        BlockView::Paragraph(c) => seq![spec_inlines_markdown(c)],
        BlockView::CodeBlock { language, code } => seq![
            seq!['`', '`', '`'] + match language {
                Some(l) => l,
                None => Seq::empty(),
            } + seq!['\n'] + code + seq!['\n', '`', '`', '`'],
        ],
        BlockView::BulletList(items) => items.map_values(
            |i: Seq<InlineView>| seq!['-', ' '] + spec_inlines_markdown(i),
        ),
        BlockView::RawStorage(r) => seq![
            seq!['`', '`', '`', 's', 't', 'o', 'r', 'a', 'g', 'e', '\n'] + r + seq!['\n', '`', '`', '`'],
        ],
    }
}

pub open spec fn spec_markdown_pieces(d: Seq<BlockView>) -> Seq<Seq<char>>
    decreases d.len(),
{
    if d.len() == 0 {
        Seq::empty()
    } else {
        spec_markdown_pieces(d.drop_last()) + spec_block_markdown_pieces(d.last())
    }
}

/// A document in markdown: its pieces separated by blank lines.
pub open spec fn spec_document_markdown(d: Seq<BlockView>) -> Seq<char> {
    spec_join(spec_markdown_pieces(d), seq!['\n', '\n'])
}

/// The text lines a block contributes.
pub open spec fn spec_block_text_pieces(b: BlockView) -> Seq<Seq<char>> {
    match b {
        BlockView::Heading { content, .. } => seq![spec_inlines_text(content)],
        BlockView::Paragraph(c) => seq![spec_inlines_text(c)],
        BlockView::CodeBlock { code, .. } => seq![code],
        BlockView::BulletList(items) => items.map_values(
            |i: Seq<InlineView>| seq!['-', ' '] + spec_inlines_text(i),
        ),
        BlockView::RawStorage(r) => seq![r],
    }
}

pub open spec fn spec_text_pieces(d: Seq<BlockView>) -> Seq<Seq<char>>
    decreases d.len(),
{
    if d.len() == 0 {
        Seq::empty()
    } else {
        spec_text_pieces(d.drop_last()) + spec_block_text_pieces(d.last())
    }
}

/// A document as plain text: one line per piece.
pub open spec fn spec_document_text(d: Seq<BlockView>) -> Seq<char> {
    spec_join(spec_text_pieces(d), seq!['\n'])
}

// ---------------------------------------------------------------------------
// Renderers
// ---------------------------------------------------------------------------

/// Appends `c` escaped for storage markup.
fn push_escaped_char(out: &mut String, c: char)
    ensures
        final(out)@ == old(out)@ + spec_escape_char(c),
{
    if c == '&' {
        push_str(out, "&amp;");
        proof { reveal_strlit("&amp;"); }
    } else if c == '<' {
        push_str(out, "&lt;");
        proof { reveal_strlit("&lt;"); }
    } else if c == '>' {
        push_str(out, "&gt;");
        proof { reveal_strlit("&gt;"); }
    } else if c == '"' {
        push_str(out, "&quot;");
        proof { reveal_strlit("&quot;"); }
    } else {
        push_char(out, c);
    }
}

/// Appends `s` escaped for storage markup.
fn push_escaped(out: &mut String, s: &str)
    ensures
        final(out)@ == old(out)@ + spec_escape_html(s@),
{
    let v = chars_of(s);
    let ghost o = out@;
    let mut i: usize = 0;
    while i < v.len()
        invariant
            i <= v.len(),
            v@ == s@,
            out@ == o + spec_escape_html(v@.take(i as int)),
        decreases v.len() - i,
    {
        push_escaped_char(out, v[i]);
        proof {
            assert(v@.take(i + 1).drop_last() == v@.take(i as int));
        }
        i = i + 1;
    }
    assert(v@.take(v.len() as int) == v@);
}

/// `input` with `&`, `<`, `>` and `"` replaced by their entities.
pub fn escape_html(input: &str) -> (r: String)
    ensures
        r@ == spec_escape_html(input@),
{
    let mut out = String::new();
    push_escaped(&mut out, input);
    out
}

/// Appends `<name>`.
fn push_open(out: &mut String, name: &str)
    ensures
        final(out)@ == old(out)@ + seq!['<'] + name@ + seq!['>'],
{
    push_char(out, '<');
    push_str(out, name);
    push_char(out, '>');
}

/// Appends `</name>`.
fn push_close(out: &mut String, name: &str)
    ensures
        final(out)@ == old(out)@ + seq!['<', '/'] + name@ + seq!['>'],
{
    push_char(out, '<');
    push_char(out, '/');
    push_str(out, name);
    push_char(out, '>');
}

/// Appends `<name>` + escaped `text` + `</name>`.
fn push_tagged_escaped(out: &mut String, name: &str, text: &str)
    ensures
        final(out)@ == old(out)@ + tag(name@, spec_escape_html(text@)),
{
    push_open(out, name);
    push_escaped(out, text);
    push_close(out, name);
}

/// Appends one inline element in storage markup.
fn push_inline_storage(out: &mut String, inline: &Inline)
    ensures
        final(out)@ == old(out)@ + spec_inline_storage(inline@),
{
    proof {
        reveal_strlit("em");
        reveal_strlit("strong");
        reveal_strlit("code");
        reveal_strlit("a");
    }
    match inline {
        Inline::Text(t) => push_escaped(out, t.as_str()),
        Inline::Emphasis(t) => push_tagged_escaped(out, "em", t.as_str()),
        Inline::Strong(t) => push_tagged_escaped(out, "strong", t.as_str()),
        Inline::Code(t) => push_tagged_escaped(out, "code", t.as_str()),
        Inline::Link { text, url } => {
            push_str(out, "<a href=\"");
            proof { reveal_strlit("<a href=\""); }
            push_escaped(out, url.as_str());
            push_char(out, '"');
            push_char(out, '>');
            push_escaped(out, text.as_str());
            push_close(out, "a");
        },
    }
}

/// Inline content in storage markup.
fn inline_to_storage(inlines: &[Inline]) -> (r: String)
    ensures
        r@ == spec_inlines_storage(inlines_view(inlines@)),
{
    let mut out = String::new();
    let mut i: usize = 0;
    while i < inlines.len()
        invariant
            i <= inlines.len(),
            out@ == spec_inlines_storage(inlines_view(inlines@.take(i as int))),
        decreases inlines.len() - i,
    {
        push_inline_storage(&mut out, &inlines[i]);
        proof {
            assert(inlines_view(inlines@.take(i + 1)).drop_last() == inlines_view(
                inlines@.take(i as int),
            ));
        }
        i = i + 1;
    }
    assert(inlines@.take(inlines.len() as int) == inlines@);
    out
}

/// Inline content in markdown.
fn inline_to_markdown(inlines: &[Inline]) -> (r: String)
    ensures
        r@ == spec_inlines_markdown(inlines_view(inlines@)),
{
    let mut out = String::new();
    let mut i: usize = 0;
    while i < inlines.len()
        invariant
            i <= inlines.len(),
            out@ == spec_inlines_markdown(inlines_view(inlines@.take(i as int))),
        decreases inlines.len() - i,
    {
        match &inlines[i] {
            Inline::Text(t) => push_str(&mut out, t.as_str()),
            Inline::Emphasis(t) => {
                push_char(&mut out, '*');
                push_str(&mut out, t.as_str());
                push_char(&mut out, '*');
            },
            Inline::Strong(t) => {
                push_char(&mut out, '*');
                push_char(&mut out, '*');
                push_str(&mut out, t.as_str());
                push_char(&mut out, '*');
                push_char(&mut out, '*');
            },
            Inline::Code(t) => {
                push_char(&mut out, '`');
                push_str(&mut out, t.as_str());
                push_char(&mut out, '`');
            },
            Inline::Link { text, url } => {
                push_char(&mut out, '[');
                push_str(&mut out, text.as_str());
                push_char(&mut out, ']');
                push_char(&mut out, '(');
                push_str(&mut out, url.as_str());
                push_char(&mut out, ')');
            },
        }
        proof {
            assert(inlines_view(inlines@.take(i + 1)).drop_last() == inlines_view(
                inlines@.take(i as int),
            ));
        }
        i = i + 1;
    }
    assert(inlines@.take(inlines.len() as int) == inlines@);
    out
}

/// Inline content as plain text.
pub fn inline_to_text(inlines: &[Inline]) -> (r: String)
    ensures
        r@ == spec_inlines_text(inlines_view(inlines@)),
{
    let mut out = String::new();
    let mut i: usize = 0;
    while i < inlines.len()
        invariant
            i <= inlines.len(),
            out@ == spec_inlines_text(inlines_view(inlines@.take(i as int))),
        decreases inlines.len() - i,
    {
        match &inlines[i] {
            Inline::Text(t) => push_str(&mut out, t.as_str()),
            Inline::Emphasis(t) => push_str(&mut out, t.as_str()),
            Inline::Strong(t) => push_str(&mut out, t.as_str()),
            Inline::Code(t) => push_str(&mut out, t.as_str()),
            Inline::Link { text, url } => {
                push_str(&mut out, text.as_str());
                push_char(&mut out, ' ');
                push_char(&mut out, '(');
                push_str(&mut out, url.as_str());
                push_char(&mut out, ')');
            },
        }
        proof {
            assert(inlines_view(inlines@.take(i + 1)).drop_last() == inlines_view(
                inlines@.take(i as int),
            ));
        }
        i = i + 1;
    }
    assert(inlines@.take(inlines.len() as int) == inlines@);
    out
}

/// Appends one block rendered as storage markup.
#[verifier::spinoff_prover]
#[verifier::rlimit(40)]
fn push_block_storage(out: &mut String, block: &Block)
    ensures
        final(out)@ == old(out)@ + spec_block_storage(block@),
{
    proof {
        reveal_strlit("p");
        reveal_strlit("pre");
        reveal_strlit("code");
        reveal_strlit("ul");
        reveal_strlit("li");
    }
    match block {
        Block::Heading { level, content } => {
            let name = heading_name(*level);
            let body = inline_to_storage(content.as_slice());
            push_open(out, name.as_str());
            push_str(out, body.as_str());
            push_close(out, name.as_str());
        },
        Block::Paragraph(content) => {
            let body = inline_to_storage(content.as_slice());
            push_open(out, "p");
            push_str(out, body.as_str());
            push_close(out, "p");
        },
        Block::CodeBlock { code, .. } => {
            push_open(out, "pre");
            push_tagged_escaped(out, "code", code.as_str());
            push_close(out, "pre");
        },
        Block::BulletList(items) => {
            push_open(out, "ul");
            let mut j: usize = 0;
            let ghost before = out@;
            while j < items.len()
                invariant
                    j <= items.len(),
                    out@ == before + spec_items_storage(items_view(items@.take(j as int))),
                decreases items.len() - j,
            {
                proof {
                    reveal_strlit("li");
                }
                let body = inline_to_storage(items[j].as_slice());
                push_open(out, "li");
                push_str(out, body.as_str());
                push_close(out, "li");
                proof {
                    assert(items_view(items@.take(j + 1)).drop_last() == items_view(
                        items@.take(j as int),
                    ));
                    assert(items_view(items@.take(j + 1)).last() == inlines_view(
                        items@[j as int]@,
                    ));
                }
                j = j + 1;
            }
            assert(items@.take(items.len() as int) == items@);
            push_close(out, "ul");
        },
        Block::RawStorage(raw) => push_str(out, raw.as_str()),
    }
}

/// The document rendered as storage markup.
pub fn document_to_storage(document: &Document) -> (r: String)
    ensures
        r@ == spec_document_storage(document@),
{
    let blocks = &document.blocks;
    let mut out = String::new();
    let mut i: usize = 0;
    while i < blocks.len()
        invariant
            i <= blocks.len(),
            blocks@ == document.blocks@,
            out@ == spec_document_storage(blocks@.take(i as int).map_values(|b: Block| b@)),
        decreases blocks.len() - i,
    {
        push_block_storage(&mut out, &blocks[i]);
        proof {
            assert(blocks@.take(i + 1).map_values(|b: Block| b@).drop_last() == blocks@.take(
                i as int,
            ).map_values(|b: Block| b@));
        }
        i = i + 1;
    }
    assert(blocks@.take(blocks.len() as int) == blocks@);
    assert(blocks@.take(blocks.len() as int).map_values(|b: Block| b@) == document@);
    out
}

/// The tag name `h<level>`.
fn heading_name(level: u8) -> (r: String)
    ensures
        r@ == heading_tag(level),
{
    let mut r = String::new();
    push_char(&mut r, 'h');
    let digits = u64_to_string(level as u64);
    push_str(&mut r, digits.as_str());
    r
}

/// Appends `piece` to `pieces`.
fn push_piece(pieces: &mut Vec<String>, piece: String)
    ensures
        strings_view(final(pieces)@) == strings_view(old(pieces)@).push(piece@),
{
    pieces.push(piece);
    assert(strings_view(pieces@) == strings_view(old(pieces)@).push(piece@));
}

/// Appends the markdown pieces of one block.
fn push_block_markdown(output: &mut Vec<String>, block: &Block)
    ensures
        strings_view(final(output)@) == strings_view(old(output)@) + spec_block_markdown_pieces(block@),
{
    let ghost before = strings_view(output@);
    match block {
        Block::Heading { level, content } => {
            let mut piece = repeat_char('#', *level as usize);
            push_char(&mut piece, ' ');
            let body = inline_to_markdown(content.as_slice());
            push_str(&mut piece, body.as_str());
            assert(piece@ == spec_repeat('#', *level as nat) + seq![' '] + body@);
            push_piece(output, piece);
        },
        Block::Paragraph(content) => {
            let piece = inline_to_markdown(content.as_slice());
            push_piece(output, piece);
        },
        Block::CodeBlock { language, code } => {
            let mut piece = repeat_char('`', 3);
            proof {
                assert(spec_repeat('`', 3) == seq!['`', '`', '`']);
            }
            match language {
                Some(l) => push_str(&mut piece, l.as_str()),
                None => {},
            }
            push_char(&mut piece, '\n');
            push_str(&mut piece, code.as_str());
            push_char(&mut piece, '\n');
            push_char(&mut piece, '`');
            push_char(&mut piece, '`');
            push_char(&mut piece, '`');
            assert(piece@ == seq!['`', '`', '`'] + match language {
                Some(l) => l@,
                None => Seq::<char>::empty(),
            } + seq!['\n'] + code@ + seq!['\n', '`', '`', '`']);
            push_piece(output, piece);
        },
        Block::BulletList(items) => {
            let mut j: usize = 0;
            while j < items.len()
                invariant
                    j <= items.len(),
                    strings_view(output@) == before + items_view(items@.take(j as int)).map_values(
                        |it: Seq<InlineView>| seq!['-', ' '] + spec_inlines_markdown(it),
                    ),
                decreases items.len() - j,
            {
                let mut piece = String::new();
                push_char(&mut piece, '-');
                push_char(&mut piece, ' ');
                let body = inline_to_markdown(items[j].as_slice());
                push_str(&mut piece, body.as_str());
                assert(piece@ == seq!['-', ' '] + body@);
                push_piece(output, piece);
                proof {
                    assert(items_view(items@.take(j + 1)) == items_view(items@.take(j as int)).push(
                        inlines_view(items@[j as int]@),
                    ));
                    assert(items_view(items@.take(j + 1)).map_values(
                        |it: Seq<InlineView>| seq!['-', ' '] + spec_inlines_markdown(it),
                    ) == items_view(items@.take(j as int)).map_values(
                        |it: Seq<InlineView>| seq!['-', ' '] + spec_inlines_markdown(it),
                    ).push(seq!['-', ' '] + spec_inlines_markdown(inlines_view(items@[j as int]@))));
                }
                j = j + 1;
            }
            assert(items@.take(items.len() as int) == items@);
        },
        Block::RawStorage(raw) => {
            let mut piece = copy_str("```storage\n");
            proof { reveal_strlit("```storage\n"); }
            push_str(&mut piece, raw.as_str());
            push_char(&mut piece, '\n');
            push_char(&mut piece, '`');
            push_char(&mut piece, '`');
            push_char(&mut piece, '`');
            assert(piece@ == seq!['`', '`', '`', 's', 't', 'o', 'r', 'a', 'g', 'e', '\n'] + raw@
                + seq!['\n', '`', '`', '`']);
            push_piece(output, piece);
        },
    }
}

/// The document rendered as markdown.
pub fn document_to_markdown(document: &Document) -> (r: String)
    ensures
        r@ == spec_document_markdown(document@),
{
    let blocks = &document.blocks;
    let mut output: Vec<String> = Vec::new();
    let mut i: usize = 0;
    while i < blocks.len()
        invariant
            i <= blocks.len(),
            blocks@ == document.blocks@,
            strings_view(output@) == spec_markdown_pieces(
                blocks@.take(i as int).map_values(|b: Block| b@),
            ),
        decreases blocks.len() - i,
    {
        let ghost before = strings_view(output@);
        push_block_markdown(&mut output, &blocks[i]);
        proof {
            let tk = blocks@.take(i + 1).map_values(|b: Block| b@);
            assert(tk.drop_last() == blocks@.take(i as int).map_values(|b: Block| b@));
            assert(tk.last() == blocks@[i as int]@);
            assert(strings_view(output@) == before + spec_block_markdown_pieces(blocks@[i as int]@));
        }
        i = i + 1;
    }
    assert(blocks@.take(blocks.len() as int) == blocks@);
    assert(blocks@.take(blocks.len() as int).map_values(|b: Block| b@) == document@);
    proof {
        reveal_strlit("\n\n");
        assert("\n\n"@ =~= seq!['\n', '\n']);
    }
    join(output.as_slice(), "\n\n")
}

/// Appends the text pieces of one block.
fn push_block_text(output: &mut Vec<String>, block: &Block)
    ensures
        strings_view(final(output)@) == strings_view(old(output)@) + spec_block_text_pieces(block@),
{
    let ghost before = strings_view(output@);
    match block {
        Block::Heading { content, .. } => {
            let piece = inline_to_text(content.as_slice());
            push_piece(output, piece);
        },
        Block::Paragraph(content) => {
            let piece = inline_to_text(content.as_slice());
            push_piece(output, piece);
        },
        Block::CodeBlock { code, .. } => {
            push_piece(output, code.clone());
        },
        Block::BulletList(items) => {
            let mut j: usize = 0;
            while j < items.len()
                invariant
                    j <= items.len(),
                    strings_view(output@) == before + items_view(items@.take(j as int)).map_values(
                        |it: Seq<InlineView>| seq!['-', ' '] + spec_inlines_text(it),
                    ),
                decreases items.len() - j,
            {
                let mut piece = String::new();
                push_char(&mut piece, '-');
                push_char(&mut piece, ' ');
                let body = inline_to_text(items[j].as_slice());
                push_str(&mut piece, body.as_str());
                assert(piece@ == seq!['-', ' '] + body@);
                push_piece(output, piece);
                proof {
                    assert(items_view(items@.take(j + 1)) == items_view(items@.take(j as int)).push(
                        inlines_view(items@[j as int]@),
                    ));
                    assert(items_view(items@.take(j + 1)).map_values(
                        |it: Seq<InlineView>| seq!['-', ' '] + spec_inlines_text(it),
                    ) == items_view(items@.take(j as int)).map_values(
                        |it: Seq<InlineView>| seq!['-', ' '] + spec_inlines_text(it),
                    ).push(seq!['-', ' '] + spec_inlines_text(inlines_view(items@[j as int]@))));
                }
                j = j + 1;
            }
            assert(items@.take(items.len() as int) == items@);
        },
        Block::RawStorage(raw) => {
            push_piece(output, raw.clone());
        },
    }
}

/// The document rendered as plain text.
pub fn document_to_text(document: &Document) -> (r: String)
    ensures
        r@ == spec_document_text(document@),
{
    let blocks = &document.blocks;
    let mut output: Vec<String> = Vec::new();
    let mut i: usize = 0;
    while i < blocks.len()
        invariant
            i <= blocks.len(),
            blocks@ == document.blocks@,
            strings_view(output@) == spec_text_pieces(
                blocks@.take(i as int).map_values(|b: Block| b@),
            ),
        decreases blocks.len() - i,
    {
        let ghost before = strings_view(output@);
        push_block_text(&mut output, &blocks[i]);
        proof {
            let tk = blocks@.take(i + 1).map_values(|b: Block| b@);
            assert(tk.drop_last() == blocks@.take(i as int).map_values(|b: Block| b@));
            assert(tk.last() == blocks@[i as int]@);
            assert(strings_view(output@) == before + spec_block_text_pieces(blocks@[i as int]@));
        }
        i = i + 1;
    }
    assert(blocks@.take(blocks.len() as int) == blocks@);
    assert(blocks@.take(blocks.len() as int).map_values(|b: Block| b@) == document@);
    proof {
        reveal_strlit("\n");
        assert("\n"@ =~= seq!['\n']);
    }
    join(output.as_slice(), "\n")
}

// ---------------------------------------------------------------------------
// Conversion between representations
// ---------------------------------------------------------------------------

/// A document rendered in the given representation; html is rendered as storage markup.
pub open spec fn spec_render(d: Seq<BlockView>, to: BodyFormat) -> Seq<char> {
    match to {
        BodyFormat::Markdown => spec_document_markdown(d),
        BodyFormat::Storage => spec_document_storage(d),
        BodyFormat::Html => spec_document_storage(d),
        BodyFormat::Text => spec_document_text(d),
    }
}

/// The document plain text stands for: one paragraph of the trimmed text.
pub open spec fn spec_text_document(s: Seq<char>) -> Seq<BlockView> {
    seq![BlockView::Paragraph(seq![InlineView::Text(spec_trim(s))])]
}

fn render(document: &Document, to: BodyFormat) -> (r: String)
    ensures
        r@ == spec_render(document@, to),
{
    match to {
        BodyFormat::Markdown => document_to_markdown(document),
        BodyFormat::Storage => document_to_storage(document),
        BodyFormat::Html => document_to_storage(document),
        BodyFormat::Text => document_to_text(document),
    }
}

/// What converting `input` from one format to another may give: the input itself when
/// the formats agree; for markdown and text the rendering of their document; for storage
/// markup and html the rendering of the document read from the tokenizer's tokens, or
/// the reader's error.
pub open spec fn spec_convert_outcome(input: Seq<char>, from: BodyFormat, to: BodyFormat, r: Result<String>) -> bool {
    &&& from == to ==> (r matches Ok(s) && s@ == input)
    &&& from != to && from == BodyFormat::Markdown ==> (r matches Ok(s) && s@ == spec_render(
        spec_markdown_document(input),
        to,
    ))
    &&& from != to && from == BodyFormat::Text ==> (r matches Ok(s) && s@ == spec_render(
        spec_text_document(input),
        to,
    ))
    &&& from != to && (from == BodyFormat::Storage || from == BodyFormat::Html) ==> match spec_read_blocks(
        spec_storage_tokens(input),
        0,
    ) {
        Ok(v) => r matches Ok(s) && s@ == spec_render(v, to),
        Err(m) => r matches Err(ConfluenceCliError::Config(msg)) && msg@ == m,
    }
}

/// Converts page content between representations. Storage markup and html are read
/// alike; text becomes one paragraph of its trimmed content.
pub fn convert_text(input: &str, from: BodyFormat, to: BodyFormat) -> (r: Result<String>)
    ensures
        spec_convert_outcome(input@, from, to, r),
{
    if from == to {
        return Ok(copy_str(input));
    }
    let document = match from {
        BodyFormat::Markdown => markdown_to_document(input),
        BodyFormat::Storage | BodyFormat::Html => match storage_to_document(input) {
            Ok(d) => d,
            Err(e) => return Err(e),
        },
        BodyFormat::Text => {
            let chars = chars_of(input);
            let trimmed = trim(chars.as_slice());
            let text = string_of(trimmed.as_slice());
            let ghost tv = text@;
            let mut content: Vec<Inline> = Vec::new();
            content.push(Inline::Text(text));
            assert(inlines_view(content@) == seq![InlineView::Text(tv)]);
            let mut blocks: Vec<Block> = Vec::new();
            blocks.push(Block::Paragraph(content));
            let d = Document { blocks };
            assert(d@ == spec_text_document(input@));
            d
        },
    };
    Ok(render(&document, to))
}

// ---------------------------------------------------------------------------
// Managed bundles
// ---------------------------------------------------------------------------

/// What an exported page bundle records about its page.
#[derive(Debug, Clone, PartialEq, Eq)]
pub struct ManagedBundleMetadata {
    pub page_id: Option<u64>,
    pub title: Option<String>,
    pub version: Option<u32>,
    pub body_hash: String,
}

/// The byte strings `<str as Hash>::hash` writes to a hasher for `value`.
pub uninterp spec fn spec_str_hash_writes(value: Seq<char>) -> Seq<Seq<u8>>;

/// `<str as Hash>::hash`: feeds `value` to the hasher, as the writes that depend on
/// `value` alone.
#[verifier::external_body]
fn hash_str(value: &str, hasher: &mut DefaultHasher)
    ensures
        final(hasher)@ == old(hasher)@ + spec_str_hash_writes(value@),
{
    std::hash::Hash::hash(value, hasher)
}

/// The hash of a text: the sixteen hexadecimal digits of what the default hasher gives
/// after the text is fed to it.
pub open spec fn spec_stable_hash(value: Seq<char>) -> Seq<char> {
    spec_hex_digits(DefaultHasher::spec_finish(spec_str_hash_writes(value)) as nat, 16)
}

/// The lowercase hexadecimal digit for `d < 16`.
pub open spec fn spec_hex_digit(d: nat) -> char {
    if d < 10 {
        spec_digit_char(d)
    } else if d == 10 {
        'a'
    } else if d == 11 {
        'b'
    } else if d == 12 {
        'c'
    } else if d == 13 {
        'd'
    } else if d == 14 {
        'e'
    } else {
        'f'
    }
}

/// The last `n` hexadecimal digits of `v`, most significant first.
pub open spec fn spec_hex_digits(v: nat, n: nat) -> Seq<char>
    decreases n,
{
    if n == 0 {
        Seq::empty()
    } else {
        spec_hex_digits(v / 16, (n - 1) as nat).push(spec_hex_digit(v % 16))
    }
}

fn hex_digit(d: u64) -> (c: char)
    requires
        d < 16,
    ensures
        c == spec_hex_digit(d as nat),
{
    if d < 10 {
        digit_char(d)
    } else if d == 10 {
        'a'
    } else if d == 11 {
        'b'
    } else if d == 12 {
        'c'
    } else if d == 13 {
        'd'
    } else if d == 14 {
        'e'
    } else {
        'f'
    }
}

/// `v` as sixteen lowercase hexadecimal digits, as `format!("{:016x}", v)` gives it.
pub fn hex16(v: u64) -> (r: String)
    ensures
        r@ == spec_hex_digits(v as nat, 16),
{
    let mut digits: Vec<char> = Vec::new();
    let mut rest = v;
    let mut n: usize = 0;
    assert(pow16(0) == 1);
    assert(v as nat / 1 == v as nat);
    assert(digits@.reverse() =~= Seq::<char>::empty());
    while n < 16
        invariant
            n <= 16,
            digits@.len() == n,
            rest as nat == v as nat / pow16(n as nat),
            spec_hex_digits(v as nat, 16) == spec_hex_digits(rest as nat, (16 - n) as nat)
                + digits@.reverse(),
        decreases 16 - n,
    {
        proof {
            lemma_pow16_step(v as nat, n as nat);
        }
        let d = rest % 16;
        digits.push(hex_digit(d));
        rest = rest / 16;
        n = n + 1;
        proof {
            assert(digits@.reverse() == seq![spec_hex_digit(d as nat)] + digits@.drop_last().reverse());
        }
    }
    assert(spec_hex_digits(rest as nat, 0) == Seq::<char>::empty());
    let mut out = String::new();
    let mut i: usize = 16;
    while i > 0
        invariant
            i <= 16,
            digits@.len() == 16,
            out@ == digits@.reverse().take(16 - i),
        decreases i,
    {
        i = i - 1;
        push_char(&mut out, digits[i]);
        assert(out@ == digits@.reverse().take(16 - i));
    }
    assert(digits@.reverse().take(16) == digits@.reverse());
    out
}

pub open spec fn pow16(n: nat) -> nat
    decreases n,
{
    if n == 0 {
        1
    } else {
        16 * pow16((n - 1) as nat)
    }
}

proof fn lemma_pow16_pos(n: nat)
    ensures
        pow16(n) > 0,
    decreases n,
{
    if n > 0 {
        lemma_pow16_pos((n - 1) as nat);
    }
}

proof fn lemma_pow16_step(v: nat, n: nat)
    requires
        n <= 16,
    ensures
        pow16(n) > 0,
        v / pow16(n + 1) == (v / pow16(n)) / 16,
        spec_hex_digits(v / pow16(n), (16 - n) as nat) == if n < 16 {
            spec_hex_digits(v / pow16(n + 1), (15 - n) as nat).push(spec_hex_digit((v / pow16(n)) % 16))
        } else {
            Seq::empty()
        },
{
    lemma_pow16_pos(n);
    let p = pow16(n);
    assert(pow16(n + 1) == 16 * p);
    assert(16 * p == p * 16) by (nonlinear_arith);
    vstd::arithmetic::div_mod::lemma_div_denominator(v as int, p as int, 16);
    let x = v / p;
    if n < 16 {
        assert(((16 - n) as nat) > 0);
        assert((((16 - n) as nat) - 1) as nat == (15 - n) as nat);
        assert(spec_hex_digits(x, (16 - n) as nat) == spec_hex_digits(x / 16, (15 - n) as nat).push(
            spec_hex_digit(x % 16),
        ));
    }
}

/// The metadata recorded for an exported page: its id, title and version, and a hash
/// of its storage body.
pub fn build_bundle_metadata(
    page_id: Option<u64>,
    title: Option<String>,
    version: Option<u32>,
    body: &str,
) -> (r: ManagedBundleMetadata)
    ensures
        r.page_id == page_id,
        r.title == title,
        r.version == version,
        r.body_hash@ == spec_stable_hash(body@),
        r.body_hash@.len() == 16,
{
    ManagedBundleMetadata { page_id, title, version, body_hash: stable_hash(body) }
}

/// A hash of `value` as sixteen hexadecimal digits.
fn stable_hash(value: &str) -> (r: String)
    ensures
        r@ == spec_stable_hash(value@),
        r@.len() == 16,
{
    let mut hasher = DefaultHasher::new();
    hash_str(value, &mut hasher);
    assert(hasher@ =~= spec_str_hash_writes(value@));
    let h = hasher.finish();
    proof {
        lemma_hex_len(h as nat, 16);
    }
    hex16(h)
}

proof fn lemma_hex_len(v: nat, n: nat)
    ensures
        spec_hex_digits(v, n).len() == n,
    decreases n,
{
    if n > 0 {
        lemma_hex_len(v / 16, (n - 1) as nat);
    }
}

// ---------------------------------------------------------------------------
// Patches
// ---------------------------------------------------------------------------

#[verifier::external_type_specification]
#[verifier::external_body]
#[verifier::reject_recursive_types(T)]
pub struct ExPatch<'a, T: ToOwned + ?Sized>(diffy::Patch<'a, T>);

/// What `diffy::Patch::from_str` says is wrong with the text as a unified diff; `None`
/// when it parses.
pub uninterp spec fn spec_diffy_parse_error(patch_text: Seq<char>) -> Option<Seq<char>>;

/// Whether diffy accepts the text as a unified diff.
pub open spec fn spec_patch_parses(patch_text: Seq<char>) -> bool {
    spec_diffy_parse_error(patch_text) is None
}

/// A unified diff as diffy parsed it, with the text it was parsed from. Only
/// `parse_patch` makes one, so the text is always the source of the parsed diff.
pub struct ParsedPatch<'a> {
    patch: diffy::Patch<'a, str>,
    text: Ghost<Seq<char>>,
}

impl<'a> ParsedPatch<'a> {
    /// The text the diff was parsed from.
    pub closed spec fn source(&self) -> Seq<char> {
        self.text@
    }
}

/// `diffy::Patch::from_str`: the parsed unified diff, kept with its text, or the
/// parser's description of what is wrong with it.
#[verifier::external_body]
fn parse_patch<'a>(patch_text: &'a str) -> (r: core::result::Result<ParsedPatch<'a>, String>)
    ensures
        match spec_diffy_parse_error(patch_text@) {
            None => r matches Ok(p) && p.source() == patch_text@,
            Some(d) => r matches Err(e) && e@ == d,
        },
{
    match diffy::Patch::from_str(patch_text) {
        Ok(patch) => Ok(ParsedPatch { patch, text: Ghost(patch_text@) }),
        Err(error) => Err(error.to_string()),
    }
}

/// What `diffy::apply` gives for `base` and the diff parsed from `patch_text`: the
/// patched text, or the description of the hunk that does not apply.
pub uninterp spec fn spec_diffy_apply(base: Seq<char>, patch_text: Seq<char>) -> core::result::Result<Seq<char>, Seq<char>>;

/// The view of a text result with a text error.
pub open spec fn text_pair_view(r: core::result::Result<String, String>) -> core::result::Result<Seq<char>, Seq<char>> {
    match r {
        Ok(s) => Ok(s@),
        Err(e) => Err(e@),
    }
}

/// `diffy::apply`: `base` with the diff applied, or the description of the hunk that
/// does not apply.
#[verifier::external_body]
fn apply_patch(base: &str, patch: &ParsedPatch) -> (r: core::result::Result<String, String>)
    ensures
        text_pair_view(r) == spec_diffy_apply(base@, patch.source()),
{
    diffy::apply(base, &patch.patch).map_err(|error| error.to_string())
}

/// What applying a unified diff to `base` gives: a diff that does not parse is refused
/// as invalid; else the patched text diffy gives, or its complaint about the hunk that
/// does not apply.
pub open spec fn spec_patch_outcome(base: Seq<char>, patch_text: Seq<char>, r: Result<String>) -> bool {
    if let Some(d) = spec_diffy_parse_error(patch_text) {
        r matches Err(ConfluenceCliError::Config(m)) && m@ == "invalid patch: "@ + d
    } else {
        match spec_diffy_apply(base, patch_text) {
            Ok(s) => r matches Ok(t) && t@ == s,
            Err(d) => r matches Err(ConfluenceCliError::Config(m)) && m@ == "patch failed: "@ + d,
        }
    }
}

/// Applies a unified diff to `base`.
pub fn apply_unified_patch(base: &str, patch_text: &str) -> (r: Result<String>)
    ensures
        spec_patch_outcome(base@, patch_text@, r),
{
    let patch = match parse_patch(patch_text) {
        Ok(p) => p,
        Err(detail) => {
            let mut m = copy_str("invalid patch: ");
            push_str(&mut m, detail.as_str());
            return Err(ConfluenceCliError::Config(m));
        },
    };
    match apply_patch(base, &patch) {
        Ok(updated) => Ok(updated),
        Err(detail) => {
            let mut m = copy_str("patch failed: ");
            push_str(&mut m, detail.as_str());
            Err(ConfluenceCliError::Config(m))
        },
    }
}

} // verus!
