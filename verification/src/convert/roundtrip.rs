//! Reading back written markdown: a document of headings, paragraphs and one-item
//! bullet lists of plain text is read back as the same document.
use vstd::prelude::*;

use super::markdown::{
    bullet_marker, fence_marker, heading_marker, spec_bullet_item, spec_bullets, spec_heading_level,
    spec_index_of, lemma_index_of, spec_markdown_document, spec_md_blocks, spec_para, spec_parse_inline,
    spec_strip_all, spec_take_delimited, spec_take_link,
};
use super::{spec_block_markdown_pieces, spec_document_markdown, spec_inlines_markdown, spec_markdown_pieces, BlockView, InlineView};
use crate::text::{
    spec_find_char, spec_is_ws, spec_join, spec_lines, spec_starts_with,
    spec_strip_cr, spec_trim, spec_trim_end, spec_trim_start,
};

verus! {

/// Text that markdown reads back as itself: not empty, already trimmed, on one line,
/// without `*`, `` ` `` or `[`, and not starting with `#` or `-`.
pub open spec fn spec_plain_text(s: Seq<char>) -> bool {
    &&& s.len() > 0
    &&& spec_trim(s) == s
    &&& forall|i: int| 0 <= i < s.len() ==> s[i] != '\n' && s[i] != '*' && s[i] != '`' && s[i] != '['
    &&& s[0] != '#'
    &&& s[0] != '-'
}

proof fn lemma_trim_start_len(s: Seq<char>)
    ensures
        spec_trim_start(s).len() <= s.len(),
        s.len() > 0 && spec_is_ws(s[0]) ==> spec_trim_start(s).len() < s.len(),
        s.len() > 0 && !spec_is_ws(s[0]) ==> spec_trim_start(s) == s,
    decreases s.len(),
{
    if s.len() > 0 && spec_is_ws(s[0]) {
        lemma_trim_start_len(s.drop_first());
    }
}

proof fn lemma_trim_end_len(s: Seq<char>)
    ensures
        spec_trim_end(s).len() <= s.len(),
        s.len() > 0 && spec_is_ws(s.last()) ==> spec_trim_end(s).len() < s.len(),
        s.len() > 0 && !spec_is_ws(s.last()) ==> spec_trim_end(s) == s,
    decreases s.len(),
{
    if s.len() > 0 && spec_is_ws(s.last()) {
        lemma_trim_end_len(s.drop_last());
    }
}

/// Trimmed text begins and ends with a character that is not whitespace.
proof fn lemma_trimmed_ends(s: Seq<char>)
    requires
        s.len() > 0,
        spec_trim(s) == s,
    ensures
        !spec_is_ws(s[0]),
        !spec_is_ws(s.last()),
{
    lemma_trim_start_len(s);
    lemma_trim_end_len(spec_trim_start(s));
    if !spec_is_ws(s[0]) {
        lemma_trim_end_len(s);
    }
}

/// Text that begins and ends with a character that is not whitespace is trimmed.
proof fn lemma_trim_fixed(t: Seq<char>)
    requires
        t.len() > 0,
        !spec_is_ws(t[0]),
        !spec_is_ws(t.last()),
    ensures
        spec_trim(t) == t,
{
    lemma_trim_start_len(t);
    lemma_trim_end_len(t);
}

/// A character absent from `s` is not found in it.
proof fn lemma_absent(s: Seq<char>, c: char)
    requires
        forall|i: int| 0 <= i < s.len() ==> s[i] != c,
    ensures
        spec_index_of(s, seq![c]) is None,
        spec_index_of(s, seq![c, c]) is None,
{
    lemma_index_of(s, seq![c]);
    lemma_index_of(s, seq![c, c]);
    if let Some(i) = spec_index_of(s, seq![c]) {
        assert(s.subrange(i, i + 1)[0] == s[i]);
    }
    if let Some(i) = spec_index_of(s, seq![c, c]) {
        assert(s.subrange(i, i + 2)[0] == s[i]);
    }
}

/// Plain text is read as one text element.
proof fn lemma_parse_plain(s: Seq<char>)
    requires
        spec_plain_text(s),
    ensures
        spec_parse_inline(s) == seq![InlineView::Text(s)],
{
    lemma_absent(s, '[');
    lemma_absent(s, '*');
    lemma_absent(s, '`');
    assert(spec_take_link(s) is None);
    assert(spec_take_delimited(s, seq!['*', '*']) is None);
    assert(spec_take_delimited(s, seq!['`']) is None);
    assert(spec_take_delimited(s, seq!['*']) is None);
}

/// The plain text of a simple block.
pub open spec fn spec_block_text(b: BlockView) -> Seq<char> {
    match b {
        BlockView::Heading { content, .. } => content[0]->Text_0,
        BlockView::Paragraph(c) => c[0]->Text_0,
        BlockView::BulletList(items) => items[0][0]->Text_0,
        _ => Seq::empty(),
    }
}

/// A heading of level 1 to 6, a paragraph, or a one-item bullet list, holding one plain
/// text element.
pub open spec fn spec_simple_block(b: BlockView) -> bool {
    match b {
        BlockView::Heading { level, content } => 1 <= level <= 6 && content.len() == 1
            && content[0] is Text && spec_plain_text(content[0]->Text_0),
        BlockView::Paragraph(c) => c.len() == 1 && c[0] is Text && spec_plain_text(c[0]->Text_0),
        BlockView::BulletList(items) => items.len() == 1 && items[0].len() == 1 && items[0][0] is Text
            && spec_plain_text(items[0][0]->Text_0),
        _ => false,
    }
}

/// The markdown line of a simple block.
pub open spec fn spec_block_line(b: BlockView) -> Seq<char> {
    match b {
        BlockView::Heading { level, .. } => heading_marker(level as nat) + spec_block_text(b),
        BlockView::BulletList(_) => bullet_marker() + spec_block_text(b),
        _ => spec_block_text(b),
    }
}

proof fn lemma_one_text(s: Seq<char>)
    ensures
        spec_inlines_markdown(seq![InlineView::Text(s)]) == s,
{
    assert(seq![InlineView::Text(s)].drop_last() =~= Seq::<InlineView>::empty());
    assert(spec_inlines_markdown(Seq::<InlineView>::empty()) == Seq::<char>::empty());
    assert(Seq::<char>::empty() + s =~= s);
}

/// A simple block is written as its one line.
proof fn lemma_block_pieces(b: BlockView)
    requires
        spec_simple_block(b),
    ensures
        spec_block_markdown_pieces(b) == seq![spec_block_line(b)],
{
    lemma_one_text(spec_block_text(b));
    match b {
        BlockView::Heading { level, content } => {
            assert(content =~= seq![InlineView::Text(spec_block_text(b))]);
        },
        BlockView::Paragraph(c) => {
            assert(c =~= seq![InlineView::Text(spec_block_text(b))]);
        },
        BlockView::BulletList(items) => {
            assert(items[0] =~= seq![InlineView::Text(spec_block_text(b))]);
            assert(spec_block_markdown_pieces(b) =~= seq![spec_block_line(b)]);
        },
        _ => {},
    }
}

/// The line of a simple block is one line, trimmed, and does not end in a carriage
/// return.
proof fn lemma_block_line(b: BlockView)
    requires
        spec_simple_block(b),
    ensures
        spec_block_line(b).len() > 0,
        forall|i: int| 0 <= i < spec_block_line(b).len() ==> spec_block_line(b)[i] != '\n',
        spec_trim(spec_block_line(b)) == spec_block_line(b),
        spec_block_line(b).last() != '\r',
{
    let s = spec_block_text(b);
    let t = spec_block_line(b);
    lemma_trimmed_ends(s);
    assert(t.last() == s.last());
    assert(!spec_is_ws(t[0]));
    lemma_trim_fixed(t);
    assert forall|i: int| 0 <= i < t.len() implies t[i] != '\n' by {
        if i >= t.len() - s.len() {
            assert(t[i] == s[i - (t.len() - s.len())]);
        }
    }
}

/// A line of `level` `#`s, a space and text not starting with `#` is a heading of that
/// level.
proof fn lemma_heading_level(level: u8, s: Seq<char>)
    requires
        1 <= level <= 6,
        s.len() > 0,
        s[0] != '#',
    ensures
        spec_heading_level(heading_marker(level as nat) + s) == Some(level),
{
    let t = heading_marker(level as nat) + s;
    assert forall|k: nat| 1 <= k < level implies !spec_starts_with(t, #[trigger] heading_marker(k)) by {
        assert(t[k as int] == '#');
        assert(heading_marker(k)[k as int] == ' ');
        if spec_starts_with(t, heading_marker(k)) {
            assert(t.take(heading_marker(k).len() as int)[k as int] == t[k as int]);
        }
    }
    assert(t.take(heading_marker(level as nat).len() as int) =~= heading_marker(level as nat));
    assert(spec_starts_with(t, heading_marker(level as nat)));
    if level == 1 {
    } else if level == 2 {
        assert(!spec_starts_with(t, heading_marker(1)));
    } else if level == 3 {
        assert(!spec_starts_with(t, heading_marker(1)));
        assert(!spec_starts_with(t, heading_marker(2)));
    } else if level == 4 {
        assert(!spec_starts_with(t, heading_marker(1)));
        assert(!spec_starts_with(t, heading_marker(2)));
        assert(!spec_starts_with(t, heading_marker(3)));
    } else if level == 5 {
        assert(!spec_starts_with(t, heading_marker(1)));
        assert(!spec_starts_with(t, heading_marker(2)));
        assert(!spec_starts_with(t, heading_marker(3)));
        assert(!spec_starts_with(t, heading_marker(4)));
    } else {
        assert(!spec_starts_with(t, heading_marker(1)));
        assert(!spec_starts_with(t, heading_marker(2)));
        assert(!spec_starts_with(t, heading_marker(3)));
        assert(!spec_starts_with(t, heading_marker(4)));
        assert(!spec_starts_with(t, heading_marker(5)));
    }
}

/// A line whose first character is neither `#` nor a space is no heading.
proof fn lemma_no_heading(t: Seq<char>)
    requires
        t.len() > 0,
        t[0] != '#',
    ensures
        spec_heading_level(t) is None,
{
    assert forall|k: nat| 1 <= k <= 6 implies !spec_starts_with(t, #[trigger] heading_marker(k)) by {
        if spec_starts_with(t, heading_marker(k)) {
            assert(t.take(heading_marker(k).len() as int)[0] == t[0]);
        }
    }
    assert(!spec_starts_with(t, heading_marker(1)));
    assert(!spec_starts_with(t, heading_marker(2)));
    assert(!spec_starts_with(t, heading_marker(3)));
    assert(!spec_starts_with(t, heading_marker(4)));
    assert(!spec_starts_with(t, heading_marker(5)));
    assert(!spec_starts_with(t, heading_marker(6)));
}

/// A line whose first character is `c` does not start with a marker beginning with
/// another character.
proof fn lemma_not_prefix(t: Seq<char>, p: Seq<char>)
    requires
        t.len() > 0,
        p.len() > 0,
        t[0] != p[0],
    ensures
        !spec_starts_with(t, p),
{
    if spec_starts_with(t, p) {
        assert(t.take(p.len() as int)[0] == t[0]);
    }
}

/// Reading the line of a simple block, followed by an empty line or nothing, gives the
/// block, and reading goes on two lines further.
proof fn lemma_md_step(lines: Seq<Seq<char>>, i: int, b: BlockView)
    requires
        spec_simple_block(b),
        0 <= i < lines.len(),
        lines[i] == spec_block_line(b),
        i + 1 < lines.len() ==> lines[i + 1] == Seq::<char>::empty(),
    ensures
        spec_md_blocks(lines, i) == seq![b] + spec_md_blocks(lines, i + 2),
{
    let s = spec_block_text(b);
    let t = spec_block_line(b);
    lemma_block_line(b);
    lemma_parse_plain(s);
    assert(spec_trim(lines[i]) == t);
    if i + 1 < lines.len() {
        assert(spec_trim(Seq::<char>::empty()) =~= Seq::<char>::empty());
        assert(spec_trim(lines[i + 1]).len() == 0);
    }
    assert(spec_md_blocks(lines, i + 1) == spec_md_blocks(lines, i + 2));
    match b {
        BlockView::Heading { level, content } => {
            lemma_heading_level(level, s);
            assert(t.skip(level + 1) =~= s);
            assert(content =~= seq![InlineView::Text(s)]);
        },
        BlockView::Paragraph(c) => {
            lemma_no_heading(t);
            lemma_not_prefix(t, fence_marker());
            lemma_not_prefix(t, bullet_marker());
            assert(c =~= seq![InlineView::Text(s)]);
            if i + 1 < lines.len() {
                assert(spec_para(lines, i + 1, t) == (t, i + 2));
            } else {
                assert(spec_para(lines, i + 1, t) == (t, lines.len() as int));
            }
        },
        BlockView::BulletList(items) => {
            lemma_no_heading(t);
            lemma_not_prefix(t, fence_marker());
            assert(t.take(2) =~= bullet_marker());
            assert(t.skip(2) =~= s);
            lemma_not_prefix(s, bullet_marker());
            assert(spec_starts_with(t, bullet_marker()));
            assert(spec_strip_all(s, bullet_marker()) == s);
            assert(spec_strip_all(t, bullet_marker()) == spec_strip_all(t.skip(2), bullet_marker()));
            assert(spec_strip_all(t, bullet_marker()) == s);
            assert(spec_bullet_item(t) == seq![InlineView::Text(s)]);
            assert(items[0] =~= seq![InlineView::Text(s)]);
            if i + 1 < lines.len() {
                assert(spec_bullets(lines, i + 1) == (Seq::<Seq<InlineView>>::empty(), i + 2));
            } else {
                assert(spec_bullets(lines, i + 1) == (Seq::<Seq<InlineView>>::empty(), lines.len() as int));
            }
            assert(items =~= seq![seq![InlineView::Text(s)]] + Seq::<Seq<InlineView>>::empty());
        },
        _ => {},
    }
}

/// Lines with an empty line between each two.
pub open spec fn spec_spaced_lines(ls: Seq<Seq<char>>) -> Seq<Seq<char>>
    decreases ls.len(),
{
    if ls.len() <= 1 {
        ls
    } else {
        seq![ls[0], Seq::<char>::empty()] + spec_spaced_lines(ls.drop_first())
    }
}

proof fn lemma_spaced_index(ls: Seq<Seq<char>>)
    requires
        ls.len() > 0,
    ensures
        spec_spaced_lines(ls).len() == 2 * ls.len() - 1,
        forall|k: int| 0 <= k < ls.len() ==> #[trigger] spec_spaced_lines(ls)[2 * k] == ls[k],
        forall|k: int| 0 <= k < ls.len() - 1 ==> #[trigger] spec_spaced_lines(ls)[2 * k + 1] == Seq::<char>::empty(),
    decreases ls.len(),
{
    if ls.len() > 1 {
        let rest = ls.drop_first();
        lemma_spaced_index(rest);
        let sp = spec_spaced_lines(ls);
        assert forall|k: int| 0 <= k < ls.len() implies #[trigger] sp[2 * k] == ls[k] by {
            if k > 0 {
                assert(sp[2 * k] == spec_spaced_lines(rest)[2 * (k - 1)]);
            }
        }
        assert forall|k: int| 0 <= k < ls.len() - 1 implies #[trigger] sp[2 * k + 1] == Seq::<char>::empty() by {
            if k > 0 {
                assert(sp[2 * k + 1] == spec_spaced_lines(rest)[2 * (k - 1) + 1]);
            }
        }
    }
}

/// A newline is first found past text that has none.
proof fn lemma_find_newline(p: Seq<char>, y: Seq<char>)
    requires
        forall|i: int| 0 <= i < p.len() ==> p[i] != '\n',
    ensures
        spec_find_char(p + y, '\n') == p.len() + spec_find_char(y, '\n'),
    decreases p.len(),
{
    if p.len() > 0 {
        assert((p + y).drop_first() =~= p.drop_first() + y);
        lemma_find_newline(p.drop_first(), y);
    } else {
        assert(p + y =~= y);
    }
}

/// The lines of a line, a newline and more text.
proof fn lemma_lines_cat(p: Seq<char>, y: Seq<char>)
    requires
        forall|i: int| 0 <= i < p.len() ==> p[i] != '\n',
    ensures
        spec_lines(p + seq!['\n'] + y) == seq![spec_strip_cr(p)] + spec_lines(y),
{
    let s = p + seq!['\n'] + y;
    lemma_find_newline(p, seq!['\n'] + y);
    assert(spec_find_char(seq!['\n'] + y, '\n') == 0);
    assert(p + seq!['\n'] + y =~= p + (seq!['\n'] + y));
    assert(spec_find_char(s, '\n') == p.len());
    assert(s.take(p.len() as int) =~= p);
    assert(s.skip(p.len() as int + 1) =~= y);
}

/// The pieces joined, with the first taken off the front.
proof fn lemma_join_front(ps: Seq<Seq<char>>, sep: Seq<char>)
    requires
        ps.len() >= 2,
    ensures
        spec_join(ps, sep) == ps[0] + sep + spec_join(ps.drop_first(), sep),
    decreases ps.len(),
{
    if ps.len() == 2 {
        assert(ps.drop_last() =~= seq![ps[0]]);
        assert(ps.drop_first() =~= seq![ps[1]]);
        assert(spec_join(ps.drop_last(), sep) == ps[0]);
        assert(spec_join(ps.drop_first(), sep) == ps[1]);
        assert(spec_join(ps, sep) == spec_join(ps.drop_last(), sep) + sep + ps.last());
    } else {
        lemma_join_front(ps.drop_last(), sep);
        let x = spec_join(ps.drop_last().drop_first(), sep);
        assert(ps.drop_last().drop_first() =~= ps.drop_first().drop_last());
        assert(ps.drop_first().last() == ps.last());
        assert(ps.drop_last()[0] == ps[0]);
        assert(spec_join(ps, sep) == spec_join(ps.drop_last(), sep) + sep + ps.last());
        assert(spec_join(ps.drop_first(), sep) == x + sep + ps.last());
        assert(ps[0] + sep + x + sep + ps.last() =~= ps[0] + sep + (x + sep + ps.last()));
    }
}

/// The lines of one-line pieces joined by blank lines.
proof fn lemma_lines_of_join(ps: Seq<Seq<char>>)
    requires
        ps.len() > 0,
        forall|k: int|
            0 <= k < ps.len() ==> (#[trigger] ps[k]).len() > 0 && ps[k].last() != '\r' && forall|i: int|
                0 <= i < ps[k].len() ==> ps[k][i] != '\n',
    ensures
        spec_lines(spec_join(ps, seq!['\n', '\n'])) == spec_spaced_lines(ps),
    decreases ps.len(),
{
    let p = ps[0];
    if ps.len() == 1 {
        lemma_find_newline(p, Seq::<char>::empty());
        assert(p + Seq::<char>::empty() =~= p);
        assert(spec_find_char(Seq::<char>::empty(), '\n') == 0);
    } else {
        let rest = ps.drop_first();
        lemma_join_front(ps, seq!['\n', '\n']);
        let j = spec_join(rest, seq!['\n', '\n']);
        assert(p + seq!['\n', '\n'] + j =~= p + seq!['\n'] + (Seq::<char>::empty() + seq!['\n'] + j));
        lemma_lines_cat(p, Seq::<char>::empty() + seq!['\n'] + j);
        lemma_lines_cat(Seq::<char>::empty(), j);
        assert(spec_strip_cr(p) == p);
        assert(spec_strip_cr(Seq::<char>::empty()) == Seq::<char>::empty());
        assert forall|k: int| 0 <= k < rest.len() implies (#[trigger] rest[k]).len() > 0 && rest[k].last() != '\r'
            && forall|i: int| 0 <= i < rest[k].len() ==> rest[k][i] != '\n' by {
            assert(rest[k] == ps[k + 1]);
        }
        lemma_lines_of_join(rest);
        assert(seq![p] + (seq![Seq::<char>::empty()] + spec_spaced_lines(rest)) =~= seq![p, Seq::<char>::empty()]
            + spec_spaced_lines(rest));
    }
}

/// A document of simple blocks is written as their lines.
proof fn lemma_pieces_of_simple(d: Seq<BlockView>)
    requires
        forall|k: int| 0 <= k < d.len() ==> spec_simple_block(#[trigger] d[k]),
    ensures
        spec_markdown_pieces(d) == d.map_values(|b: BlockView| spec_block_line(b)),
    decreases d.len(),
{
    if d.len() > 0 {
        lemma_pieces_of_simple(d.drop_last());
        lemma_block_pieces(d.last());
        assert(d.map_values(|b: BlockView| spec_block_line(b)) =~= d.drop_last().map_values(
            |b: BlockView| spec_block_line(b),
        ) + seq![spec_block_line(d.last())]);
    } else {
        assert(d.map_values(|b: BlockView| spec_block_line(b)) =~= Seq::<Seq<char>>::empty());
    }
}

/// Reading the spaced lines of simple blocks from the line of block `k` gives the blocks
/// from `k` on.
proof fn lemma_read_spaced(d: Seq<BlockView>, k: int)
    requires
        d.len() > 0,
        0 <= k <= d.len(),
        forall|j: int| 0 <= j < d.len() ==> spec_simple_block(#[trigger] d[j]),
    ensures
        spec_md_blocks(spec_spaced_lines(d.map_values(|b: BlockView| spec_block_line(b))), 2 * k)
            == d.skip(k),
    decreases d.len() - k,
{
    let ls = d.map_values(|b: BlockView| spec_block_line(b));
    let lines = spec_spaced_lines(ls);
    lemma_spaced_index(ls);
    if k == d.len() {
        assert(d.skip(k) =~= Seq::<BlockView>::empty());
    } else {
        assert(lines[2 * k] == ls[k]);
        if 2 * k + 1 < lines.len() {
            assert(lines[2 * k + 1] == Seq::<char>::empty());
        }
        lemma_md_step(lines, 2 * k, d[k]);
        lemma_read_spaced(d, k + 1);
        assert(2 * k + 2 == 2 * (k + 1));
        assert(d.skip(k) =~= seq![d[k]] + d.skip(k + 1));
    }
}

/// Markdown written for a document of headings (levels 1 to 6), paragraphs and
/// one-item bullet lists, each holding one plain text, reads back as the same document.
pub proof fn lemma_markdown_round_trip(d: Seq<BlockView>)
    requires
        forall|k: int| 0 <= k < d.len() ==> spec_simple_block(#[trigger] d[k]),
    ensures
        spec_markdown_document(spec_document_markdown(d)) == d,
{
    if d.len() == 0 {
        assert(spec_markdown_pieces(d) =~= Seq::<Seq<char>>::empty());
        assert(spec_lines(Seq::<char>::empty()) =~= Seq::<Seq<char>>::empty());
    } else {
        let ls = d.map_values(|b: BlockView| spec_block_line(b));
        lemma_pieces_of_simple(d);
        assert forall|k: int| 0 <= k < ls.len() implies (#[trigger] ls[k]).len() > 0 && ls[k].last() != '\r'
            && forall|i: int| 0 <= i < ls[k].len() ==> ls[k][i] != '\n' by {
            lemma_block_line(d[k]);
        }
        lemma_lines_of_join(ls);
        lemma_read_spaced(d, 0);
        assert(d.skip(0) =~= d);
    }
}

} // verus!
