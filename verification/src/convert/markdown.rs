//! Reading markdown into the document model.
use vstd::prelude::*;

use super::{Block, BlockView, Document, Inline, InlineView, inlines_view, items_view};
use crate::text::{
    lemma_trim_empty_iff_blank, lines, occurs_at, spec_first_occurrence_from, spec_is_blank,
    spec_lines, spec_occurs_at, spec_repeat, spec_starts_with, spec_trim, find_from, starts_with,
    string_of_range, trim, chars_of, is_blank, string_of, chars_eq, push_char, push_chars, spec_join,
    lemma_find_char_is, spec_find_char,
};
use vstd::string::StrSliceExecFns;

verus! {

// ---------------------------------------------------------------------------
// Searching
// ---------------------------------------------------------------------------

/// The first position at which `p` occurs in `s`.
pub open spec fn spec_index_of(s: Seq<char>, p: Seq<char>) -> Option<int>
    decreases s.len(),
{
    if p.len() > s.len() {
        None
    } else if s.take(p.len() as int) == p {
        Some(0)
    } else {
        proof {
            if s.len() == 0 {
                assert(s.take(p.len() as int) =~= p);
            }
        }
        match spec_index_of(s.drop_first(), p) {
            Some(i) => Some(i + 1),
            None => None,
        }
    }
}

pub proof fn lemma_index_of(s: Seq<char>, p: Seq<char>)
    ensures
        match spec_index_of(s, p) {
            Some(i) => spec_first_occurrence_from(s, p, 0, i),
            None => forall|j: int| 0 <= j ==> !spec_occurs_at(s, p, j),
        },
    decreases s.len(),
{
    if p.len() > s.len() {
    } else if s.take(p.len() as int) == p {
        assert(s.subrange(0, p.len() as int) == s.take(p.len() as int));
    } else {
        if s.len() == 0 {
            assert(s.take(p.len() as int) =~= p);
        }
        lemma_index_of(s.drop_first(), p);
        assert(!spec_occurs_at(s, p, 0)) by {
            assert(s.subrange(0, p.len() as int) == s.take(p.len() as int));
        }
        assert forall|j: int| 1 <= j implies spec_occurs_at(s, p, j) == spec_occurs_at(
            s.drop_first(),
            p,
            j - 1,
        ) by {
            if j + p.len() <= s.len() {
                assert(s.subrange(j, j + p.len()) == s.drop_first().subrange(j - 1, j - 1 + p.len()));
            }
        }
        match spec_index_of(s.drop_first(), p) {
            Some(i) => {
                assert forall|j: int| 0 <= j < i + 1 implies !spec_occurs_at(s, p, j) by {
                    if j >= 1 {
                        assert(!spec_occurs_at(s.drop_first(), p, j - 1));
                    }
                }
            },
            None => {
                assert forall|j: int| 0 <= j implies !spec_occurs_at(s, p, j) by {
                    if j >= 1 {
                        assert(!spec_occurs_at(s.drop_first(), p, j - 1));
                    }
                }
            },
        }
    }
}

pub proof fn lemma_index_of_bounds(s: Seq<char>, p: Seq<char>)
    ensures
        spec_index_of(s, p) matches Some(i) ==> 0 <= i && i + p.len() <= s.len(),
{
    lemma_index_of(s, p);
}

/// Where `p` first occurs in `s[from..]`, counted from the start of `s`.
fn index_of_from(s: &[char], p: &[char], from: usize) -> (r: Option<usize>)
    requires
        from <= s.len(),
    ensures
        match r {
            Some(i) => from <= i && spec_index_of(s@.skip(from as int), p@) == Some(i - from),
            None => spec_index_of(s@.skip(from as int), p@) is None,
        },
{
    let ghost t = s@.skip(from as int);
    proof {
        lemma_index_of(t, p@);
        assert forall|j: int| 0 <= j implies spec_occurs_at(t, p@, j) == spec_occurs_at(
            s@,
            p@,
            j + from,
        ) by {
            if j + p.len() <= t.len() {
                assert(t.subrange(j, j + p.len()) == s@.subrange(j + from, j + from + p.len()));
            }
        }
    }
    match find_from(s, p, from) {
        Some(i) => {
            proof {
                match spec_index_of(t, p@) {
                    Some(k) => {
                        if k + from < i {
                            assert(!spec_occurs_at(s@, p@, k + from));
                        }
                        if i < k + from {
                            assert(!spec_occurs_at(t, p@, i - from));
                        }
                    },
                    None => {
                        assert(!spec_occurs_at(t, p@, i - from));
                    },
                }
            }
            Some(i)
        },
        None => {
            proof {
                match spec_index_of(t, p@) {
                    Some(k) => {
                        assert(!spec_occurs_at(s@, p@, k + from));
                    },
                    None => {},
                }
            }
            None
        },
    }
}

// ---------------------------------------------------------------------------
// Inline markup
// ---------------------------------------------------------------------------

/// `[text](url)` in `s`: the positions of `[`, `]`, `(` and `)`.
pub open spec fn spec_take_link(s: Seq<char>) -> Option<(int, int, int, int)> {
    match spec_index_of(s, seq!['[']) {
        Some(open) => match spec_index_of(s.skip(open + 1), seq![']']) {
            Some(c) => {
                let close = c + open + 1;
                if close + 1 < s.len() && s[close + 1] == '(' {
                    match spec_index_of(s.skip(close + 2), seq![')']) {
                        Some(pc) => Some((open, close, close + 1, pc + close + 2)),
                        None => None,
                    }
                } else {
                    None
                }
            },
            None => None,
        },
        None => None,
    }
}

/// A span delimited by `m` on both sides: the positions of the two markers.
pub open spec fn spec_take_delimited(s: Seq<char>, m: Seq<char>) -> Option<(int, int)> {
    match spec_index_of(s, m) {
        Some(start) => match spec_index_of(s.skip(start + m.len()), m) {
            Some(e) => Some((start, e + start + m.len())),
            None => None,
        },
        None => None,
    }
}

/// A text element for `t`, unless `t` is empty.
pub open spec fn spec_push_text(t: Seq<char>) -> Seq<InlineView> {
    if t.len() > 0 {
        seq![InlineView::Text(t)]
    } else {
        Seq::empty()
    }
}

pub proof fn lemma_take_link_bounds(s: Seq<char>)
    ensures
        spec_take_link(s) matches Some((o, c, po, pc)) ==> 0 <= o < c && c + 1 == po && po < pc
            && pc < s.len() && s[po] == '(',
{
    lemma_index_of_bounds(s, seq!['[']);
    if let Some(open) = spec_index_of(s, seq!['[']) {
        lemma_index_of_bounds(s.skip(open + 1), seq![']']);
        if let Some(c) = spec_index_of(s.skip(open + 1), seq![']']) {
            let close = c + open + 1;
            if close + 1 < s.len() {
                lemma_index_of_bounds(s.skip(close + 2), seq![')']);
            }
        }
    }
}

pub proof fn lemma_take_delimited_bounds(s: Seq<char>, m: Seq<char>)
    ensures
        spec_take_delimited(s, m) matches Some((a, b)) ==> 0 <= a && a + m.len() <= b && b + m.len()
            <= s.len(),
{
    lemma_index_of_bounds(s, m);
    if let Some(start) = spec_index_of(s, m) {
        lemma_index_of_bounds(s.skip(start + m.len()), m);
    }
}

/// Inline markdown read into elements: links, then `**strong**`, then `` `code` ``, then
/// `*emphasis*`, each taken at its first occurrence, with the text around kept.
pub open spec fn spec_parse_inline(s: Seq<char>) -> Seq<InlineView>
    decreases s.len(),
{
    if s.len() == 0 {
        Seq::empty()
    } else if spec_take_link(s) is Some {
        let (o, c, po, pc) = spec_take_link(s)->0;
        proof {
            lemma_take_link_bounds(s);
        }
        spec_push_text(s.take(o)) + seq![
            InlineView::Link { text: s.subrange(o + 1, c), url: s.subrange(po + 1, pc) },
        ] + spec_parse_inline(s.skip(pc + 1))
    } else if spec_take_delimited(s, seq!['*', '*']) is Some {
        let (a, b) = spec_take_delimited(s, seq!['*', '*'])->0;
        proof {
            lemma_take_delimited_bounds(s, seq!['*', '*']);
        }
        spec_push_text(s.take(a)) + seq![InlineView::Strong(s.subrange(a + 2, b))]
            + spec_parse_inline(s.skip(b + 2))
    } else if spec_take_delimited(s, seq!['`']) is Some {
        let (a, b) = spec_take_delimited(s, seq!['`'])->0;
        proof {
            lemma_take_delimited_bounds(s, seq!['`']);
        }
        spec_push_text(s.take(a)) + seq![InlineView::Code(s.subrange(a + 1, b))]
            + spec_parse_inline(s.skip(b + 1))
    } else if spec_take_delimited(s, seq!['*']) is Some {
        let (a, b) = spec_take_delimited(s, seq!['*'])->0;
        proof {
            lemma_take_delimited_bounds(s, seq!['*']);
        }
        spec_push_text(s.take(a)) + seq![InlineView::Emphasis(s.subrange(a + 1, b))]
            + spec_parse_inline(s.skip(b + 1))
    } else {
        spec_push_text(s)
    }
}

/// Finds `[text](url)` in `s[from..]`.
fn take_link(s: &[char], from: usize) -> (r: Option<(usize, usize, usize, usize)>)
    requires
        from <= s.len(),
    ensures
        match r {
            Some((o, c, po, pc)) => from <= o && spec_take_link(s@.skip(from as int)) == Some(
                ((o - from) as int, (c - from) as int, (po - from) as int, (pc - from) as int),
            ) && pc < s.len(),
            None => spec_take_link(s@.skip(from as int)) is None,
        },
{
    let ghost t = s@.skip(from as int);
    proof {
        lemma_take_link_bounds(t);
    }
    let open_marker = vec!['['];
    let close_marker = vec![']'];
    let paren_marker = vec![')'];
    assert(open_marker@ == seq!['[']);
    assert(close_marker@ == seq![']']);
    assert(paren_marker@ == seq![')']);
    let open = match index_of_from(s, open_marker.as_slice(), from) {
        Some(o) => o,
        None => return None,
    };
    proof {
        lemma_index_of_bounds(t, seq!['[']);
    }
    assert(s@.skip(open + 1) == t.skip(open - from + 1));
    let close = match index_of_from(s, close_marker.as_slice(), open + 1) {
        Some(c) => c,
        None => return None,
    };
    proof {
        lemma_index_of_bounds(s@.skip(open + 1), seq![']']);
    }
    if !(close + 1 < s.len() && s[close + 1] == '(') {
        return None;
    }
    assert(s@.skip(close + 2) == t.skip(close - from + 2));
    let paren_close = match index_of_from(s, paren_marker.as_slice(), close + 2) {
        Some(p) => p,
        None => return None,
    };
    proof {
        lemma_index_of_bounds(s@.skip(close + 2), seq![')']);
    }
    Some((open, close, close + 1, paren_close))
}

/// Finds a span delimited by `m` in `s[from..]`.
fn take_delimited(s: &[char], from: usize, m: &[char]) -> (r: Option<(usize, usize)>)
    requires
        from <= s.len(),
    ensures
        match r {
            Some((a, b)) => from <= a && spec_take_delimited(s@.skip(from as int), m@) == Some(
                ((a - from) as int, (b - from) as int),
            ) && b + m.len() <= s.len(),
            None => spec_take_delimited(s@.skip(from as int), m@) is None,
        },
{
    let ghost t = s@.skip(from as int);
    proof {
        lemma_take_delimited_bounds(t, m@);
    }
    let start = match index_of_from(s, m, from) {
        Some(a) => a,
        None => return None,
    };
    proof {
        lemma_index_of_bounds(t, m@);
    }
    assert(s@.skip(start + m.len()) == t.skip(start - from + m.len()));
    let end = match index_of_from(s, m, start + m.len()) {
        Some(b) => b,
        None => return None,
    };
    proof {
        lemma_index_of_bounds(s@.skip(start + m.len()), m@);
    }
    Some((start, end))
}

/// Appends a text element for `s[a..b]` unless it is empty.
fn push_text(out: &mut Vec<Inline>, s: &[char], a: usize, b: usize)
    requires
        a <= b <= s.len(),
    ensures
        inlines_view(final(out)@) == inlines_view(old(out)@) + spec_push_text(
            s@.subrange(a as int, b as int),
        ),
{
    if a < b {
        out.push(Inline::Text(string_of_range(s, a, b)));
        assert(inlines_view(out@) == inlines_view(old(out)@).push(
            InlineView::Text(s@.subrange(a as int, b as int)),
        ));
    } else {
        assert(inlines_view(out@) == inlines_view(old(out)@));
    }
}

proof fn lemma_parse_inline_unfold(s: Seq<char>)
    requires
        s.len() > 0,
    ensures
        spec_parse_inline(s) == if spec_take_link(s) is Some {
            let (o, c, po, pc) = spec_take_link(s)->0;
            spec_push_text(s.take(o)) + seq![
                InlineView::Link { text: s.subrange(o + 1, c), url: s.subrange(po + 1, pc) },
            ] + spec_parse_inline(s.skip(pc + 1))
        } else if spec_take_delimited(s, seq!['*', '*']) is Some {
            let (a, b) = spec_take_delimited(s, seq!['*', '*'])->0;
            spec_push_text(s.take(a)) + seq![InlineView::Strong(s.subrange(a + 2, b))]
                + spec_parse_inline(s.skip(b + 2))
        } else if spec_take_delimited(s, seq!['`']) is Some {
            let (a, b) = spec_take_delimited(s, seq!['`'])->0;
            spec_push_text(s.take(a)) + seq![InlineView::Code(s.subrange(a + 1, b))]
                + spec_parse_inline(s.skip(b + 1))
        } else if spec_take_delimited(s, seq!['*']) is Some {
            let (a, b) = spec_take_delimited(s, seq!['*'])->0;
            spec_push_text(s.take(a)) + seq![InlineView::Emphasis(s.subrange(a + 1, b))]
                + spec_parse_inline(s.skip(b + 1))
        } else {
            spec_push_text(s)
        },
{
}

/// One step of inline parsing at `pos`: the elements it yields and where it stops.
fn parse_inline_step(s: &[char], pos: usize) -> (r: (Vec<Inline>, usize))
    requires
        pos < s.len(),
    ensures
        pos < r.1 <= s.len(),
        spec_parse_inline(s@.skip(pos as int)) == inlines_view(r.0@) + spec_parse_inline(
            s@.skip(r.1 as int),
        ),
{
    let ghost t = s@.skip(pos as int);
    let mut out: Vec<Inline> = Vec::new();
    let strong = vec!['*', '*'];
    let code = vec!['`'];
    let em = vec!['*'];
    assert(strong@ == seq!['*', '*']);
    assert(code@ == seq!['`']);
    assert(em@ == seq!['*']);
    proof {
        lemma_parse_inline_unfold(t);
        lemma_take_link_bounds(t);
        lemma_take_delimited_bounds(t, seq!['*', '*']);
        lemma_take_delimited_bounds(t, seq!['`']);
        lemma_take_delimited_bounds(t, seq!['*']);
    }
    if let Some((o, c, po, pc)) = take_link(s, pos) {
        push_text(&mut out, s, pos, o);
        let ghost mid = inlines_view(out@);
        let text = string_of_range(s, o + 1, c);
        let url = string_of_range(s, po + 1, pc);
        let ghost lv = InlineView::Link { text: text@, url: url@ };
        out.push(Inline::Link { text, url });
        assert(inlines_view(out@) == mid.push(lv));
        proof {
            assert(t.take(o - pos) == s@.subrange(pos as int, o as int));
            assert(t.subrange(o - pos + 1, c - pos) == s@.subrange(o + 1, c as int));
            assert(t.subrange(po - pos + 1, pc - pos) == s@.subrange(po + 1, pc as int));
            assert(t.skip(pc - pos + 1) == s@.skip(pc + 1));
        }
        return (out, pc + 1);
    }
    if let Some((a, b)) = take_delimited(s, pos, strong.as_slice()) {
        push_text(&mut out, s, pos, a);
        let ghost mid = inlines_view(out@);
        let inner = string_of_range(s, a + 2, b);
        let ghost iv = InlineView::Strong(inner@);
        out.push(Inline::Strong(inner));
        assert(inlines_view(out@) == mid.push(iv));
        proof {
            assert(t.take(a - pos) == s@.subrange(pos as int, a as int));
            assert(t.subrange(a - pos + 2, b - pos) == s@.subrange(a + 2, b as int));
            assert(t.skip(b - pos + 2) == s@.skip(b + 2));
        }
        return (out, b + 2);
    }
    if let Some((a, b)) = take_delimited(s, pos, code.as_slice()) {
        push_text(&mut out, s, pos, a);
        let ghost mid = inlines_view(out@);
        let inner = string_of_range(s, a + 1, b);
        let ghost iv = InlineView::Code(inner@);
        out.push(Inline::Code(inner));
        assert(inlines_view(out@) == mid.push(iv));
        proof {
            assert(t.take(a - pos) == s@.subrange(pos as int, a as int));
            assert(t.subrange(a - pos + 1, b - pos) == s@.subrange(a + 1, b as int));
            assert(t.skip(b - pos + 1) == s@.skip(b + 1));
        }
        return (out, b + 1);
    }
    if let Some((a, b)) = take_delimited(s, pos, em.as_slice()) {
        push_text(&mut out, s, pos, a);
        let ghost mid = inlines_view(out@);
        let inner = string_of_range(s, a + 1, b);
        let ghost iv = InlineView::Emphasis(inner@);
        out.push(Inline::Emphasis(inner));
        assert(inlines_view(out@) == mid.push(iv));
        proof {
            assert(t.take(a - pos) == s@.subrange(pos as int, a as int));
            assert(t.subrange(a - pos + 1, b - pos) == s@.subrange(a + 1, b as int));
            assert(t.skip(b - pos + 1) == s@.skip(b + 1));
        }
        return (out, b + 1);
    }
    push_text(&mut out, s, pos, s.len());
    proof {
        assert(t == s@.subrange(pos as int, s.len() as int));
        assert(s@.skip(s.len() as int) == Seq::<char>::empty());
        assert(spec_parse_inline(Seq::<char>::empty()) == Seq::<InlineView>::empty());
        assert(inlines_view(out@) + Seq::<InlineView>::empty() == inlines_view(out@));
    }
    (out, s.len())
}

/// Inline markdown read into elements.
pub fn parse_inline(s: &[char]) -> (r: Vec<Inline>)
    ensures
        inlines_view(r@) == spec_parse_inline(s@),
{
    let mut out: Vec<Inline> = Vec::new();
    let mut pos: usize = 0;
    assert(s@.skip(0) == s@);
    while pos < s.len()
        invariant
            pos <= s.len(),
            spec_parse_inline(s@) == inlines_view(out@) + spec_parse_inline(s@.skip(pos as int)),
        decreases s.len() - pos,
    {
        let (mut piece, next) = parse_inline_step(s, pos);
        let ghost before = inlines_view(out@);
        let ghost pv = inlines_view(piece@);
        out.append(&mut piece);
        assert(inlines_view(out@) == before + pv);
        pos = next;
    }
    proof {
        assert(s@.skip(s.len() as int) == Seq::<char>::empty());
        assert(inlines_view(out@) + Seq::<InlineView>::empty() == inlines_view(out@));
    }
    out
}

// ---------------------------------------------------------------------------
// Blocks
// ---------------------------------------------------------------------------

/// The lines of a text as character vectors.
pub open spec fn lines_view(v: Seq<Vec<char>>) -> Seq<Seq<char>> {
    v.map_values(|l: Vec<char>| l@)
}

/// `level` `#` characters followed by a space.
pub open spec fn heading_marker(level: nat) -> Seq<char> {
    spec_repeat('#', level) + seq![' ']
}

/// The heading level of a trimmed line: the smallest `n` in 1..=6 such that the line
/// begins with `n` `#` characters and a space.
pub open spec fn spec_heading_level(t: Seq<char>) -> Option<u8> {
    if spec_starts_with(t, heading_marker(1)) {
        Some(1)
    } else if spec_starts_with(t, heading_marker(2)) {
        Some(2)
    } else if spec_starts_with(t, heading_marker(3)) {
        Some(3)
    } else if spec_starts_with(t, heading_marker(4)) {
        Some(4)
    } else if spec_starts_with(t, heading_marker(5)) {
        Some(5)
    } else if spec_starts_with(t, heading_marker(6)) {
        Some(6)
    } else {
        None
    }
}

/// `s` with every leading repetition of `p` removed, as `trim_start_matches` does.
pub open spec fn spec_strip_all(s: Seq<char>, p: Seq<char>) -> Seq<char>
    decreases s.len(),
{
    if p.len() > 0 && spec_starts_with(s, p) {
        spec_strip_all(s.skip(p.len() as int), p)
    } else {
        s
    }
}

pub open spec fn fence_marker() -> Seq<char> {
    seq!['`', '`', '`']
}

pub open spec fn bullet_marker() -> Seq<char> {
    seq!['-', ' ']
}

/// A trimmed line that ends a paragraph without being part of it.
pub open spec fn spec_breaks_paragraph(t: Seq<char>) -> bool {
    spec_heading_level(t) is Some || spec_starts_with(t, bullet_marker()) || spec_starts_with(
        t,
        fence_marker(),
    )
}

/// The code collected so far with one more line appended.
pub open spec fn spec_code_acc(acc: Seq<char>, line: Seq<char>) -> Seq<char> {
    if acc.len() == 0 {
        line
    } else {
        acc + seq!['\n'] + line
    }
}

/// The body of a fenced code block starting at line `j`, and the line after its fence.
pub open spec fn spec_fence(lines: Seq<Seq<char>>, j: int, acc: Seq<char>) -> (Seq<char>, int)
    decreases lines.len() - j,
{
    if j < 0 || j >= lines.len() {
        (acc, lines.len() as int)
    } else if spec_trim(lines[j]) == fence_marker() {
        (acc, j + 1)
    } else {
        spec_fence(lines, j + 1, spec_code_acc(acc, lines[j]))
    }
}

/// One bullet item from its trimmed line.
pub open spec fn spec_bullet_item(t: Seq<char>) -> Seq<InlineView> {
    spec_parse_inline(spec_trim(spec_strip_all(t, bullet_marker())))
}

/// The further items of a bullet list from line `j`, and the line after the list.
pub open spec fn spec_bullets(lines: Seq<Seq<char>>, j: int) -> (Seq<Seq<InlineView>>, int)
    decreases lines.len() - j,
{
    if j < 0 || j >= lines.len() {
        (Seq::empty(), lines.len() as int)
    } else if spec_starts_with(spec_trim(lines[j]), bullet_marker()) {
        let rest = spec_bullets(lines, j + 1);
        (seq![spec_bullet_item(spec_trim(lines[j]))] + rest.0, rest.1)
    } else if spec_trim(lines[j]).len() == 0 {
        (Seq::empty(), j + 1)
    } else {
        (Seq::empty(), j)
    }
}

/// The text of a paragraph continued from line `j`, and the line after it.
pub open spec fn spec_para(lines: Seq<Seq<char>>, j: int, acc: Seq<char>) -> (Seq<char>, int)
    decreases lines.len() - j,
{
    if j < 0 || j >= lines.len() {
        (acc, lines.len() as int)
    } else if spec_trim(lines[j]).len() == 0 {
        (acc, j + 1)
    } else if spec_breaks_paragraph(spec_trim(lines[j])) {
        (acc, j)
    } else {
        spec_para(lines, j + 1, acc + seq![' '] + spec_trim(lines[j]))
    }
}

pub proof fn lemma_fence_next(lines: Seq<Seq<char>>, j: int, acc: Seq<char>)
    requires
        0 <= j,
    ensures
        j <= spec_fence(lines, j, acc).1 <= lines.len() || (j >= lines.len() && spec_fence(
            lines,
            j,
            acc,
        ).1 == lines.len()),
    decreases lines.len() - j,
{
    if j < lines.len() && spec_trim(lines[j]) != fence_marker() {
        lemma_fence_next(lines, j + 1, spec_code_acc(acc, lines[j]));
    }
}

pub proof fn lemma_bullets_next(lines: Seq<Seq<char>>, j: int)
    requires
        0 <= j,
    ensures
        j <= spec_bullets(lines, j).1 <= lines.len() || (j >= lines.len() && spec_bullets(
            lines,
            j,
        ).1 == lines.len()),
    decreases lines.len() - j,
{
    if j < lines.len() && spec_starts_with(spec_trim(lines[j]), bullet_marker()) {
        lemma_bullets_next(lines, j + 1);
    }
}

pub proof fn lemma_para_next(lines: Seq<Seq<char>>, j: int, acc: Seq<char>)
    requires
        0 <= j,
    ensures
        j <= spec_para(lines, j, acc).1 <= lines.len() || (j >= lines.len() && spec_para(
            lines,
            j,
            acc,
        ).1 == lines.len()),
    decreases lines.len() - j,
{
    if j < lines.len() && spec_trim(lines[j]).len() != 0 && !spec_breaks_paragraph(
        spec_trim(lines[j]),
    ) {
        lemma_para_next(lines, j + 1, acc + seq![' '] + spec_trim(lines[j]));
    }
}

/// The blocks of a markdown text from line `i` on.
pub open spec fn spec_md_blocks(lines: Seq<Seq<char>>, i: int) -> Seq<BlockView>
    decreases lines.len() - i,
{
    if i < 0 || i >= lines.len() {
        Seq::empty()
    } else {
        let t = spec_trim(lines[i]);
        if t.len() == 0 {
            spec_md_blocks(lines, i + 1)
        } else if spec_heading_level(t) is Some {
            let level = spec_heading_level(t)->0;
            seq![
                BlockView::Heading {
                    level,
                    content: spec_parse_inline(spec_trim(t.skip(level + 1))),
                },
            ] + spec_md_blocks(lines, i + 1)
        } else if spec_starts_with(t, fence_marker()) {
            let lang = spec_trim(spec_strip_all(t, fence_marker()));
            let f = spec_fence(lines, i + 1, Seq::empty());
            proof {
                lemma_fence_next(lines, i + 1, Seq::empty());
            }
            seq![
                BlockView::CodeBlock {
                    language: if lang.len() == 0 {
                        None
                    } else {
                        Some(lang)
                    },
                    code: f.0,
                },
            ] + spec_md_blocks(lines, f.1)
        } else if spec_starts_with(t, bullet_marker()) {
            let b = spec_bullets(lines, i + 1);
            proof {
                lemma_bullets_next(lines, i + 1);
            }
            seq![BlockView::BulletList(seq![spec_bullet_item(t)] + b.0)] + spec_md_blocks(
                lines,
                b.1,
            )
        } else {
            let p = spec_para(lines, i + 1, t);
            proof {
                lemma_para_next(lines, i + 1, t);
            }
            seq![BlockView::Paragraph(spec_parse_inline(p.0))] + spec_md_blocks(lines, p.1)
        }
    }
}

/// The document a markdown text describes.
pub open spec fn spec_markdown_document(s: Seq<char>) -> Seq<BlockView> {
    spec_md_blocks(spec_lines(s), 0)
}

/// The lines from `i` up to `k`, each trimmed.
pub open spec fn spec_trimmed_lines(lines: Seq<Seq<char>>, i: int, k: int) -> Seq<Seq<char>> {
    lines.subrange(i, k).map_values(|l: Seq<char>| spec_trim(l))
}

/// A line that belongs to a paragraph: not blank, and opening no heading, list or
/// code block.
pub open spec fn spec_paragraph_line(l: Seq<char>) -> bool {
    spec_trim(l).len() > 0 && !spec_breaks_paragraph(spec_trim(l))
}

proof fn lemma_para_joins(lines: Seq<Seq<char>>, i: int, j: int, k: int)
    requires
        0 <= i < j <= k <= lines.len(),
        forall|m: int| i <= m < k ==> spec_paragraph_line(#[trigger] lines[m]),
        k < lines.len() ==> !spec_paragraph_line(lines[k]),
    ensures
        spec_para(lines, j, spec_join(spec_trimmed_lines(lines, i, j), " "@)) == (
            spec_join(spec_trimmed_lines(lines, i, k), " "@),
            if k < lines.len() && spec_trim(lines[k]).len() == 0 {
                k + 1
            } else {
                k
            },
        ),
    decreases k - j,
{
    reveal_strlit(" ");
    if j < k {
        assert(spec_paragraph_line(lines[j]));
        let before = spec_trimmed_lines(lines, i, j);
        let after = spec_trimmed_lines(lines, i, j + 1);
        assert(after.len() >= 2);
        assert(after.drop_last() =~= before);
        assert(after.last() == spec_trim(lines[j]));
        assert(" "@ =~= seq![' ']);
        assert(spec_join(after, " "@) == spec_join(before, " "@) + seq![' '] + spec_trim(lines[j]));
        lemma_para_joins(lines, i, j + 1, k);
    }
}

/// A paragraph is a run of consecutive lines that are not blank and open no other
/// block: its text is those lines, trimmed and joined with single spaces, and reading
/// goes on after the run, past the blank line that ends it.
pub proof fn lemma_paragraph_joins_lines(lines: Seq<Seq<char>>, i: int, k: int)
    requires
        0 <= i < k <= lines.len(),
        forall|m: int| i <= m < k ==> spec_paragraph_line(#[trigger] lines[m]),
        k < lines.len() ==> !spec_paragraph_line(lines[k]),
    ensures
        spec_md_blocks(lines, i) == seq![
            BlockView::Paragraph(spec_parse_inline(spec_join(spec_trimmed_lines(lines, i, k), " "@))),
        ] + spec_md_blocks(
            lines,
            if k < lines.len() && spec_trim(lines[k]).len() == 0 {
                k + 1
            } else {
                k
            },
        ),
{
    assert(spec_paragraph_line(lines[i]));
    let first = spec_trimmed_lines(lines, i, i + 1);
    assert(first.len() == 1);
    assert(spec_join(first, " "@) == spec_trim(lines[i]));
    lemma_para_joins(lines, i, i + 1, k);
}

/// Two lines of plain text, one under the other, are one paragraph: the two lines
/// trimmed, with a space between them.
pub proof fn lemma_two_lines_one_paragraph(a: Seq<char>, b: Seq<char>)
    requires
        !a.contains('\n'),
        !b.contains('\n'),
        !a.contains('\r'),
        spec_paragraph_line(a),
        spec_paragraph_line(b),
    ensures
        spec_markdown_document(a + seq!['\n'] + b) == seq![
            BlockView::Paragraph(spec_parse_inline(spec_trim(a) + seq![' '] + spec_trim(b))),
        ],
{
    reveal_strlit(" ");
    let s = a + seq!['\n'] + b;
    assert(spec_trim(a).len() > 0 && spec_trim(b).len() > 0);
    assert(a.len() > 0) by {
        if a.len() == 0 {
            assert(spec_trim(a) =~= a);
        }
    }
    assert(b.len() > 0) by {
        if b.len() == 0 {
            assert(spec_trim(b) =~= b);
        }
    }
    assert forall|j: int| 0 <= j < a.len() implies s[j] != '\n' by {
        assert(s[j] == a[j]);
    }
    lemma_find_char_is(s, '\n', a.len() as int);
    assert(s.take(a.len() as int) =~= a);
    assert(a.last() != '\r');
    assert(s.skip(a.len() + 1int) =~= b);
    lemma_find_char_is(b, '\n', b.len() as int);
    assert(spec_lines(b) == seq![b]);
    let lines = seq![a, b];
    assert(spec_lines(s) =~= lines);
    lemma_paragraph_joins_lines(lines, 0, 2);
    let t = spec_trimmed_lines(lines, 0, 2);
    assert(t =~= seq![spec_trim(a), spec_trim(b)]);
    assert(t.drop_last() =~= seq![spec_trim(a)]);
    assert(spec_join(t.drop_last(), " "@) == spec_trim(a));
    assert(t.last() == spec_trim(b));
    assert(" "@ =~= seq![' ']);
    assert(spec_join(t, " "@) == spec_trim(a) + seq![' '] + spec_trim(b));
    assert(spec_md_blocks(lines, 2) == Seq::<BlockView>::empty());
}

/// The heading level of a trimmed line.
fn heading_level(t: &[char]) -> (r: Option<u8>)
    ensures
        r == spec_heading_level(t@),
{
    let mut level: u8 = 1;
    let mut marker: Vec<char> = vec!['#', ' '];
    assert(marker@ == heading_marker(1)) by {
        assert(spec_repeat('#', 1) =~= seq!['#']);
    }
    while level <= 6
        invariant
            1 <= level <= 7,
            level <= 6 ==> marker@ == heading_marker(level as nat),
            forall|l: nat| 1 <= l < level ==> !spec_starts_with(t@, #[trigger] heading_marker(l)),
        decreases 7 - level,
    {
        if starts_with(t, marker.as_slice()) {
            return Some(level);
        }
        marker.insert(0, '#');
        assert(marker@ == heading_marker(level as nat + 1)) by {
            assert(heading_marker(level as nat + 1) =~= seq!['#'] + heading_marker(level as nat));
        }
        level = level + 1;
    }
    None
}

/// Where `t` begins once every leading repetition of `p` is removed.
fn strip_all_start(t: &[char], p: &[char]) -> (k: usize)
    ensures
        k <= t.len(),
        t@.skip(k as int) == spec_strip_all(t@, p@),
{
    let mut k: usize = 0;
    assert(t@.skip(0) == t@);
    if p.len() == 0 {
        return 0;
    }
    loop
        invariant
            k <= t.len(),
            p.len() > 0,
            spec_strip_all(t@.skip(k as int), p@) == spec_strip_all(t@, p@),
        decreases t.len() - k,
    {
        let rest = slice_from(t, k);
        if starts_with(rest.as_slice(), p) {
            assert(t@.skip(k as int).skip(p.len() as int) == t@.skip(k + p.len()));
            k = k + p.len();
        } else {
            return k;
        }
    }
}

/// The characters `t[k..]`.
fn slice_from(t: &[char], k: usize) -> (r: Vec<char>)
    requires
        k <= t.len(),
    ensures
        r@ == t@.skip(k as int),
{
    let mut r: Vec<char> = Vec::new();
    let mut i = k;
    while i < t.len()
        invariant
            k <= i <= t.len(),
            r@ == t@.subrange(k as int, i as int),
        decreases t.len() - i,
    {
        r.push(t[i]);
        i = i + 1;
        assert(r@ == t@.subrange(k as int, i as int));
    }
    r
}

/// The body of a fenced code block starting at line `j`, and the line after its fence.
fn read_fence(lines: &Vec<Vec<char>>, j: usize) -> (r: (String, usize))
    requires
        j <= lines.len(),
    ensures
        (r.0@, r.1 as int) == spec_fence(lines_view(lines@), j as int, Seq::empty()),
{
    let ghost lv = lines_view(lines@);
    let mut code = String::new();
    let mut k = j;
    let fence = vec!['`', '`', '`'];
    assert(fence@ == fence_marker());
    while k < lines.len()
        invariant
            j <= k <= lines.len(),
            lv == lines_view(lines@),
            fence@ == fence_marker(),
            spec_fence(lv, j as int, Seq::empty()) == spec_fence(lv, k as int, code@),
        decreases lines.len() - k,
    {
        let t = trim(lines[k].as_slice());
        assert(lv[k as int] == lines@[k as int]@);
        if chars_eq(t.as_slice(), fence.as_slice()) {
            return (code, k + 1);
        }
        let ghost prev = code@;
        if code.unicode_len() > 0 {
            push_char(&mut code, '\n');
        }
        push_chars(&mut code, lines[k].as_slice());
        assert(code@ == spec_code_acc(prev, lv[k as int]));
        k = k + 1;
    }
    (code, k)
}

/// The further items of a bullet list from line `j`, and the line after the list.
fn read_bullets(lines: &Vec<Vec<char>>, j: usize) -> (r: (Vec<Vec<Inline>>, usize))
    requires
        j <= lines.len(),
    ensures
        (items_view(r.0@), r.1 as int) == spec_bullets(lines_view(lines@), j as int),
{
    let ghost lv = lines_view(lines@);
    let mut items: Vec<Vec<Inline>> = Vec::new();
    let mut k = j;
    let bullet = vec!['-', ' '];
    assert(bullet@ == bullet_marker());
    while k < lines.len()
        invariant
            j <= k <= lines.len(),
            lv == lines_view(lines@),
            bullet@ == bullet_marker(),
            spec_bullets(lv, j as int).1 == spec_bullets(lv, k as int).1,
            spec_bullets(lv, j as int).0 == items_view(items@) + spec_bullets(lv, k as int).0,
        decreases lines.len() - k,
    {
        let t = trim(lines[k].as_slice());
        assert(lv[k as int] == lines@[k as int]@);
        if starts_with(t.as_slice(), bullet.as_slice()) {
            let item = bullet_item(t.as_slice());
            let ghost before = items_view(items@);
            items.push(item);
            assert(items_view(items@) == before.push(inlines_view(item@)));
            k = k + 1;
        } else if t.len() == 0 {
            assert(items_view(items@) + Seq::<Seq<InlineView>>::empty() == items_view(items@));
            return (items, k + 1);
        } else {
            assert(items_view(items@) + Seq::<Seq<InlineView>>::empty() == items_view(items@));
            return (items, k);
        }
    }
    assert(items_view(items@) + Seq::<Seq<InlineView>>::empty() == items_view(items@));
    (items, k)
}

/// One bullet item from its trimmed line.
fn bullet_item(t: &[char]) -> (r: Vec<Inline>)
    ensures
        inlines_view(r@) == spec_bullet_item(t@),
{
    let bullet = vec!['-', ' '];
    assert(bullet@ == bullet_marker());
    let k = strip_all_start(t, bullet.as_slice());
    let rest = slice_from(t, k);
    let body = trim(rest.as_slice());
    parse_inline(body.as_slice())
}

/// The text of a paragraph continued from line `j`, and the line after it.
fn read_paragraph(lines: &Vec<Vec<char>>, j: usize, first: Vec<char>) -> (r: (Vec<char>, usize))
    requires
        j <= lines.len(),
    ensures
        (r.0@, r.1 as int) == spec_para(lines_view(lines@), j as int, first@),
{
    let ghost lv = lines_view(lines@);
    let mut acc = first;
    let mut k = j;
    let bullet = vec!['-', ' '];
    let fence = vec!['`', '`', '`'];
    assert(bullet@ == bullet_marker());
    assert(fence@ == fence_marker());
    while k < lines.len()
        invariant
            j <= k <= lines.len(),
            lv == lines_view(lines@),
            bullet@ == bullet_marker(),
            fence@ == fence_marker(),
            spec_para(lv, j as int, first@) == spec_para(lv, k as int, acc@),
        decreases lines.len() - k,
    {
        let t = trim(lines[k].as_slice());
        assert(lv[k as int] == lines@[k as int]@);
        if t.len() == 0 {
            return (acc, k + 1);
        }
        if heading_level(t.as_slice()).is_some() || starts_with(t.as_slice(), bullet.as_slice())
            || starts_with(t.as_slice(), fence.as_slice()) {
            return (acc, k);
        }
        let ghost prev = acc@;
        acc.push(' ');
        let ghost tv = t@;
        let mut tt = t;
        acc.append(&mut tt);
        assert(acc@ == prev + seq![' '] + tv);
        k = k + 1;
    }
    (acc, k)
}

/// Reads markdown into a document: headings, fenced code blocks, bullet lists and
/// paragraphs, with inline markup inside headings, items and paragraphs.
pub fn markdown_to_document(input: &str) -> (r: Document)
    ensures
        r@ == spec_markdown_document(input@),
{
    let chars = chars_of(input);
    let lines = lines(chars.as_slice());
    let ghost lv = lines_view(lines@);
    assert(lv == spec_lines(input@));
    let mut blocks: Vec<Block> = Vec::new();
    let mut i: usize = 0;
    let bullet = vec!['-', ' '];
    let fence = vec!['`', '`', '`'];
    assert(bullet@ == bullet_marker());
    assert(fence@ == fence_marker());
    while i < lines.len()
        invariant
            i <= lines.len(),
            lv == lines_view(lines@),
            bullet@ == bullet_marker(),
            fence@ == fence_marker(),
            spec_md_blocks(lv, 0) == blocks@.map_values(|b: Block| b@) + spec_md_blocks(lv, i as int),
        decreases lines.len() - i,
    {
        let ghost before = blocks@.map_values(|b: Block| b@);
        let t = trim(lines[i].as_slice());
        assert(lv[i as int] == lines@[i as int]@);
        if t.len() == 0 {
            i = i + 1;
            continue;
        }
        if let Some(level) = heading_level(t.as_slice()) {
            let rest = slice_from(t.as_slice(), level as usize + 1);
            let body = trim(rest.as_slice());
            let content = parse_inline(body.as_slice());
            let block = Block::Heading { level, content };
            let ghost bv = block@;
            blocks.push(block);
            assert(blocks@.map_values(|b: Block| b@) == before.push(bv));
            i = i + 1;
            continue;
        }
        if starts_with(t.as_slice(), fence.as_slice()) {
            let k = strip_all_start(t.as_slice(), fence.as_slice());
            let rest = slice_from(t.as_slice(), k);
            let lang = trim(rest.as_slice());
            let language = if lang.len() == 0 {
                None
            } else {
                Some(string_of(lang.as_slice()))
            };
            let (code, next) = read_fence(&lines, i + 1);
            proof {
                lemma_fence_next(lv, i + 1, Seq::empty());
            }
            let block = Block::CodeBlock { language, code };
            let ghost bv = block@;
            blocks.push(block);
            assert(blocks@.map_values(|b: Block| b@) == before.push(bv));
            i = next;
            continue;
        }
        if starts_with(t.as_slice(), bullet.as_slice()) {
            let first = bullet_item(t.as_slice());
            let (rest, next) = read_bullets(&lines, i + 1);
            proof {
                lemma_bullets_next(lv, i + 1);
            }
            let mut items: Vec<Vec<Inline>> = Vec::new();
            items.push(first);
            let mut rest = rest;
            let ghost rv = items_view(rest@);
            let ghost f = items_view(items@);
            assert(f == seq![spec_bullet_item(t@)]);
            items.append(&mut rest);
            assert(items_view(items@) == f + rv);
            assert(rv == spec_bullets(lv, i + 1).0);
            let block = Block::BulletList(items);
            let ghost bv = block@;
            blocks.push(block);
            assert(blocks@.map_values(|b: Block| b@) == before.push(bv));
            i = next;
            continue;
        }
        let (text, next) = read_paragraph(&lines, i + 1, t);
        proof {
            lemma_para_next(lv, i + 1, t@);
        }
        let content = parse_inline(text.as_slice());
        let block = Block::Paragraph(content);
        let ghost bv = block@;
        blocks.push(block);
        assert(blocks@.map_values(|b: Block| b@) == before.push(bv));
        i = next;
    }
    assert(blocks@.map_values(|b: Block| b@) + Seq::<BlockView>::empty() == blocks@.map_values(
        |b: Block| b@,
    ));
    Document { blocks }
}

} // verus!
