//! `find [target] [--name <pattern>]`: every node under a node, optionally filtered by
//! a wildcard pattern on its name.
use vstd::prelude::*;

use crate::application::vfs::{handles_view, opt_name, DirEntry, NodeHandle, NodeHandleView, VirtualFileSystem};
use crate::error::{ConfluenceCliError, Result};
use crate::text::{copy_str, join, str_eq, strings_view};

use super::super::state::{lineage_result, spec_lineage_wf, spec_render_lineage, ShellState};
use super::super::CommandOutput;
use super::grep::{format_entry, spec_format_entry};
use super::spec_target_lineage;
use super::tail::spec_lines_output;

verus! {

/// A byte in lower case, for ASCII letters.
pub open spec fn spec_ascii_lower(b: u8) -> u8 {
    if 65 <= b && b <= 90 {
        (b + 32) as u8
    } else {
        b
    }
}

/// Whether `pattern[i..]` matches `text[j..]`: `*` matches any run of bytes, `?` any one
/// byte, and other bytes match themselves ignoring ASCII case.
pub open spec fn spec_wildcard_from(pattern: Seq<u8>, text: Seq<u8>, i: int, j: int) -> bool
    decreases (pattern.len() - i) + (text.len() - j),
{
    if i < 0 || j < 0 || i > pattern.len() || j > text.len() {
        false
    } else if i == pattern.len() {
        j == text.len()
    } else if pattern[i] == 42u8 {
        spec_wildcard_from(pattern, text, i + 1, j) || (j < text.len() && spec_wildcard_from(
            pattern,
            text,
            i,
            j + 1,
        ))
    } else if j == text.len() {
        false
    } else if pattern[i] == 63u8 {
        spec_wildcard_from(pattern, text, i + 1, j + 1)
    } else if spec_ascii_lower(pattern[i]) == spec_ascii_lower(text[j]) {
        spec_wildcard_from(pattern, text, i + 1, j + 1)
    } else {
        false
    }
}

/// Whether the whole of `text` matches `pattern`, byte by byte in UTF-8.
pub open spec fn spec_wildcard(pattern: Seq<char>, text: Seq<char>) -> bool {
    spec_wildcard_from(vstd::utf8::encode_utf8(pattern), vstd::utf8::encode_utf8(text), 0, 0)
}

fn ascii_lower(b: u8) -> (r: u8)
    ensures
        r == spec_ascii_lower(b),
{
    if 65 <= b && b <= 90 {
        b + 32
    } else {
        b
    }
}

fn wildcard_match_inner(pattern: &[u8], text: &[u8], i: usize, j: usize) -> (r: bool)
    requires
        i <= pattern.len(),
        j <= text.len(),
    ensures
        r == spec_wildcard_from(pattern@, text@, i as int, j as int),
    decreases (pattern.len() - i) + (text.len() - j),
{
    if i == pattern.len() {
        return j == text.len();
    }
    if pattern[i] == 42u8 {
        return wildcard_match_inner(pattern, text, i + 1, j) || (j < text.len() && wildcard_match_inner(
            pattern,
            text,
            i,
            j + 1,
        ));
    }
    if j == text.len() {
        return false;
    }
    if pattern[i] == 63u8 {
        return wildcard_match_inner(pattern, text, i + 1, j + 1);
    }
    if ascii_lower(pattern[i]) == ascii_lower(text[j]) {
        wildcard_match_inner(pattern, text, i + 1, j + 1)
    } else {
        false
    }
}

/// Whether `text` matches the wildcard `pattern`.
pub fn wildcard_match(pattern: &str, text: &str) -> (r: bool)
    ensures
        r == spec_wildcard(pattern@, text@),
{
    wildcard_match_inner(pattern.as_bytes(), text.as_bytes(), 0, 0)
}

/// Every text matches `*`.
pub proof fn lemma_star_matches_everything(text: Seq<char>)
    ensures
        spec_wildcard("*"@, text),
{
    lemma_encode_star();
    let p = vstd::utf8::encode_utf8("*"@);
    let t = vstd::utf8::encode_utf8(text);
    lemma_star_suffix(p, t, t.len() as int);
}

proof fn lemma_star_suffix(p: Seq<u8>, t: Seq<u8>, j: int)
    requires
        p =~= seq![42u8],
        0 <= j <= t.len(),
    ensures
        spec_wildcard_from(p, t, 0, t.len() - j),
    decreases j,
{
    let k = t.len() - j;
    assert(spec_wildcard_from(p, t, 1, t.len() as int));
    if j > 0 {
        lemma_star_suffix(p, t, j - 1);
    }
}

/// The UTF-8 bytes of two texts one after the other are the bytes of each.
proof fn lemma_encode_utf8_concat(a: Seq<char>, b: Seq<char>)
    ensures
        vstd::utf8::encode_utf8(a + b) == vstd::utf8::encode_utf8(a) + vstd::utf8::encode_utf8(b),
    decreases a.len(),
{
    if a.len() == 0 {
        assert(a + b =~= b);
        assert(vstd::utf8::encode_utf8(a) + vstd::utf8::encode_utf8(b) =~= vstd::utf8::encode_utf8(b));
    } else {
        assert((a + b).drop_first() =~= a.drop_first() + b);
        assert((a + b)[0] == a[0]);
        lemma_encode_utf8_concat(a.drop_first(), b);
        assert(vstd::utf8::encode_scalar(a[0] as u32) + (vstd::utf8::encode_utf8(a.drop_first())
            + vstd::utf8::encode_utf8(b)) =~= vstd::utf8::encode_scalar(a[0] as u32)
            + vstd::utf8::encode_utf8(a.drop_first()) + vstd::utf8::encode_utf8(b));
    }
}

/// The bytes of `*`.
proof fn lemma_encode_star()
    ensures
        vstd::utf8::encode_utf8("*"@) == seq![42u8],
{
    reveal_strlit("*");
    let s = "*"@;
    assert(s =~= seq!['*']);
    assert(s[0] as u32 == 42u32);
    assert((42u32 & 0x7Fu32) as u8 == 42u8) by (bit_vector);
    assert(vstd::utf8::encode_scalar(42u32) =~= seq![42u8]);
    assert(s.drop_first().len() == 0);
    assert(vstd::utf8::encode_utf8(s.drop_first()) =~= Seq::<u8>::empty());
    assert(vstd::utf8::encode_utf8(s) =~= seq![42u8]);
}

/// A `*` at pattern position `i` matches any run of the text: where the rest of the
/// pattern matches from text position `k`, the pattern from the `*` matches from any
/// earlier position `j`.
pub proof fn lemma_star_absorbs_any_run(p: Seq<u8>, t: Seq<u8>, i: int, j: int, k: int)
    requires
        0 <= i < p.len(),
        p[i] == 42u8,
        0 <= j <= k <= t.len(),
        spec_wildcard_from(p, t, i + 1, k),
    ensures
        spec_wildcard_from(p, t, i, j),
    decreases k - j,
{
    if j < k {
        lemma_star_absorbs_any_run(p, t, i, j + 1, k);
    }
}

/// Pattern bytes equal to the text's bytes match them, whatever they are: a `*` or a
/// `?` in the pattern also matches the one byte it stands over.
pub proof fn lemma_same_bytes_match(p: Seq<u8>, t: Seq<u8>, i: int, j: int, n: int)
    requires
        0 <= n,
        0 <= i,
        i + n <= p.len(),
        0 <= j,
        j + n <= t.len(),
        p.subrange(i, i + n) == t.subrange(j, j + n),
        spec_wildcard_from(p, t, i + n, j + n),
    ensures
        spec_wildcard_from(p, t, i, j),
    decreases n,
{
    if n > 0 {
        assert(p[i + 1 + (n - 1)] == p[i + n]);
        assert(p.subrange(i + 1, i + 1 + (n - 1)) =~= p.subrange(i, i + n).drop_first());
        assert(t.subrange(j + 1, j + 1 + (n - 1)) =~= t.subrange(j, j + n).drop_first());
        lemma_same_bytes_match(p, t, i + 1, j + 1, n - 1);
        assert(p[i] == p.subrange(i, i + n)[0]);
        assert(t[j] == t.subrange(j, j + n)[0]);
        assert(p[i] == t[j]);
        if p[i] == 42u8 {
            assert(spec_wildcard_from(p, t, i + 1, j + 1));
            assert(spec_wildcard_from(p, t, i, j + 1));
        }
    }
}

/// Matching is decided by the rest alone: with a pattern `q + p` and a text `u + t`,
/// matching from the starts of `p` and `t` is matching `p` against `t`.
proof fn lemma_match_shift(q: Seq<u8>, p: Seq<u8>, u: Seq<u8>, t: Seq<u8>, a: int, b: int)
    requires
        0 <= a <= p.len(),
        0 <= b <= t.len(),
    ensures
        spec_wildcard_from(q + p, u + t, q.len() + a, u.len() + b) == spec_wildcard_from(p, t, a, b),
    decreases (p.len() - a) + (t.len() - b),
{
    let pp = q + p;
    let tt = u + t;
    if a < p.len() {
        assert(pp[q.len() + a] == p[a]);
        if b < t.len() {
            assert(tt[u.len() + b] == t[b]);
            lemma_match_shift(q, p, u, t, a + 1, b + 1);
        }
        if p[a] == 42u8 {
            lemma_match_shift(q, p, u, t, a + 1, b);
            if b < t.len() {
                lemma_match_shift(q, p, u, t, a, b + 1);
            }
        }
    }
}

/// A match of a whole pattern against a whole text carries over when both are followed
/// by more: from the same positions, `p + r` matches `t + v` wherever `r` matches `v`.
proof fn lemma_match_extend(p: Seq<u8>, r: Seq<u8>, t: Seq<u8>, v: Seq<u8>, i: int, j: int)
    requires
        spec_wildcard_from(p, t, i, j),
        spec_wildcard_from(p + r, t + v, p.len() as int, t.len() as int),
    ensures
        spec_wildcard_from(p + r, t + v, i, j),
    decreases (p.len() - i) + (t.len() - j),
{
    let pp = p + r;
    let tt = t + v;
    if i < p.len() {
        assert(pp[i] == p[i]);
        if j < t.len() {
            assert(tt[j] == t[j]);
        }
        if p[i] == 42u8 {
            if spec_wildcard_from(p, t, i + 1, j) {
                lemma_match_extend(p, r, t, v, i + 1, j);
            } else {
                lemma_match_extend(p, r, t, v, i, j + 1);
            }
        } else {
            lemma_match_extend(p, r, t, v, i + 1, j + 1);
        }
    }
}

/// Without `*`, a pattern matches byte for byte: it matches only texts with as many
/// bytes left as it has, a `?` standing for exactly one.
pub proof fn lemma_starless_match_same_length(p: Seq<u8>, t: Seq<u8>, i: int, j: int)
    requires
        0 <= i <= p.len(),
        forall|k: int| i <= k < p.len() ==> p[k] != 42u8,
        spec_wildcard_from(p, t, i, j),
    ensures
        p.len() - i == t.len() - j,
    decreases p.len() - i,
{
    if i < p.len() {
        lemma_starless_match_same_length(p, t, i + 1, j + 1);
    }
}

/// Matching ignores the case of ASCII letters in the text.
pub proof fn lemma_match_ignores_text_case(p: Seq<u8>, t: Seq<u8>, i: int, j: int)
    ensures
        spec_wildcard_from(p, t, i, j) == spec_wildcard_from(p, t.map_values(|b: u8| spec_ascii_lower(b)), i, j),
    decreases (p.len() - i) + (t.len() - j),
{
    let lt = t.map_values(|b: u8| spec_ascii_lower(b));
    if 0 <= i < p.len() && 0 <= j <= t.len() {
        if j < t.len() {
            assert(lt[j] == spec_ascii_lower(t[j]));
            assert(spec_ascii_lower(spec_ascii_lower(t[j])) == spec_ascii_lower(t[j]));
            lemma_match_ignores_text_case(p, t, i + 1, j + 1);
        }
        if p[i] == 42u8 {
            lemma_match_ignores_text_case(p, t, i + 1, j);
            if j < t.len() {
                lemma_match_ignores_text_case(p, t, i, j + 1);
            }
        }
    }
}

/// Every text matches itself as a pattern.
pub proof fn lemma_text_matches_itself(text: Seq<char>)
    ensures
        spec_wildcard(text, text),
{
    let b = vstd::utf8::encode_utf8(text);
    lemma_same_bytes_match(b, b, 0, 0, b.len() as int);
}

/// `*` between two patterns matches any text between two texts they match:
/// `p1 + "*" + p2` matches `t1 + x + t2` whenever `p1` matches `t1` and `p2` matches
/// `t2`.
pub proof fn lemma_star_joins_matches(p1: Seq<char>, p2: Seq<char>, t1: Seq<char>, x: Seq<char>, t2: Seq<char>)
    requires
        spec_wildcard(p1, t1),
        spec_wildcard(p2, t2),
    ensures
        spec_wildcard(p1 + "*"@ + p2, t1 + x + t2),
{
    let e1 = vstd::utf8::encode_utf8(p1);
    let e2 = vstd::utf8::encode_utf8(p2);
    let f1 = vstd::utf8::encode_utf8(t1);
    let fx = vstd::utf8::encode_utf8(x);
    let f2 = vstd::utf8::encode_utf8(t2);
    lemma_encode_star();
    lemma_encode_utf8_concat(p1, "*"@);
    lemma_encode_utf8_concat(p1 + "*"@, p2);
    lemma_encode_utf8_concat(t1, x);
    lemma_encode_utf8_concat(t1 + x, t2);
    let pp = e1 + seq![42u8] + e2;
    let tt = f1 + fx + f2;
    assert(vstd::utf8::encode_utf8(p1 + "*"@ + p2) == pp);
    assert(vstd::utf8::encode_utf8(t1 + x + t2) == tt);
    // After the star: the rest of the pattern against the rest of the text.
    lemma_match_shift(e1 + seq![42u8], e2, f1 + fx, f2, 0, 0);
    assert(spec_wildcard_from(pp, tt, e1.len() + 1int, f1.len() + fx.len() as int));
    // The star takes `x`.
    assert(pp[e1.len() as int] == 42u8);
    lemma_star_absorbs_any_run(pp, tt, e1.len() as int, f1.len() as int, (f1.len() + fx.len()) as int);
    // Before the star: `p1` against `t1`.
    assert(pp =~= e1 + (seq![42u8] + e2));
    assert(tt =~= f1 + (fx + f2));
    lemma_match_extend(e1, seq![42u8] + e2, f1, fx + f2, 0, 0);
}

/// A pattern `*` followed by a text matches any text that ends with it.
pub proof fn lemma_star_then_text_matches_suffix(a: Seq<char>, b: Seq<char>)
    ensures
        spec_wildcard("*"@ + b, a + b),
{
    lemma_text_matches_itself(Seq::<char>::empty());
    lemma_text_matches_itself(b);
    lemma_star_joins_matches(Seq::empty(), b, Seq::empty(), a, b);
    assert(Seq::<char>::empty() + "*"@ + b =~= "*"@ + b);
    assert(Seq::<char>::empty() + a + b =~= a + b);
}

pub open spec fn spec_find_usage() -> Seq<char> {
    "usage: find [target] [--name <pattern>]"@
}

/// The target and name filter of `find`, reading the words from position `i`.
pub open spec fn spec_find_args_from(
    argv: Seq<Seq<char>>,
    i: int,
    target: Option<Seq<char>>,
    filter: Option<Seq<char>>,
) -> Option<(Option<Seq<char>>, Option<Seq<char>>)>
    decreases argv.len() - i,
{
    if i < 0 || i >= argv.len() {
        Some((target, filter))
    } else if argv[i] == "--name"@ {
        if i + 1 >= argv.len() {
            None
        } else {
            spec_find_args_from(argv, i + 2, target, Some(argv[i + 1]))
        }
    } else if target is None {
        spec_find_args_from(argv, i + 1, Some(argv[i]), filter)
    } else {
        None
    }
}

/// The target and name filter of `find`; `None` for a malformed command.
pub open spec fn spec_find_args(argv: Seq<Seq<char>>) -> Option<(Option<Seq<char>>, Option<Seq<char>>)> {
    spec_find_args_from(argv, 1, None, None)
}

fn parse_args(argv: &[String]) -> (r: Result<(Option<String>, Option<String>)>)
    ensures
        match spec_find_args(strings_view(argv@)) {
            None => r matches Err(ConfluenceCliError::Config(m)) && m@ == spec_find_usage(),
            Some((t, f)) => r matches Ok((rt, rf)) && (match (rt, t) {
                (Some(a), Some(b)) => a@ == b,
                (None, None) => true,
                _ => false,
            }) && (match (rf, f) {
                (Some(a), Some(b)) => a@ == b,
                (None, None) => true,
                _ => false,
            }),
        },
{
    proof {
        reveal_strlit("--name");
    }
    let ghost av = strings_view(argv@);
    let mut target: Option<String> = None;
    let mut filter: Option<String> = None;
    let mut i: usize = 1;
    while i < argv.len()
        invariant
            1 <= i,
            av == strings_view(argv@),
            spec_find_args(av) == spec_find_args_from(av, i as int, match target {
                Some(t) => Some(t@),
                None => None,
            }, match filter {
                Some(t) => Some(t@),
                None => None,
            }),
        decreases argv.len() - i,
    {
        assert(av[i as int] == argv@[i as int]@);
        if str_eq(argv[i].as_str(), "--name") {
            if i + 1 >= argv.len() {
                return Err(ConfluenceCliError::Config(copy_str("usage: find [target] [--name <pattern>]")));
            }
            assert(av[i + 1] == argv@[i + 1]@);
            filter = Some(argv[i + 1].clone());
            i = i + 2;
        } else if target.is_none() {
            target = Some(argv[i].clone());
            i = i + 1;
        } else {
            return Err(ConfluenceCliError::Config(copy_str("usage: find [target] [--name <pattern>]")));
        }
    }
    Ok((target, filter))
}

/// The name a node is matched by.
pub open spec fn spec_node_name(h: NodeHandleView) -> Seq<char> {
    match h {
        NodeHandleView::Root => "/"@,
        NodeHandleView::Space(s) => s.key,
        NodeHandleView::Page(p) => p.title,
    }
}

/// Whether a node is listed under the filter: every node without one, else the nodes
/// whose name matches it.
pub open spec fn spec_keep(filter: Option<Seq<char>>, h: NodeHandleView) -> bool {
    match filter {
        None => true,
        Some(p) => spec_wildcard(p, spec_node_name(h)),
    }
}

/// The line for the last node of a path when the filter keeps it.
pub open spec fn spec_own_line(l: Seq<NodeHandleView>, filter: Option<Seq<char>>) -> Seq<Seq<char>> {
    if spec_keep(filter, l.last()) {
        seq![spec_format_entry(l, spec_render_lineage(l))]
    } else {
        Seq::empty()
    }
}

/// The lines of a walk from the last node of `l`: its own line, then, for each child the
/// file system lists, the lines of the walk from that child, in order; or the first error
/// the file system gives. `out` is a possible outcome.
pub open spec fn spec_find_from<V: VirtualFileSystem>(
    vfs: V,
    l: Seq<NodeHandleView>,
    filter: Option<Seq<char>>,
    out: Result<Seq<Seq<char>>>,
) -> bool
    decreases usize::MAX - l.len(), 1nat, 0int,
{
    exists|rd: Result<Vec<DirEntry>>|
        #[trigger] vfs.read_dir_post(l.last(), rd) && match rd {
            Err(e) => out == Err::<Seq<Seq<char>>, ConfluenceCliError>(e),
            Ok(es) => spec_find_children(vfs, l, filter, es@, 0, spec_own_line(l, filter), out),
        }
}

/// Names an outcome of a walk below a child, so that the outcomes the walk gave can be
/// matched in proofs.
pub open spec fn walk_outcome(r: Result<Seq<Seq<char>>>) -> bool {
    true
}

/// The lines of the walks from the children of `l` from position `i` on, after the lines
/// `acc`.
pub open spec fn spec_find_children<V: VirtualFileSystem>(
    vfs: V,
    l: Seq<NodeHandleView>,
    filter: Option<Seq<char>>,
    es: Seq<DirEntry>,
    i: int,
    acc: Seq<Seq<char>>,
    out: Result<Seq<Seq<char>>>,
) -> bool
    decreases usize::MAX - l.len(), 0nat, es.len() - i,
{
    if i < 0 || i >= es.len() {
        out == Ok::<Seq<Seq<char>>, ConfluenceCliError>(acc)
    } else if l.len() < usize::MAX {
        exists|sub: Result<Seq<Seq<char>>>|
            #![trigger walk_outcome(sub)]
            walk_outcome(sub) && spec_find_from(vfs, l.push(es[i].handle@), filter, sub) && match sub {
                Err(e) => out == Err::<Seq<Seq<char>>, ConfluenceCliError>(e),
                Ok(s) => spec_find_children(vfs, l, filter, es, i + 1, acc + s, out),
            }
    } else {
        false
    }
}

/// Two filters that keep the same nodes give the same walks: the children part.
proof fn lemma_children_same_filter<V: VirtualFileSystem>(
    vfs: V,
    l: Seq<NodeHandleView>,
    f1: Option<Seq<char>>,
    f2: Option<Seq<char>>,
    es: Seq<DirEntry>,
    i: int,
    acc: Seq<Seq<char>>,
    out: Result<Seq<Seq<char>>>,
)
    requires
        forall|h: NodeHandleView| spec_keep(f1, h) == spec_keep(f2, h),
    ensures
        spec_find_children(vfs, l, f1, es, i, acc, out) == spec_find_children(vfs, l, f2, es, i, acc, out),
    decreases usize::MAX - l.len(), 0nat, es.len() - i,
{
    if 0 <= i < es.len() && l.len() < usize::MAX {
        let child = l.push(es[i].handle@);
        assert(child.last() == es[i].handle@);
        assert forall|sub: Result<Seq<Seq<char>>>| #[trigger] walk_outcome(sub) implies
            spec_find_from(vfs, child, f1, sub) == spec_find_from(vfs, child, f2, sub)
                && (sub matches Ok(s) ==> spec_find_children(vfs, l, f1, es, i + 1, acc + s, out)
                    == spec_find_children(vfs, l, f2, es, i + 1, acc + s, out)) by {
            lemma_from_same_filter(vfs, child, f1, f2, sub);
            if let Ok(s) = sub {
                lemma_children_same_filter(vfs, l, f1, f2, es, i + 1, acc + s, out);
            }
        }
    }
}

/// Two filters that keep the same nodes give the same walks.
proof fn lemma_from_same_filter<V: VirtualFileSystem>(
    vfs: V,
    l: Seq<NodeHandleView>,
    f1: Option<Seq<char>>,
    f2: Option<Seq<char>>,
    out: Result<Seq<Seq<char>>>,
)
    requires
        forall|h: NodeHandleView| spec_keep(f1, h) == spec_keep(f2, h),
    ensures
        spec_find_from(vfs, l, f1, out) == spec_find_from(vfs, l, f2, out),
    decreases usize::MAX - l.len(), 1nat, 0int,
{
    assert(spec_own_line(l, f1) == spec_own_line(l, f2));
    assert forall|rd: Result<Vec<DirEntry>>| #[trigger] vfs.read_dir_post(l.last(), rd) implies
        (rd matches Ok(es) ==> spec_find_children(vfs, l, f1, es@, 0, spec_own_line(l, f1), out)
            == spec_find_children(vfs, l, f2, es@, 0, spec_own_line(l, f2), out)) by {
        if let Ok(es) = rd {
            lemma_children_same_filter(vfs, l, f1, f2, es@, 0, spec_own_line(l, f1), out);
        }
    }
}

/// `find --name '*'` lists exactly what `find` lists without a filter: the wildcard `*`
/// matches every name.
pub proof fn lemma_star_filter_lists_everything<V: VirtualFileSystem>(
    vfs: V,
    l: Seq<NodeHandleView>,
    out: Result<Seq<Seq<char>>>,
)
    ensures
        spec_find_from(vfs, l, Some("*"@), out) == spec_find_from(vfs, l, None, out),
{
    assert forall|h: NodeHandleView| spec_keep(Some("*"@), h) == spec_keep(None, h) by {
        lemma_star_matches_everything(spec_node_name(h));
    }
    lemma_from_same_filter(vfs, l, Some("*"@), None, out);
}

/// The lines appended to a list, or the error.
pub open spec fn appended(before: Seq<String>, after: Seq<String>, r: Result<()>) -> Result<Seq<Seq<char>>> {
    match r {
        Ok(_) => Ok(strings_view(after).skip(before.len() as int)),
        Err(e) => Err(e),
    }
}

/// Appends the label of every node under (and including) the last node of `lineage`
/// whose name matches the filter, parents before children.
#[verifier::spinoff_prover]
fn walk<V: VirtualFileSystem>(
    state: &ShellState<V>,
    lineage: &Vec<NodeHandle>,
    filter: Option<&str>,
    lines: &mut Vec<String>,
) -> (r: Result<()>)
    requires
        spec_lineage_wf(handles_view(lineage@)),
    ensures
        final(lines)@.len() >= old(lines)@.len(),
        forall|i: int| 0 <= i < old(lines)@.len() ==> (#[trigger] final(lines)@[i])@ == old(lines)@[i]@,
        spec_find_from(
            state.file_system(),
            handles_view(lineage@),
            opt_name(filter),
            appended(old(lines)@, final(lines)@, r),
        ),
    decreases usize::MAX - lineage@.len(),
{
    let ghost m0 = lines@;
    let ghost l = handles_view(lineage@);
    let ghost vfs = state.file_system();
    let ghost fv = opt_name(filter);
    let n = lineage.len();
    let current = &lineage[n - 1];
    assert(current@ == l.last());
    let display = {
        proof {
            crate::shell::state::lemma_wf_no_inner_root(lineage@);
        }
        state.render_lineage(lineage.as_slice())
    };
    let name: &str = match current {
        NodeHandle::Root => "/",
        NodeHandle::Space(space) => space.key.as_str(),
        NodeHandle::Page(page) => page.title.as_str(),
    };
    assert(name@ == spec_node_name(current@));
    let keep = match filter {
        Some(pattern) => wildcard_match(pattern, name),
        None => true,
    };
    assert(keep == spec_keep(fv, l.last()));
    if keep {
        lines.push(format_entry(lineage.as_slice(), display.as_str()));
    }
    let ghost m_own = lines@;
    assert(strings_view(m_own).skip(m0.len() as int) =~= spec_own_line(l, fv));
    let rd = state.vfs().read_dir(current);
    let ghost grd = rd;
    assert(vfs.read_dir_post(l.last(), grd));
    let entries = match rd {
        Ok(es) => es,
        Err(e) => {
            assert(spec_find_from(vfs, l, fv, Err::<Seq<Seq<char>>, ConfluenceCliError>(e)));
            return Err(e);
        },
    };
    let mut j: usize = 0;
    while j < entries.len()
        invariant
            j <= entries.len(),
            l == handles_view(lineage@),
            vfs == state.file_system(),
            fv == opt_name(filter),
            spec_lineage_wf(l),
            current@ == l.last(),
            grd == Ok::<Vec<DirEntry>, ConfluenceCliError>(entries),
            vfs.read_dir_post(l.last(), grd),
            forall|i: int| 0 <= i < entries@.len() ==> !(#[trigger] entries@[i]).handle.is_root(),
            m0 == old(lines)@,
            lines@.len() >= m0.len(),
            forall|i: int| 0 <= i < m0.len() ==> (#[trigger] lines@[i])@ == m0[i]@,
            forall|out: Result<Seq<Seq<char>>>|
                spec_find_children(vfs, l, fv, entries@, j as int, strings_view(lines@).skip(m0.len() as int), out)
                    ==> #[trigger] spec_find_children(vfs, l, fv, entries@, 0, spec_own_line(l, fv), out),
        decreases entries.len() - j,
    {
        let mut next = crate::application::vfs::duplicate_handles(lineage.as_slice());
        let ghost before = handles_view(next@);
        assert(before.len() == next@.len());
        assert(!entries@[j as int].handle.is_root());
        next.push(entries[j].handle.duplicate());
        assert(next@.len() == lineage@.len() + 1);
        let _depth: usize = next.len();
        assert(l.len() == lineage@.len());
        assert(l.len() < usize::MAX);
        assert(handles_view(next@) == before.push(entries@[j as int].handle@));
        assert(handles_view(next@) == l.push(entries@[j as int].handle@));
        let ghost m1 = lines@;
        let ghost acc = strings_view(m1).skip(m0.len() as int);
        let rr = walk(state, &next, filter, lines);
        let ghost sub = appended(m1, lines@, rr);
        assert(spec_find_from(vfs, l.push(entries@[j as int].handle@), fv, sub));
        assert(walk_outcome(sub));
        assert forall|i: int| 0 <= i < m0.len() implies (#[trigger] lines@[i])@ == m0[i]@ by {
            assert(lines@[i]@ == m1[i]@);
        }
        match rr {
            Err(e) => {
                assert(spec_find_children(vfs, l, fv, entries@, j as int, acc, Err::<Seq<Seq<char>>, ConfluenceCliError>(e)));
                assert(spec_find_children(vfs, l, fv, entries@, 0, spec_own_line(l, fv), Err::<Seq<Seq<char>>, ConfluenceCliError>(e)));
                assert(spec_find_from(vfs, l, fv, Err::<Seq<Seq<char>>, ConfluenceCliError>(e)));
                return Err(e);
            },
            Ok(()) => {},
        }
        assert(strings_view(lines@).skip(m0.len() as int) =~= acc + strings_view(lines@).skip(m1.len() as int)) by {
            assert forall|k: int| 0 <= k < m1.len() implies (#[trigger] lines@[k])@ == m1[k]@ by {}
        }
        assert forall|out: Result<Seq<Seq<char>>>|
            spec_find_children(vfs, l, fv, entries@, j + 1, strings_view(lines@).skip(m0.len() as int), out)
                implies #[trigger] spec_find_children(vfs, l, fv, entries@, 0, spec_own_line(l, fv), out) by {
            assert(spec_find_children(vfs, l, fv, entries@, j as int, acc, out));
        }
        j = j + 1;
    }
    assert(spec_find_children(vfs, l, fv, entries@, j as int, strings_view(lines@).skip(m0.len() as int), Ok::<Seq<Seq<char>>, ConfluenceCliError>(strings_view(lines@).skip(m0.len() as int))));
    assert(spec_find_children(vfs, l, fv, entries@, 0, spec_own_line(l, fv), Ok::<Seq<Seq<char>>, ConfluenceCliError>(strings_view(lines@).skip(m0.len() as int))));
    assert(spec_find_from(vfs, l, fv, appended(m0, lines@, Ok(()))));
    Ok(())
}

/// What `find` prints for a walk from the last node of `l`: its lines, each ended.
pub open spec fn spec_find_report<V: VirtualFileSystem>(
    vfs: V,
    l: Seq<NodeHandleView>,
    filter: Option<Seq<char>>,
    r: Result<CommandOutput>,
) -> bool {
    exists|w: Result<Seq<Seq<char>>>|
        #[trigger] spec_find_from(vfs, l, filter, w) && match w {
            Err(e) => r == Err::<CommandOutput, ConfluenceCliError>(e),
            Ok(ls) => r matches Ok(CommandOutput::Text(t)) && t@ == spec_lines_output(ls),
        }
}

/// `find`: the labels of the nodes under the current or named node, filtered by name.
pub fn execute<V: VirtualFileSystem>(state: &ShellState<V>, argv: &[String], input: Option<String>) -> (r: Result<CommandOutput>)
    requires
        state.wf(),
    ensures
        input is Some ==> (r matches Err(ConfluenceCliError::Config(m)) && m@
            == "find does not accept piped input"@),
        input is None ==> match spec_find_args(strings_view(argv@)) {
            None => r matches Err(ConfluenceCliError::Config(m)) && m@ == spec_find_usage(),
            Some((target, filter)) => exists|res: Result<Seq<NodeHandleView>>|
                #[trigger] spec_target_lineage(state.file_system(), state.lineage(), target, res) && match res {
                    Err(e) => r == Err::<CommandOutput, ConfluenceCliError>(e),
                    Ok(l) => spec_find_report(state.file_system(), l, filter, r),
                },
        },
{
    if input.is_some() {
        return Err(ConfluenceCliError::Config(copy_str("find does not accept piped input")));
    }
    let (target, filter) = parse_args(argv)?;
    let t = match &target {
        Some(s) => Some(s.as_str()),
        None => None,
    };
    let lr = state.resolve_target_lineage(t);
    let ghost res = lineage_result(lr);
    assert(spec_target_lineage(state.file_system(), state.lineage(), match target {
        Some(s) => Some(s@),
        None => None::<Seq<char>>,
    }, res));
    let lineage = match lr {
        Ok(l) => l,
        Err(e) => {
            return Err(e);
        },
    };
    let mut found: Vec<String> = Vec::new();
    let f = match &filter {
        Some(s) => Some(s.as_str()),
        None => None,
    };
    let w = walk(state, &lineage, f, &mut found);
    let ghost gw = appended(Seq::empty(), found@, w);
    assert(spec_find_from(state.file_system(), handles_view(lineage@), opt_name(f), gw));
    assert(strings_view(found@).skip(0) =~= strings_view(found@));
    let r = match w {
        Err(e) => Err(e),
        Ok(()) => if found.len() == 0 {
            Ok(CommandOutput::Text(String::new()))
        } else {
            let mut out = join(found.as_slice(), "\n");
            out.append("\n");
            Ok(CommandOutput::Text(out))
        },
    };
    assert(spec_find_report(state.file_system(), handles_view(lineage@), opt_name(f), r));
    r
}

} // verus!
