//! `grep <pattern> [target]`: matching lines of piped input, or of every page under a
//! node.
use vstd::prelude::*;

use crate::application::vfs::{handles_view, DirEntry, NodeHandle, NodeHandleView, VirtualFileSystem};
use crate::error::{ConfluenceCliError, Result};
use crate::text::{
    chars_of, contains, copy_str, join, lines, spec_contains, spec_decimal, spec_join, spec_lines,
    spec_occurs_at, str_eq, string_of, strings_view, u64_to_string,
};

use super::super::state::{lineage_result, spec_lineage_wf, spec_render_lineage, ShellState};
use super::super::CommandOutput;
use super::tail::spec_lines_output;
use super::find::{appended, walk_outcome};
use super::{read_page_text, spec_page_text, spec_target_lineage, text_result};

verus! {

/// The lines that contain `pattern`, in order.
pub open spec fn spec_matching_lines(ls: Seq<Seq<char>>, pattern: Seq<char>) -> Seq<Seq<char>>
    decreases ls.len(),
{
    if ls.len() == 0 {
        Seq::empty()
    } else if spec_contains(ls.last(), pattern) {
        spec_matching_lines(ls.drop_last(), pattern).push(ls.last())
    } else {
        spec_matching_lines(ls.drop_last(), pattern)
    }
}

/// What `grep` prints for piped input: the matching lines joined, with a final line
/// ending unless that leaves nothing.
pub open spec fn spec_grep_input(input: Seq<char>, pattern: Seq<char>) -> Seq<char> {
    let out = spec_join(spec_matching_lines(spec_lines(input), pattern), "\n"@);
    if out.len() == 0 {
        out
    } else {
        out + "\n"@
    }
}

/// The pattern and target of `grep`.
pub open spec fn spec_grep_args(argv: Seq<Seq<char>>) -> Option<(Seq<char>, Option<Seq<char>>)> {
    if argv.len() == 2 && argv[0] == "grep"@ {
        Some((argv[1], None))
    } else if argv.len() == 3 && argv[0] == "grep"@ {
        Some((argv[1], Some(argv[2])))
    } else {
        None
    }
}

/// Text containing `p` still contains it with more text before it.
pub proof fn lemma_contains_after_prefix(a: Seq<char>, s: Seq<char>, p: Seq<char>)
    requires
        spec_contains(s, p),
    ensures
        spec_contains(a + s, p),
{
    let i = choose|i: int| spec_occurs_at(s, p, i);
    assert((a + s).subrange(a.len() + i, a.len() + i + p.len()) == s.subrange(i, i + p.len()));
    assert(spec_occurs_at(a + s, p, a.len() + i));
}

/// The matching lines of a text, joined.
fn grep_text(text: &str, pattern: &str) -> (r: String)
    ensures
        r@ == spec_grep_input(text@, pattern@),
{
    let chars = chars_of(text);
    let pat = chars_of(pattern);
    let ls = lines(chars.as_slice());
    let ghost lv = ls@.map_values(|l: Vec<char>| l@);
    let mut kept: Vec<String> = Vec::new();
    let mut i: usize = 0;
    while i < ls.len()
        invariant
            i <= ls.len(),
            lv == ls@.map_values(|l: Vec<char>| l@),
            pat@ == pattern@,
            strings_view(kept@) == spec_matching_lines(lv.take(i as int), pattern@),
        decreases ls.len() - i,
    {
        assert(lv.take(i + 1).drop_last() == lv.take(i as int));
        assert(lv.take(i + 1).last() == ls@[i as int]@);
        if contains(ls[i].as_slice(), pat.as_slice()) {
            let ghost before = strings_view(kept@);
            kept.push(string_of(ls[i].as_slice()));
            assert(strings_view(kept@) == before.push(ls@[i as int]@));
        }
        i = i + 1;
    }
    assert(lv.take(ls.len() as int) == lv);
    let mut out = join(kept.as_slice(), "\n");
    if !out.as_str().is_empty() {
        out.append("\n");
    }
    out
}

/// The label of a matching page: the path and the node's id.
pub open spec fn spec_format_entry(l: Seq<NodeHandleView>, display: Seq<char>) -> Seq<char> {
    match l.last() {
        NodeHandleView::Root => "/"@,
        NodeHandleView::Space(s) => display + " ["@ + s.id + "]"@,
        NodeHandleView::Page(p) => display + " ["@ + crate::text::spec_decimal(p.id as nat) + "]"@,
    }
}

/// The label of a node in search results.
pub fn format_entry(lineage: &[NodeHandle], display: &str) -> (r: String)
    requires
        lineage@.len() >= 1,
    ensures
        r@ == spec_format_entry(handles_view(lineage@), display@),
{
    let n = lineage.len();
    assert(lineage@[n - 1]@ == handles_view(lineage@).last());
    match &lineage[n - 1] {
        NodeHandle::Root => copy_str("/"),
        NodeHandle::Space(space) => {
            let mut s = copy_str(display);
            s.append(" [");
            s.append(space.id.as_str());
            s.append("]");
            s
        },
        NodeHandle::Page(page) => {
            let mut s = copy_str(display);
            s.append(" [");
            let digits = u64_to_string(page.id);
            s.append(digits.as_str());
            s.append("]");
            s
        },
    }
}

/// The numbered matching lines of a page's text: `prefix:n:line` for each line that
/// contains the pattern, where `n` counts lines from 1.
pub open spec fn spec_numbered_matches(prefix: Seq<char>, ls: Seq<Seq<char>>, pattern: Seq<char>) -> Seq<Seq<char>>
    decreases ls.len(),
{
    if ls.len() == 0 {
        Seq::empty()
    } else {
        let rest = spec_numbered_matches(prefix, ls.drop_last(), pattern);
        if spec_contains(ls.last(), pattern) {
            rest.push(prefix + ":"@ + spec_decimal(ls.len()) + ":"@ + ls.last())
        } else {
            rest
        }
    }
}

/// The matches a node contributes itself: for a page, the numbered matching lines of
/// its text, labelled with its path and id, or the error reading it gave; nothing for
/// other nodes. `out` is a possible outcome.
pub open spec fn spec_grep_own<V: VirtualFileSystem>(
    vfs: V,
    l: Seq<NodeHandleView>,
    pattern: Seq<char>,
    out: Result<Seq<Seq<char>>>,
) -> bool {
    if l.last() is Page {
        exists|t: Result<Seq<char>>|
            #[trigger] spec_page_text(vfs, l.last(), t) && match t {
                Err(e) => out == Err::<Seq<Seq<char>>, ConfluenceCliError>(e),
                Ok(text) => out == Ok::<Seq<Seq<char>>, ConfluenceCliError>(
                    spec_numbered_matches(spec_format_entry(l, spec_render_lineage(l)), spec_lines(text), pattern),
                ),
            }
    } else {
        out == Ok::<Seq<Seq<char>>, ConfluenceCliError>(Seq::empty())
    }
}

/// The matches of a search from the last node of `l`: its own matches, then, for each
/// child the file system lists, the matches of the search from that child, in order;
/// or the first error met. `out` is a possible outcome.
pub open spec fn spec_grep_from<V: VirtualFileSystem>(
    vfs: V,
    l: Seq<NodeHandleView>,
    pattern: Seq<char>,
    out: Result<Seq<Seq<char>>>,
) -> bool
    decreases usize::MAX - l.len(), 1nat, 0int,
{
    exists|own: Result<Seq<Seq<char>>>|
        #[trigger] spec_grep_own(vfs, l, pattern, own) && match own {
            Err(e) => out == Err::<Seq<Seq<char>>, ConfluenceCliError>(e),
            Ok(o) => exists|rd: Result<Vec<DirEntry>>|
                #[trigger] vfs.read_dir_post(l.last(), rd) && match rd {
                    Err(e) => out == Err::<Seq<Seq<char>>, ConfluenceCliError>(e),
                    Ok(es) => spec_grep_children(vfs, l, pattern, es@, 0, o, out),
                },
        }
}

/// The matches of the searches from the children of `l` from position `i` on, after
/// the matches `acc`.
pub open spec fn spec_grep_children<V: VirtualFileSystem>(
    vfs: V,
    l: Seq<NodeHandleView>,
    pattern: Seq<char>,
    es: Seq<DirEntry>,
    i: int,
    acc: Seq<Seq<char>>,
    out: Result<Seq<Seq<char>>>,
) -> bool
    decreases usize::MAX - l.len(), 0nat, es.len() - i,
{
    if i < 0 || i >= es.len() {
        out == Ok::<Seq<Seq<char>>, ConfluenceCliError>(acc)
    } else if l.len() < usize::MAX {
        exists|sub: Result<Seq<Seq<char>>>|
            #![trigger walk_outcome(sub)]
            walk_outcome(sub) && spec_grep_from(vfs, l.push(es[i].handle@), pattern, sub) && match sub {
                Err(e) => out == Err::<Seq<Seq<char>>, ConfluenceCliError>(e),
                Ok(s) => spec_grep_children(vfs, l, pattern, es, i + 1, acc + s, out),
            }
    } else {
        false
    }
}

/// Searches the pages under the last node of `lineage`, appending `path [id]:line:text`
/// for each matching line. Every appended line contains the pattern.
#[verifier::spinoff_prover]
fn grep_lineage<V: VirtualFileSystem>(
    state: &ShellState<V>,
    lineage: &Vec<NodeHandle>,
    pattern: &str,
    matches: &mut Vec<String>,
) -> (r: Result<()>)
    requires
        spec_lineage_wf(handles_view(lineage@)),
    ensures
        final(matches)@.len() >= old(matches)@.len(),
        forall|i: int| 0 <= i < old(matches)@.len() ==> (#[trigger] final(matches)@[i])@ == old(matches)@[i]@,
        forall|i: int|
            old(matches)@.len() <= i < final(matches)@.len() ==> spec_contains(
                (#[trigger] final(matches)@[i])@,
                pattern@,
            ),
        spec_grep_from(state.file_system(), handles_view(lineage@), pattern@, appended(old(matches)@, final(matches)@, r)),
    decreases usize::MAX - lineage@.len(),
{
    let ghost m0 = matches@;
    let ghost l = handles_view(lineage@);
    let ghost vfs = state.file_system();
    let ghost pv = pattern@;
    let n = lineage.len();
    let current = &lineage[n - 1];
    assert(current@ == l.last());
    let pat = chars_of(pattern);
    if let NodeHandle::Page(_) = current {
        let tr = read_page_text(state, current);
        let ghost gt = text_result(tr);
        assert(spec_page_text(vfs, l.last(), gt));
        let text = match tr {
            Ok(t) => t,
            Err(e) => {
                assert(spec_grep_own(vfs, l, pv, Err::<Seq<Seq<char>>, ConfluenceCliError>(e)));
                assert(spec_grep_from(vfs, l, pv, Err::<Seq<Seq<char>>, ConfluenceCliError>(e)));
                return Err(e);
            },
        };
        let display = {
            proof {
                crate::shell::state::lemma_wf_no_inner_root(lineage@);
            }
            state.render_lineage(lineage.as_slice())
        };
        let prefix = format_entry(lineage.as_slice(), display.as_str());
        let ghost pre = prefix@;
        assert(pre == spec_format_entry(l, spec_render_lineage(l)));
        let chars = chars_of(text.as_str());
        let ls = lines(chars.as_slice());
        let ghost lv = ls@.map_values(|x: Vec<char>| x@);
        assert(lv == spec_lines(text@));
        let mut k: usize = 0;
        assert(strings_view(matches@).skip(m0.len() as int) =~= Seq::<Seq<char>>::empty());
        while k < ls.len()
            invariant
                k <= ls.len(),
                pat@ == pattern@,
                pv == pattern@,
                pre == prefix@,
                lv == ls@.map_values(|x: Vec<char>| x@),
                m0 == old(matches)@,
                matches@.len() >= m0.len(),
                forall|i: int| 0 <= i < m0.len() ==> (#[trigger] matches@[i])@ == m0[i]@,
                forall|i: int| m0.len() <= i < matches@.len() ==> spec_contains((#[trigger] matches@[i])@, pattern@),
                strings_view(matches@).skip(m0.len() as int) == spec_numbered_matches(pre, lv.take(k as int), pv),
            decreases ls.len() - k,
        {
            assert(lv.take(k + 1).drop_last() == lv.take(k as int));
            assert(lv.take(k + 1).last() == ls@[k as int]@);
            if contains(ls[k].as_slice(), pat.as_slice()) {
                let mut m = copy_str(prefix.as_str());
                m.append(":");
                let digits = u64_to_string((k as u64) + 1);
                m.append(digits.as_str());
                m.append(":");
                let line = string_of(ls[k].as_slice());
                let ghost head = m@;
                m.append(line.as_str());
                proof {
                    lemma_contains_after_prefix(head, line@, pattern@);
                }
                assert(m@ == pre + ":"@ + spec_decimal(lv.take(k + 1).len()) + ":"@ + lv.take(k + 1).last());
                let ghost before = matches@;
                matches.push(m);
                assert(strings_view(matches@).skip(m0.len() as int) =~= strings_view(before).skip(m0.len() as int).push(m@));
            }
            k = k + 1;
        }
        assert(lv.take(ls.len() as int) == lv);
        assert(spec_grep_own(vfs, l, pv, Ok::<Seq<Seq<char>>, ConfluenceCliError>(strings_view(matches@).skip(m0.len() as int))));
    } else {
        assert(strings_view(matches@).skip(m0.len() as int) =~= Seq::<Seq<char>>::empty());
    }
    let ghost m_own = matches@;
    let ghost own = strings_view(m_own).skip(m0.len() as int);
    assert(spec_grep_own(vfs, l, pv, Ok::<Seq<Seq<char>>, ConfluenceCliError>(own)));
    let rd = state.vfs().read_dir(current);
    let ghost grd = rd;
    assert(vfs.read_dir_post(l.last(), grd));
    let entries = match rd {
        Ok(es) => es,
        Err(e) => {
            assert(spec_grep_from(vfs, l, pv, Err::<Seq<Seq<char>>, ConfluenceCliError>(e)));
            return Err(e);
        },
    };
    let mut j: usize = 0;
    while j < entries.len()
        invariant
            j <= entries.len(),
            l == handles_view(lineage@),
            vfs == state.file_system(),
            pv == pattern@,
            spec_lineage_wf(l),
            current@ == l.last(),
            grd == Ok::<Vec<DirEntry>, ConfluenceCliError>(entries),
            vfs.read_dir_post(l.last(), grd),
            spec_grep_own(vfs, l, pv, Ok::<Seq<Seq<char>>, ConfluenceCliError>(own)),
            forall|i: int| 0 <= i < entries@.len() ==> !(#[trigger] entries@[i]).handle.is_root(),
            m0 == old(matches)@,
            matches@.len() >= m0.len(),
            forall|i: int| 0 <= i < m0.len() ==> (#[trigger] matches@[i])@ == m0[i]@,
            forall|i: int| m0.len() <= i < matches@.len() ==> spec_contains((#[trigger] matches@[i])@, pattern@),
            forall|out: Result<Seq<Seq<char>>>|
                spec_grep_children(vfs, l, pv, entries@, j as int, strings_view(matches@).skip(m0.len() as int), out)
                    ==> #[trigger] spec_grep_children(vfs, l, pv, entries@, 0, own, out),
        decreases entries.len() - j,
    {
        let mut next = crate::application::vfs::duplicate_handles(lineage.as_slice());
        let ghost before = handles_view(next@);
        assert(before.len() == next@.len());
        assert(!entries@[j as int].handle.is_root());
        next.push(entries[j].handle.duplicate());
        assert(next@.len() == lineage@.len() + 1);
        let _depth: usize = next.len();
        assert(l.len() == lineage@.len());
        assert(l.len() < usize::MAX);
        assert(handles_view(next@) == before.push(entries@[j as int].handle@));
        assert(handles_view(next@) == l.push(entries@[j as int].handle@));
        assert(spec_lineage_wf(handles_view(next@)));
        let ghost m1 = matches@;
        let ghost acc = strings_view(m1).skip(m0.len() as int);
        let rr = grep_lineage(state, &next, pattern, matches);
        let ghost sub = appended(m1, matches@, rr);
        assert(spec_grep_from(vfs, l.push(entries@[j as int].handle@), pv, sub));
        assert(walk_outcome(sub));
        assert forall|i: int| 0 <= i < m0.len() implies (#[trigger] matches@[i])@ == m0[i]@ by {
            assert(matches@[i]@ == m1[i]@);
        }
        assert forall|i: int| m0.len() <= i < matches@.len() implies spec_contains((#[trigger] matches@[i])@, pattern@) by {
            if i < m1.len() {
                assert(matches@[i]@ == m1[i]@);
            }
        }
        match rr {
            Err(e) => {
                assert(spec_grep_children(vfs, l, pv, entries@, j as int, acc, Err::<Seq<Seq<char>>, ConfluenceCliError>(e)));
                assert(spec_grep_children(vfs, l, pv, entries@, 0, own, Err::<Seq<Seq<char>>, ConfluenceCliError>(e)));
                assert(spec_grep_from(vfs, l, pv, Err::<Seq<Seq<char>>, ConfluenceCliError>(e)));
                return Err(e);
            },
            Ok(()) => {},
        }
        assert(strings_view(matches@).skip(m0.len() as int) =~= acc + strings_view(matches@).skip(m1.len() as int)) by {
            assert forall|k: int| 0 <= k < m1.len() implies (#[trigger] matches@[k])@ == m1[k]@ by {}
        }
        assert forall|out: Result<Seq<Seq<char>>>|
            spec_grep_children(vfs, l, pv, entries@, j + 1, strings_view(matches@).skip(m0.len() as int), out)
                implies #[trigger] spec_grep_children(vfs, l, pv, entries@, 0, own, out) by {
            assert(spec_grep_children(vfs, l, pv, entries@, j as int, acc, out));
        }
        j = j + 1;
    }
    let ghost fin = strings_view(matches@).skip(m0.len() as int);
    assert(spec_grep_children(vfs, l, pv, entries@, j as int, fin, Ok::<Seq<Seq<char>>, ConfluenceCliError>(fin)));
    assert(spec_grep_children(vfs, l, pv, entries@, 0, own, Ok::<Seq<Seq<char>>, ConfluenceCliError>(fin)));
    assert(spec_grep_from(vfs, l, pv, appended(m0, matches@, Ok(()))));
    Ok(())
}

/// What `grep` prints for a search from the last node of `l`: its matches, each ended.
pub open spec fn spec_grep_report<V: VirtualFileSystem>(
    vfs: V,
    l: Seq<NodeHandleView>,
    pattern: Seq<char>,
    r: Result<CommandOutput>,
) -> bool {
    exists|w: Result<Seq<Seq<char>>>|
        #[trigger] spec_grep_from(vfs, l, pattern, w) && match w {
            Err(e) => r == Err::<CommandOutput, ConfluenceCliError>(e),
            Ok(ls) => r matches Ok(CommandOutput::Text(t)) && t@ == spec_lines_output(ls),
        }
}

/// `grep`: the lines of piped input that contain the pattern, or the matching lines of
/// every page under the current or named node, each labelled with its page and line
/// number.
pub fn execute<V: VirtualFileSystem>(state: &ShellState<V>, argv: &[String], input: Option<String>) -> (r: Result<CommandOutput>)
    requires
        state.wf(),
    ensures
        match spec_grep_args(strings_view(argv@)) {
            None => r matches Err(ConfluenceCliError::Config(m)) && m@ == "usage: grep <pattern> [target]"@,
            Some((pattern, target)) => match input {
                Some(i) => if target is Some {
                    r matches Err(ConfluenceCliError::Config(m)) && m@
                        == "grep does not accept both piped input and an explicit target"@
                } else {
                    r matches Ok(CommandOutput::Text(t)) && t@ == spec_grep_input(i@, pattern)
                },
                None => exists|res: Result<Seq<NodeHandleView>>|
                    #[trigger] spec_target_lineage(state.file_system(), state.lineage(), target, res)
                        && match res {
                        Err(e) => r == Err::<CommandOutput, ConfluenceCliError>(e),
                        Ok(l) => spec_grep_report(state.file_system(), l, pattern, r) && (r matches Ok(
                            CommandOutput::Text(t),
                        ) ==> exists|found: Seq<Seq<char>>|
                            #[trigger] spec_lines_output(found) == t@ && forall|i: int|
                                0 <= i < found.len() ==> spec_contains(#[trigger] found[i], pattern)),
                    },
            },
        },
{
    proof {
        reveal_strlit("grep");
    }
    let ghost av = strings_view(argv@);
    if !((argv.len() == 2 || argv.len() == 3) && str_eq(argv[0].as_str(), "grep")) {
        return Err(ConfluenceCliError::Config(copy_str("usage: grep <pattern> [target]")));
    }
    let pattern = argv[1].as_str();
    let target = if argv.len() == 3 {
        Some(argv[2].as_str())
    } else {
        None
    };
    assert(av[1] == pattern@);
    if let Some(text) = input {
        if target.is_some() {
            return Err(ConfluenceCliError::Config(copy_str("grep does not accept both piped input and an explicit target")));
        }
        return Ok(CommandOutput::Text(grep_text(text.as_str(), pattern)));
    }
    let lr = state.resolve_target_lineage(target);
    let ghost res = lineage_result(lr);
    assert(spec_target_lineage(state.file_system(), state.lineage(), match target {
        Some(t) => Some(t@),
        None => None::<Seq<char>>,
    }, res));
    let lineage = match lr {
        Ok(l) => l,
        Err(e) => {
            return Err(e);
        },
    };
    let mut found: Vec<String> = Vec::new();
    let w = grep_lineage(state, &lineage, pattern, &mut found);
    let ghost gw = appended(Seq::empty(), found@, w);
    assert(spec_grep_from(state.file_system(), handles_view(lineage@), pattern@, gw));
    let ghost fv = strings_view(found@);
    assert(fv.skip(0) =~= fv);
    assert forall|i: int| 0 <= i < fv.len() implies spec_contains(#[trigger] fv[i], pattern@) by {
        assert(fv[i] == found@[i]@);
    }
    let r = match w {
        Err(e) => Err(e),
        Ok(()) => if found.len() == 0 {
            assert(spec_lines_output(fv) == Seq::<char>::empty());
            Ok(CommandOutput::Text(String::new()))
        } else {
            let mut out = join(found.as_slice(), "\n");
            out.append("\n");
            assert(spec_lines_output(fv) == out@);
            Ok(CommandOutput::Text(out))
        },
    };
    assert(spec_grep_report(state.file_system(), handles_view(lineage@), pattern@, r));
    r
}

} // verus!
